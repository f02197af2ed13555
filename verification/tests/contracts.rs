use contract_descriptor::category::{OuterCategory, OuterType};
use contract_descriptor::compiled::CompiledMiniscript;
use contract_descriptor::contract::ContractDescriptor;
use contract_descriptor::descriptor::{DescriptorType, Network};
use contract_descriptor::error::ErrorOrigin;
use contract_descriptor::key::Key;
use contract_descriptor::parsed::{ParsedDescriptor, ShInner, Terminal, WshInner};
use contract_descriptor::policy::{multisig_miniscript, threshold_policy_text, Policy};
use contract_descriptor::script::{
    p2sh_script, p2wsh_script, BareCtx, Legacy, Miniscript, ScriptContext, Segwitv0,
};

const A: &str = "0279be667ef9dcbbac55a06295ce870b07029bfcdb2dce28d959f2815b16f81798";
const B: &str = "02c6047f9441ed7d6d3045406e95c07cd85c778e4b8cef3ca7abac09b95c709ee5";
const C: &str = "02f9308a019258c31049344f85f89d5229b531c845836f99b08601f113bce036f9";
const D: &str = "02e493dbf1c10d80f3581e4904930b1404cc6c13900ee0758474fa94abe8c4cd13";
const LONG: &str = "0479be667ef9dcbbac55a06295ce870b07029bfcdb2dce28d959f2815b16f81798483ada7726a3c4655da4fbfc0e1108a8fd17b448a68554199c47d08ffb10d4b8";

fn key(s: &str) -> Key {
    Key::from_str(s).unwrap()
}

fn keys(list: &[&str]) -> Vec<Key> {
    list.iter().map(|s| key(s)).collect()
}

fn single(category: OuterCategory, s: &str) -> ContractDescriptor {
    ContractDescriptor::SingleSig { category, pk: key(s) }
}

fn multi(
    category: OuterCategory,
    threshold: usize,
    list: &[&str],
    sorted: bool,
) -> ContractDescriptor {
    ContractDescriptor::MultiSig { category, threshold, signers: keys(list), sorted }
}

fn script(category: OuterCategory, policy: &str) -> ContractDescriptor {
    let policy = Policy::from_str(policy).unwrap();
    let ms_cache = CompiledMiniscript::with(&policy, category).unwrap();
    ContractDescriptor::Script { ms_cache, policy }
}

fn miniscript<Ctx: ScriptContext>(text: &str) -> Miniscript<Ctx> {
    Miniscript::from_str(text).unwrap()
}

fn hex(bytes: &[u8]) -> String {
    bytes.iter().map(|b| format!("{:02x}", b)).collect()
}

fn text(d: &ContractDescriptor, nested: bool) -> String {
    d.try_to_text(nested).unwrap()
}

#[test]
fn keys_are_read() {
    assert_eq!(key(A).as_str(), A);
    assert_eq!(key(&A.to_uppercase()).as_str(), A);
    assert!(!key(A).is_uncompressed());
    assert!(key(LONG).is_uncompressed());
    assert_eq!(key(LONG).as_str(), LONG);
    assert_eq!(key(A).clone(), key(A));
}

#[test]
fn no_keys_are_refused() {
    let e = Key::from_str("02").unwrap_err();
    assert_eq!(e.origin, ErrorOrigin::Key);
    assert!(Key::from_str("").is_err());
    assert!(Key::from_str(&A.replace("02", "07")).is_err());
}

#[test]
fn policies_are_read() {
    let p = Policy::from_str(&format!("or(pk({}),9@pk({}))", A, B)).unwrap();
    assert_eq!(p.as_str(), format!("or(1@pk({}),9@pk({}))", A, B));
    assert!(p.is_compilable());
    let again = Policy::from_str(p.as_str()).unwrap();
    assert_eq!(again, p);
    assert_eq!(p.clone(), p);
    let none = Policy::from_str(&format!("or(0@pk({}),0@pk({}))", A, B)).unwrap();
    assert!(!none.is_compilable());
    assert!(none.try_compile::<BareCtx>().is_none());
    assert!(CompiledMiniscript::try_with(&none, OuterCategory::Taproot).is_none());
    let e = Policy::from_str("wpkh(1)").unwrap_err();
    assert_eq!(e.origin, ErrorOrigin::Policy);
}

#[test]
fn policies_are_compiled() {
    let p = Policy::from_str(&format!("pk({})", A)).unwrap();
    assert_eq!(p.compile::<BareCtx>().unwrap().as_str(), format!("pk({})", A));
    assert_eq!(p.compile::<Legacy>().unwrap().as_str(), format!("pk({})", A));
    assert_eq!(p.compile::<Segwitv0>().unwrap().as_str(), format!("pk({})", A));
    let p = Policy::from_str(&format!("and(pk({}),pk({}))", A, B)).unwrap();
    let ms = p.compile::<Segwitv0>().unwrap();
    assert_eq!(ms.as_str(), format!("and_v(v:pk({}),pk({}))", A, B));
    let p = Policy::from_str("older(1000)").unwrap();
    assert_eq!(p.compile::<Segwitv0>().unwrap_err().origin, ErrorOrigin::Compiler);
    let p = Policy::from_str(&format!("or(0@pk({}),1@and(UNSATISFIABLE,UNSATISFIABLE))", A));
    assert_eq!(p.unwrap().compile::<BareCtx>().unwrap_err().origin, ErrorOrigin::Compiler);
    let p = Policy::from_str(&format!("or(0@pk({}),1@pk({}))", A, B)).unwrap();
    assert!(p.compile::<Segwitv0>().is_ok());
    let p = Policy::from_str(&format!("and(pk({}),pk({}))", A, A)).unwrap();
    assert_eq!(p.compile::<Legacy>().unwrap_err().origin, ErrorOrigin::Compiler);
}

#[test]
fn an_uncompressed_key_is_hashed_in_witness_scripts() {
    let p = Policy::from_str(&format!("pk({})", LONG)).unwrap();
    let hash = "91b24bf9f5288532960ac687abb035127b1d28a5";
    assert_eq!(p.compile::<Legacy>().unwrap().as_str(), format!("pk({})", LONG));
    assert_eq!(p.compile::<Segwitv0>().unwrap().as_str(), format!("pkh({})", hash));
    let d = script(OuterCategory::SegWit, &format!("pk({})", LONG));
    assert_eq!(hex(&d.explicit_script()), format!("76a914{}88ac", hash));
}

#[test]
fn threshold_policies() {
    assert_eq!(
        threshold_policy_text(2, &keys(&[A, B, C])),
        format!("thresh(2,pk({}),pk({}),pk({}))", A, B, C)
    );
    assert_eq!(threshold_policy_text(10, &keys(&[])), "thresh(10)");
}

#[test]
fn multisig_miniscripts() {
    let list = keys(&[C, A, B]);
    let expected = format!("multi(2,{},{},{})", C, A, B);
    assert_eq!(multisig_miniscript::<BareCtx>(2, &list).unwrap().as_str(), expected);
    assert_eq!(multisig_miniscript::<Legacy>(2, &list).unwrap().as_str(), expected);
    assert_eq!(multisig_miniscript::<Segwitv0>(2, &list).unwrap().as_str(), expected);
    assert!(multisig_miniscript::<BareCtx>(0, &keys(&[A])).is_err());
    assert!(multisig_miniscript::<BareCtx>(3, &keys(&[A, B])).is_err());
    assert!(multisig_miniscript::<BareCtx>(2, &keys(&[A, A])).is_err());
    assert!(multisig_miniscript::<BareCtx>(1, &keys(&[])).is_err());
}

#[test]
fn single_key_texts() {
    let bare = single(OuterCategory::Bare, A);
    assert_eq!(text(&bare, false), format!("pk({})#gn28ywm7", A));
    assert_eq!(text(&bare, true), format!("pk({})#gn28ywm7", A));
    let hashed = single(OuterCategory::Hashed, A);
    assert_eq!(text(&hashed, false), format!("pkh({})#e48zzw02", A));
    assert_eq!(text(&hashed, true), format!("pkh({})#e48zzw02", A));
    let segwit = single(OuterCategory::SegWit, A);
    assert_eq!(text(&segwit, false), format!("wpkh({})#ucxz0gak", A));
    assert_eq!(text(&segwit, true), format!("sh(wpkh({}))#jqtwwlah", A));
}

#[test]
fn unsorted_multisig_texts() {
    let list = format!("{},{},{}", C, A, B);
    let bare = multi(OuterCategory::Bare, 2, &[C, A, B], false);
    assert_eq!(text(&bare, false), format!("multi(2,{})#hmyjlche", list));
    let hashed = multi(OuterCategory::Hashed, 2, &[C, A, B], false);
    assert_eq!(text(&hashed, false), format!("sh(multi(2,{}))#fa9xsf5f", list));
    assert_eq!(text(&hashed, true), text(&hashed, false));
    let segwit = multi(OuterCategory::SegWit, 2, &[C, A, B], false);
    assert_eq!(text(&segwit, false), format!("wsh(multi(2,{}))#h2qhwaws", list));
    assert_eq!(text(&segwit, true), format!("sh(wsh(multi(2,{})))#6r0zrmsm", list));
}

#[test]
fn sorted_multisig_texts() {
    let list = format!("{},{},{}", C, A, B);
    let hashed = multi(OuterCategory::Hashed, 2, &[C, A, B], true);
    assert_eq!(text(&hashed, false), format!("sh(sortedmulti(2,{}))#ks43hvg8", list));
    let segwit = multi(OuterCategory::SegWit, 2, &[C, A, B], true);
    assert_eq!(text(&segwit, false), format!("wsh(sortedmulti(2,{}))#daxwzwy2", list));
    assert_eq!(text(&segwit, true), format!("sh(wsh(sortedmulti(2,{})))#2udw8a06", list));
}

#[test]
fn bare_multisigs_are_not_sorted() {
    let sorted = multi(OuterCategory::Bare, 2, &[C, A, B], true);
    let unsorted = multi(OuterCategory::Bare, 2, &[C, A, B], false);
    assert_eq!(text(&sorted, false), text(&unsorted, false));
    assert_eq!(sorted.try_script_pubkey(), unsorted.try_script_pubkey());
}

#[test]
fn taproot_contracts_have_no_descriptor() {
    for nested in [false, true] {
        assert!(single(OuterCategory::Taproot, A).checked_descriptor(nested).is_none());
        assert!(multi(OuterCategory::Taproot, 1, &[A], true).checked_descriptor(nested).is_none());
        let d = script(OuterCategory::Taproot, &format!("pk({})", A));
        assert!(d.checked_descriptor(nested).is_none());
        assert_eq!(d.outer_descriptor_type(), OuterType::Tr);
    }
    assert!(single(OuterCategory::Taproot, A).try_to_text(false).is_none());
    assert!(single(OuterCategory::Taproot, A).try_script_pubkey().is_none());
}

#[test]
fn witness_keys_have_to_be_compressed() {
    assert!(single(OuterCategory::SegWit, LONG).checked_descriptor(false).is_none());
    assert!(single(OuterCategory::SegWit, LONG).checked_descriptor(true).is_none());
    assert!(single(OuterCategory::Hashed, LONG).checked_descriptor(false).is_some());
    assert!(single(OuterCategory::Bare, LONG).checked_descriptor(false).is_some());
}

#[test]
fn wrong_thresholds_have_no_descriptor() {
    for category in [OuterCategory::Bare, OuterCategory::Hashed, OuterCategory::SegWit] {
        for sorted in [false, true] {
            assert!(multi(category, 0, &[A, B], sorted).checked_descriptor(false).is_none());
            assert!(multi(category, 3, &[A, B], sorted).checked_descriptor(false).is_none());
        }
    }
    let four = multi(OuterCategory::Bare, 2, &[A, B, C, D], false);
    assert!(four.checked_descriptor(false).is_none());
    let four = multi(OuterCategory::Hashed, 2, &[A, B, C, D], false);
    assert!(four.checked_descriptor(false).is_some());
}

#[test]
fn limits_of_sorted_multisigs() {
    let made = |category, threshold, count| {
        let d = multi(category, threshold, &vec![A; count], true);
        let made = d.checked_descriptor(false).is_some();
        assert_eq!(made, d.checked_descriptor(true).is_some());
        assert_eq!(made, d.try_script_pubkey().is_some());
        made
    };
    assert!(made(OuterCategory::Hashed, 15, 15));
    assert!(!made(OuterCategory::Hashed, 1, 16));
    assert!(made(OuterCategory::SegWit, 1, 16));
    assert!(made(OuterCategory::SegWit, 98, 105));
    assert!(!made(OuterCategory::SegWit, 99, 105));
    assert!(!made(OuterCategory::SegWit, 1, 106));
    assert!(!made(OuterCategory::SegWit, 0, 2));
    assert!(!made(OuterCategory::Hashed, 3, 2));
}

#[test]
fn limits_of_miniscripts() {
    let text = |count: usize| format!("multi(1,{})", vec![A; count].join(","));
    let bare = |count| CompiledMiniscript::Bare(miniscript(&text(count)));
    assert!(bare(3).checked_descriptor().is_some());
    assert!(bare(4).checked_descriptor().is_none());
    assert!(Miniscript::<Legacy>::from_str(&text(15)).is_ok());
    assert!(Miniscript::<Legacy>::from_str(&text(16)).is_err());
    assert!(Miniscript::<Segwitv0>::from_str(&text(105)).is_ok());
    assert!(Miniscript::<Segwitv0>::from_str(&text(106)).is_err());
    let hashed = CompiledMiniscript::Hashed(miniscript(&text(15)));
    assert!(hashed.checked_descriptor().is_some());
    let segwit = CompiledMiniscript::SegWit(miniscript(&text(105)));
    assert!(segwit.checked_descriptor().is_some());
}

#[test]
fn miniscripts_are_read() {
    let ms: Miniscript<Segwitv0> = miniscript(&format!("c:pk_k({})", A));
    assert_eq!(ms.as_str(), format!("pk({})", A));
    assert_eq!(ms, miniscript(ms.as_str()));
    assert_eq!(ms.clone(), ms);
    let long = format!("pk({})", LONG);
    assert!(Miniscript::<BareCtx>::from_str(&long).is_ok());
    assert!(Miniscript::<Legacy>::from_str(&long).is_ok());
    let e = Miniscript::<Segwitv0>::from_str(&long).unwrap_err();
    assert_eq!(e.origin, ErrorOrigin::Miniscript);
    assert!(Miniscript::<Legacy>::from_str(&format!("pk_k({})", A)).is_err());
}

#[test]
fn deep_scripts_are_described() {
    let mut text = format!("pk({})", A);
    for _ in 0..60 {
        text = format!("and_v(v:1,{})", text);
    }
    let policy = Policy::from_str(&format!("pk({})", A)).unwrap();
    let ms_cache = CompiledMiniscript::SegWit(miniscript(&text));
    let d = ContractDescriptor::Script { ms_cache, policy };
    assert_eq!(d.to_descriptor(false).script(), text);
    assert_eq!(d.script_pubkey(), p2wsh_script(&d.explicit_script()));
}

#[test]
fn descriptors_are_made() {
    let d = single(OuterCategory::Hashed, A).to_descriptor(true);
    assert_eq!(d.desc_type(), DescriptorType::Pkh);
    assert_eq!(d.as_str(), format!("pkh({})#e48zzw02", A));
    let d = script(OuterCategory::SegWit, &format!("pk({})", A)).to_descriptor(true);
    assert_eq!(d.as_str(), format!("wsh(pk({}))#fdpqq2al", A));
    let d = script(OuterCategory::Hashed, &format!("pk({})", A)).to_descriptor(false);
    assert_eq!(d.as_str(), format!("sh(pk({}))#erfsk4r6", A));
    let d = script(OuterCategory::Bare, &format!("pk({})", A)).to_descriptor(false);
    assert_eq!(d.as_str(), format!("pk({})#gn28ywm7", A));
}

#[test]
fn texts_of_keys_read_back() {
    let list = [
        single(OuterCategory::Hashed, A),
        single(OuterCategory::Hashed, LONG),
        single(OuterCategory::SegWit, A),
        multi(OuterCategory::Bare, 2, &[C, A, B], false),
        multi(OuterCategory::Hashed, 2, &[C, A, B], false),
        multi(OuterCategory::Hashed, 2, &[C, A, B], true),
        multi(OuterCategory::SegWit, 2, &[C, A, B, D], false),
        multi(OuterCategory::SegWit, 3, &[C, A, B, D], true),
    ];
    for d in &list {
        assert_eq!(ContractDescriptor::from_str(&d.to_text(false)).as_ref(), Ok(d));
    }
}

#[test]
fn texts_without_checksum_are_read() {
    let read = |s: String| ContractDescriptor::from_str(&s).unwrap();
    assert_eq!(read(format!("pkh({})", A)), single(OuterCategory::Hashed, A));
    assert_eq!(read(format!("wpkh({})", A)), single(OuterCategory::SegWit, A));
    assert_eq!(read(format!("multi(1,{})", B)), multi(OuterCategory::Bare, 1, &[B], false));
    assert_eq!(
        read(format!("wsh(multi(1,{},{}))", B, A)),
        multi(OuterCategory::SegWit, 1, &[B, A], false)
    );
    assert_eq!(
        read(format!("wsh(sortedmulti(1,{},{}))", B, A)),
        multi(OuterCategory::SegWit, 1, &[B, A], true)
    );
    assert_eq!(
        read(format!("sh(multi(1,{},{}))", B, A)),
        multi(OuterCategory::Hashed, 1, &[B, A], false)
    );
    assert_eq!(
        read(format!("sh(sortedmulti(1,{},{}))", B, A)),
        multi(OuterCategory::Hashed, 1, &[B, A], true)
    );
}

#[test]
fn scripts_are_read_by_their_policy() {
    let d = ContractDescriptor::from_str(&format!("wsh(pk({}))", A)).unwrap();
    assert_eq!(d, script(OuterCategory::SegWit, &format!("pk({})", A)));
    assert_eq!(text(&d, false), format!("pk({})", A));
    assert_eq!(d.outer_descriptor_type(), OuterType::Wsh);
    let d = ContractDescriptor::from_str(&format!("sh(pk({}))", A)).unwrap();
    assert_eq!(d, script(OuterCategory::Hashed, &format!("pk({})", A)));
    assert_eq!(d.outer_descriptor_type(), OuterType::Sh);
}

#[test]
fn scripts_that_are_no_policy_are_refused() {
    let e = ContractDescriptor::from_str(&format!("wsh(and_v(v:pk({}),pk({})))", A, B));
    assert_eq!(e.unwrap_err().origin, ErrorOrigin::Policy);
    let e = ContractDescriptor::from_str(&format!("pk({})", A));
    assert_eq!(e.unwrap_err().origin, ErrorOrigin::Policy);
    let e = ContractDescriptor::from_str(&format!("wsh(pk({}))#fdpqq2al", A));
    assert_eq!(e.unwrap_err().origin, ErrorOrigin::Policy);
}

#[test]
fn nesting_is_forgotten() {
    let d = ContractDescriptor::from_str(&format!("sh(wpkh({}))", A)).unwrap();
    assert_eq!(d, single(OuterCategory::SegWit, A));
    let d = ContractDescriptor::from_str(&format!("sh(wsh(multi(2,{},{})))", C, A)).unwrap();
    assert_eq!(d, multi(OuterCategory::SegWit, 2, &[C, A], false));
    let d = ContractDescriptor::from_str(&format!("sh(wsh(sortedmulti(2,{},{})))", C, A)).unwrap();
    assert_eq!(d, multi(OuterCategory::SegWit, 2, &[C, A], true));
    let d = ContractDescriptor::from_str(&format!("sh(wsh(pk({})))", A)).unwrap();
    assert_eq!(d, script(OuterCategory::SegWit, &format!("pk({})", A)));
}

#[test]
fn nested_texts_with_checksum_are_refused() {
    let e = ContractDescriptor::from_str(&text(&single(OuterCategory::SegWit, A), true));
    assert_eq!(e.unwrap_err().origin, ErrorOrigin::Descriptor);
}

#[test]
fn no_descriptors_are_refused() {
    for s in ["", "pkh", "pkh()", "tr(1)", "\u{e4}", "sh(sh(1))", "wpkh(00)"] {
        let e = ContractDescriptor::from_str(s).unwrap_err();
        assert_eq!(e.origin, ErrorOrigin::Descriptor);
    }
    let e = ContractDescriptor::from_str(&format!("pkh({})#aaaaaaaa", A)).unwrap_err();
    assert_eq!(e.origin, ErrorOrigin::Descriptor);
    let e = ContractDescriptor::from_str(&format!("wpkh({})", LONG)).unwrap_err();
    assert_eq!(e.origin, ErrorOrigin::Descriptor);
}

#[test]
fn descriptors_are_taken_apart() {
    let parse = |s: String| ParsedDescriptor::from_str(&s);
    assert_eq!(parse(format!("pkh({})", A)), Ok(ParsedDescriptor::Pkh(key(A))));
    assert_eq!(parse(format!("wpkh({})", B)), Ok(ParsedDescriptor::Wpkh(key(B))));
    assert_eq!(parse(format!("pk({})", A)), Ok(ParsedDescriptor::Bare(Terminal::Other)));
    assert_eq!(
        parse(format!("multi(1,{},{})", A, B)),
        Ok(ParsedDescriptor::Bare(Terminal::Multi(1, keys(&[A, B]))))
    );
    assert_eq!(
        parse(format!("wsh(multi(1,{},{}))", A, B)),
        Ok(ParsedDescriptor::Wsh(WshInner::Ms(Terminal::Multi(1, keys(&[A, B])))))
    );
    assert_eq!(
        parse(format!("wsh(sortedmulti(2,{},{}))", B, A)),
        Ok(ParsedDescriptor::Wsh(WshInner::SortedMulti(2, keys(&[B, A]))))
    );
    assert_eq!(
        parse(format!("sh(sortedmulti(2,{},{}))", B, A)),
        Ok(ParsedDescriptor::Sh(ShInner::SortedMulti(2, keys(&[B, A]))))
    );
    assert_eq!(
        parse(format!("sh(multi(2,{},{}))", B, A)),
        Ok(ParsedDescriptor::Sh(ShInner::Ms(Terminal::Multi(2, keys(&[B, A])))))
    );
    assert_eq!(parse(format!("sh(wpkh({}))", A)), Ok(ParsedDescriptor::Sh(ShInner::Wpkh)));
    assert_eq!(parse(format!("sh(wsh(pk({})))", A)), Ok(ParsedDescriptor::Sh(ShInner::Wsh)));
    assert!(parse("pkh".to_string()).is_err());
}

#[test]
fn contracts_are_found_in_parsed_descriptors() {
    let d = ContractDescriptor::from_parsed(ParsedDescriptor::Wpkh(key(B)), "").unwrap();
    assert_eq!(d, single(OuterCategory::SegWit, B));
    let s = format!("wsh(or(pk({}),pk({})))", A, B);
    let parsed = ParsedDescriptor::Wsh(WshInner::Ms(Terminal::Other));
    let d = ContractDescriptor::from_parsed(parsed, &s).unwrap();
    assert_eq!(d, script(OuterCategory::SegWit, &format!("or(pk({}),pk({}))", A, B)));
    let parsed = ParsedDescriptor::Bare(Terminal::PkK(key(A)));
    let d = ContractDescriptor::from_parsed(parsed, &s).unwrap();
    assert_eq!(d, single(OuterCategory::Bare, A));
    let parsed = ParsedDescriptor::Bare(Terminal::Other);
    let d = ContractDescriptor::from_parsed(parsed, &format!("bare(pk({}))", A)).unwrap();
    assert_eq!(d, script(OuterCategory::Bare, &format!("pk({})", A)));
}

#[test]
fn contracts_are_found_behind_scripts() {
    let d = ContractDescriptor::with(Terminal::PkK(key(A)), OuterCategory::Taproot, "no policy");
    assert_eq!(d.unwrap(), single(OuterCategory::Taproot, A));
    let node = Terminal::Multi(1, keys(&[B, A]));
    let d = ContractDescriptor::with(node, OuterCategory::Hashed, "no policy").unwrap();
    assert_eq!(d, multi(OuterCategory::Hashed, 1, &[B, A], false));
    let source = format!("and(pk({}),older(16))", A);
    let d = ContractDescriptor::with(Terminal::Other, OuterCategory::Taproot, &source).unwrap();
    assert_eq!(d, script(OuterCategory::Taproot, &source));
    let e = ContractDescriptor::with(Terminal::Other, OuterCategory::Bare, "no policy");
    assert_eq!(e.unwrap_err().origin, ErrorOrigin::Policy);
    let e = ContractDescriptor::with(Terminal::Other, OuterCategory::Bare, "older(16)");
    assert_eq!(e.unwrap_err().origin, ErrorOrigin::Compiler);
}

#[test]
fn compiled_miniscripts() {
    let text = format!("pk({})", A);
    let p = Policy::from_str(&text).unwrap();
    let list = [
        (OuterCategory::Bare, CompiledMiniscript::Bare(miniscript(&text)), OuterType::Bare),
        (OuterCategory::Hashed, CompiledMiniscript::Hashed(miniscript(&text)), OuterType::Sh),
        (OuterCategory::SegWit, CompiledMiniscript::SegWit(miniscript(&text)), OuterType::Wsh),
        (OuterCategory::Taproot, CompiledMiniscript::Taproot(miniscript(&text)), OuterType::Tr),
    ];
    for (category, expected, outer) in list {
        let c = CompiledMiniscript::with(&p, category).unwrap();
        assert_eq!(c, expected);
        assert_eq!(CompiledMiniscript::try_with(&p, category).unwrap().unwrap(), expected);
        assert_eq!(c.outer_descriptor_type(), outer);
        assert_eq!(c.to_text(), text);
        assert_eq!(c.checked_descriptor().is_some(), category != OuterCategory::Taproot);
        assert_eq!(c.clone(), c);
    }
    let c = CompiledMiniscript::SegWit(miniscript(&text));
    assert_eq!(c.to_descriptor().as_str(), format!("wsh(pk({}))#fdpqq2al", A));
}

#[test]
fn policies_without_odds_are_refused_before_they_are_weighed() {
    let repeated = format!("or(0@pk({}),0@pk({}))", A, A);
    let unsafe_ = format!("or(0@pk({}),0@older(16))", A);
    for text in [repeated, unsafe_] {
        let p = Policy::from_str(&text).unwrap();
        assert!(p.is_compilable());
        let segwit = CompiledMiniscript::with(&p, OuterCategory::SegWit).unwrap_err();
        assert_eq!(segwit.origin, ErrorOrigin::Compiler);
        assert_eq!(CompiledMiniscript::with(&p, OuterCategory::Taproot).unwrap_err(), segwit);
        let e = ContractDescriptor::with(Terminal::Other, OuterCategory::SegWit, &text);
        assert_eq!(e.unwrap_err(), segwit);
    }
    let e = ContractDescriptor::with(Terminal::Other, OuterCategory::Bare, "or(0@x,0@y");
    assert_eq!(e.unwrap_err().origin, ErrorOrigin::Policy);
}

#[test]
fn policies_that_nothing_satisfies_are_refused() {
    let limits = "At least one spending path has exceeded the standardness or consensus limits";
    for source in [
        format!("or(0@UNSATISFIABLE,0@pk({}))", A),
        format!("or(1@UNSATISFIABLE,1@pk({}))", A),
        format!("and(UNSATISFIABLE,or(0@pk({}),0@pk({})))", A, B),
        format!("thresh(2,UNSATISFIABLE,or(0@pk({}),0@pk({})))", A, B),
        format!("or(0@pk({}),0@and(UNSATISFIABLE,pk({})))", A, B),
        format!("or(0@or(0@UNSATISFIABLE,3@pk({})),0@pk({}))", A, B),
    ] {
        let p = Policy::from_str(&source).unwrap();
        assert!(p.is_compilable(), "{}", source);
        for category in [
            OuterCategory::Bare,
            OuterCategory::Hashed,
            OuterCategory::SegWit,
            OuterCategory::Taproot,
        ] {
            let e = CompiledMiniscript::with(&p, category).unwrap_err();
            assert_eq!((e.origin, e.message.as_str()), (ErrorOrigin::Compiler, limits));
            let d = ContractDescriptor::with(Terminal::Other, category, &source);
            assert_eq!(d.unwrap_err(), e);
            let d = ContractDescriptor::try_with(Terminal::Other, category, &source);
            assert_eq!(d.unwrap().unwrap_err(), e);
        }
    }
}

#[test]
fn contracts_are_tried_behind_scripts() {
    let category = OuterCategory::SegWit;
    let stuck = format!("or(0@pk({}),0@pk({}))", A, B);
    assert!(!Policy::from_str(&stuck).unwrap().is_compilable());
    assert!(ContractDescriptor::try_with(Terminal::Other, category, &stuck).is_none());
    let d = ContractDescriptor::try_with(Terminal::PkK(key(A)), category, &stuck);
    assert_eq!(d.unwrap().unwrap(), single(category, A));
    let d = ContractDescriptor::try_with(Terminal::Multi(1, keys(&[B, A])), category, &stuck);
    assert_eq!(d.unwrap().unwrap(), multi(category, 1, &[B, A], false));
    let source = format!("or(1@pk({}),0@pk({}))", A, B);
    let d = ContractDescriptor::try_with(Terminal::Other, category, &source);
    assert_eq!(d.unwrap().unwrap(), script(category, &source));
    let e = ContractDescriptor::try_with(Terminal::Other, category, "no policy");
    assert_eq!(e.unwrap().unwrap_err().origin, ErrorOrigin::Policy);
}

#[test]
fn the_form_of_a_text_tells_the_contract() {
    let sorted = format!("sortedmulti(2,{},{})", A, B);
    for (text, expected) in [
        (format!("pkh({})", A), single(OuterCategory::Hashed, A)),
        (format!("wpkh({})", A), single(OuterCategory::SegWit, A)),
        (format!("sh({})", sorted), multi(OuterCategory::Hashed, 2, &[A, B], true)),
        (format!("wsh({})", sorted), multi(OuterCategory::SegWit, 2, &[A, B], true)),
    ] {
        let d = ContractDescriptor::from_str(&text).unwrap();
        assert_eq!(d, expected);
        assert_eq!(d.to_descriptor(false).as_str().split('#').next(), Some(text.as_str()));
    }
    for text in [
        format!("wpkh({})", A),
        format!("wsh({})", sorted),
        format!("wsh(multi(1,{},{}))", A, B),
        format!("wsh(pk({}))", A),
        format!("wsh(and_v(v:pk({}),pk({})))", A, B),
    ] {
        let nested = format!("sh({})", text);
        assert_eq!(ContractDescriptor::from_str(&nested), ContractDescriptor::from_str(&text));
    }
    let nested = format!("sh(wsh({}))", sorted);
    let d = ContractDescriptor::from_str(&nested).unwrap();
    assert_eq!(d.to_descriptor(true).as_str().split('#').next(), Some(nested.as_str()));
    let kinds = |s: &str| match ParsedDescriptor::from_str(s) {
        Ok(ParsedDescriptor::Bare(_)) => 'b',
        Ok(ParsedDescriptor::Pkh(_)) => 'p',
        Ok(ParsedDescriptor::Wpkh(_)) => 'q',
        Ok(ParsedDescriptor::Sh(ShInner::Wsh)) => 'n',
        Ok(ParsedDescriptor::Sh(ShInner::Wpkh)) => 'm',
        Ok(ParsedDescriptor::Sh(ShInner::SortedMulti(..))) => 's',
        Ok(ParsedDescriptor::Sh(ShInner::Ms(_))) => 'h',
        Ok(ParsedDescriptor::Wsh(WshInner::SortedMulti(..))) => 't',
        Ok(ParsedDescriptor::Wsh(WshInner::Ms(_))) => 'w',
        Err(_) => 'e',
    };
    let told: String = [
        format!("pk({})", A),
        format!("pkh({})", A),
        format!("wpkh({})", A),
        format!("sh(wsh(pk({})))", A),
        format!("sh(wpkh({}))", A),
        format!("sh({})", sorted),
        format!("sh(pk({}))", A),
        format!("wsh({})", sorted),
        format!("wsh(pk({}))", A),
        format!("wsh(wpkh({}))", A),
        format!("pkh({},{})", A, B),
        "sh(sortedmulti)".to_owned(),
    ]
    .iter()
    .map(|s| kinds(s))
    .collect();
    assert_eq!(told, "bpqnmshtweee");
}

#[test]
fn bare_scripts_have_to_be_standard() {
    let two = format!("and_v(v:pk({}),pk({}))", A, B);
    assert!(CompiledMiniscript::Bare(miniscript(&two)).checked_descriptor().is_none());
    assert!(CompiledMiniscript::Hashed(miniscript(&two)).checked_descriptor().is_some());
}

#[test]
fn bare_key_hashes_are_described() {
    let hash = "751e76e8199196d454941c45d1b3a323f1433bd6";
    let ms = miniscript(&format!("c:pk_h({})", hash));
    let policy = Policy::from_str(&format!("pk({})", A)).unwrap();
    let d = ContractDescriptor::Script { ms_cache: CompiledMiniscript::Bare(ms), policy };
    assert!(d.to_descriptor(false).as_str().starts_with(&format!("pkh({})#", hash)));
    assert_eq!(hex(&d.script_pubkey()), format!("76a914{}88ac", hash));
    assert!(d.address(Network::Bitcoin).is_err());
}

#[test]
fn descriptor_types() {
    let types = |d: ContractDescriptor| {
        (d.to_descriptor(false).desc_type(), d.to_descriptor(true).desc_type())
    };
    assert_eq!(
        types(single(OuterCategory::Bare, A)),
        (DescriptorType::Pk, DescriptorType::Pk)
    );
    assert_eq!(
        types(single(OuterCategory::SegWit, A)),
        (DescriptorType::Wpkh, DescriptorType::ShWpkh)
    );
    assert_eq!(
        types(multi(OuterCategory::Hashed, 2, &[A, B], false)),
        (DescriptorType::Sh, DescriptorType::Sh)
    );
    assert_eq!(
        types(multi(OuterCategory::Hashed, 2, &[A, B], true)),
        (DescriptorType::ShSortedMulti, DescriptorType::ShSortedMulti)
    );
    assert_eq!(
        types(multi(OuterCategory::SegWit, 2, &[A, B], false)),
        (DescriptorType::Wsh, DescriptorType::ShWsh)
    );
    assert_eq!(
        types(multi(OuterCategory::SegWit, 2, &[A, B], true)),
        (DescriptorType::WshSortedMulti, DescriptorType::ShWshSortedMulti)
    );
    assert_eq!(
        types(script(OuterCategory::SegWit, &format!("pk({})", A))),
        (DescriptorType::Wsh, DescriptorType::Wsh)
    );
}

#[test]
fn outer_types() {
    assert_eq!(single(OuterCategory::Bare, A).outer_descriptor_type(), OuterType::Pk);
    assert_eq!(single(OuterCategory::Hashed, A).outer_descriptor_type(), OuterType::Pkh);
    assert_eq!(single(OuterCategory::SegWit, A).outer_descriptor_type(), OuterType::Wpkh);
    assert_eq!(multi(OuterCategory::Bare, 1, &[A], true).outer_descriptor_type(), OuterType::Bare);
    assert_eq!(multi(OuterCategory::Hashed, 1, &[A], true).outer_descriptor_type(), OuterType::Sh);
    assert_eq!(multi(OuterCategory::SegWit, 1, &[A], true).outer_descriptor_type(), OuterType::Wsh);
}

#[test]
fn single_key_scripts() {
    let hash = "751e76e8199196d454941c45d1b3a323f1433bd6";
    let d = single(OuterCategory::Bare, A);
    assert_eq!(hex(&d.script_pubkey()), format!("21{}ac", A));
    assert_eq!(d.explicit_script(), d.script_pubkey());
    assert_eq!(d.script_code(), d.script_pubkey());
    let d = single(OuterCategory::Hashed, A);
    assert_eq!(hex(&d.script_pubkey()), format!("76a914{}88ac", hash));
    assert_eq!(d.explicit_script(), d.script_pubkey());
    assert_eq!(d.script_code(), d.script_pubkey());
    let d = single(OuterCategory::SegWit, A);
    assert_eq!(hex(&d.script_pubkey()), format!("0014{}", hash));
    assert_eq!(d.explicit_script(), d.script_pubkey());
    assert_eq!(hex(&d.script_code()), format!("76a914{}88ac", hash));
}

#[test]
fn multisig_scripts() {
    let given = format!("5221{}21{}21{}53ae", C, A, B);
    let ordered = format!("5221{}21{}21{}53ae", A, B, C);
    let d = multi(OuterCategory::Bare, 2, &[C, A, B], true);
    assert_eq!(hex(&d.script_pubkey()), given);
    for category in [OuterCategory::Hashed, OuterCategory::SegWit] {
        let d = multi(category, 2, &[C, A, B], false);
        assert_eq!(hex(&d.explicit_script()), given);
        assert_eq!(d.script_code(), d.explicit_script());
        let d = multi(category, 2, &[C, A, B], true);
        assert_eq!(hex(&d.explicit_script()), ordered);
        assert_eq!(d.script_code(), d.explicit_script());
        assert_ne!(d.script_pubkey(), d.explicit_script());
    }
}

#[test]
fn unsigned_inputs_are_empty() {
    for category in [OuterCategory::Bare, OuterCategory::Hashed, OuterCategory::SegWit] {
        assert_eq!(single(category, A).try_unsigned_script_sig(), Some(vec![]));
        assert_eq!(multi(category, 1, &[A, B], true).unsigned_script_sig(), Vec::<u8>::new());
    }
}

#[test]
fn addresses() {
    let d = single(OuterCategory::Hashed, A);
    assert_eq!(d.address(Network::Bitcoin).unwrap().text, "1BgGZ9tcN4rm9KBzDn7KprQz87SZ26SAMH");
    let d = single(OuterCategory::Hashed, LONG);
    assert_eq!(d.address(Network::Bitcoin).unwrap().text, "1EHNa6Q4Jz2uvNExL497mE43ikXhwF6kZm");
    let d = single(OuterCategory::SegWit, A);
    assert_eq!(d.address(Network::Bitcoin).unwrap().text, "bc1qw508d6qejxtdg4y5r3zarvary0c5xw7kv8f3t4");
    assert_eq!(d.address(Network::Testnet).unwrap().text, "tb1qw508d6qejxtdg4y5r3zarvary0c5xw7kxpjzsx");
    assert_eq!(d.address(Network::Signet).unwrap().text, "tb1qw508d6qejxtdg4y5r3zarvary0c5xw7kxpjzsx");
    assert!(d.address(Network::Regtest).unwrap().text.starts_with("bcrt1q"));
    let e = single(OuterCategory::Bare, A).address(Network::Bitcoin).unwrap_err();
    assert_eq!(e.origin, ErrorOrigin::Analysis);
    let bare = multi(OuterCategory::Bare, 1, &[A, B], false);
    assert!(bare.try_address(Network::Bitcoin).unwrap().is_err());
    assert!(multi(OuterCategory::Hashed, 1, &[A], true).address(Network::Bitcoin).is_ok());
}

#[test]
fn addresses_pay_to_the_output_script() {
    let list = [
        single(OuterCategory::Hashed, A),
        single(OuterCategory::SegWit, A),
        multi(OuterCategory::Hashed, 2, &[C, A, B], false),
        multi(OuterCategory::SegWit, 2, &[C, A, B], true),
        script(OuterCategory::SegWit, &format!("pk({})", A)),
    ];
    for d in &list {
        assert_eq!(d.address(Network::Testnet).unwrap().script_pubkey, d.script_pubkey());
        assert_eq!(d.try_address(Network::Testnet).unwrap(), d.address(Network::Testnet));
    }
}

#[test]
fn outputs_commit_to_their_script() {
    for sorted in [false, true] {
        let d = multi(OuterCategory::Hashed, 2, &[C, A, B], sorted);
        assert_eq!(d.script_pubkey(), p2sh_script(&d.explicit_script()));
        let d = multi(OuterCategory::SegWit, 2, &[C, A, B], sorted);
        assert_eq!(d.script_pubkey(), p2wsh_script(&d.explicit_script()));
    }
    let d = script(OuterCategory::Hashed, &format!("pk({})", A));
    assert_eq!(d.script_pubkey(), p2sh_script(&d.explicit_script()));
    assert_eq!(
        hex(&p2sh_script(&vec![])),
        "a914b472a266d0bd89c13706a4132ccfb16f7c3b9fcb87"
    );
    assert_eq!(
        hex(&p2wsh_script(&vec![])),
        "0020e3b0c44298fc1c149afbf4c8996fb92427ae41e4649b934ca495991b7852b855"
    );
}

#[test]
fn sorted_multisigs_do_not_depend_on_the_order() {
    for category in [OuterCategory::Hashed, OuterCategory::SegWit] {
        let a = multi(category, 2, &[C, A, B], true);
        let b = multi(category, 2, &[B, C, A], true);
        assert_ne!(text(&a, false), text(&b, false));
        assert_eq!(a.script_pubkey(), b.script_pubkey());
        let a = multi(category, 2, &[C, A, B], false);
        let b = multi(category, 2, &[B, C, A], false);
        assert_ne!(a.script_pubkey(), b.script_pubkey());
    }
}

#[test]
fn brackets_behind_a_sorted_threshold_are_passed_over() {
    let read = |s: String| ContractDescriptor::from_str(&s).unwrap();
    let segwit = multi(OuterCategory::SegWit, 1, &[A], true);
    assert_eq!(read(format!("wsh(sortedmulti(1(@),{}))", A)), segwit);
    assert_eq!(read(format!("sh(wsh(sortedmulti(1(@),{})))", A)), segwit);
    let hashed = multi(OuterCategory::Hashed, 1, &[A], true);
    assert_eq!(read(format!("sh(sortedmulti(1(@),{}))", A)), hashed);
    assert_eq!(
        ParsedDescriptor::from_str(&format!("wsh(sortedmulti(1(@),{}))", A)),
        Ok(ParsedDescriptor::Wsh(WshInner::SortedMulti(1, keys(&[A]))))
    );
    assert!(ContractDescriptor::from_str(&format!("wsh(multi(1(@),{}))", A)).is_err());
}

#[test]
fn describing_what_was_read_gives_it_back() {
    let upper = A.to_uppercase();
    let list = [
        (format!("pkh({})", upper), false, format!("pkh({})#e48zzw02", A)),
        (format!("wpkh({})", A), false, format!("wpkh({})#ucxz0gak", A)),
        (format!("sh(wpkh({}))", A), true, format!("sh(wpkh({}))#jqtwwlah", A)),
        (
            format!("sh(sortedmulti(2,{},{},{}))", C, A, B),
            false,
            format!("sh(sortedmulti(2,{},{},{}))#ks43hvg8", C, A, B),
        ),
        (
            format!("wsh(sortedmulti(2,{},{},{}))", C, A, B),
            false,
            format!("wsh(sortedmulti(2,{},{},{}))#daxwzwy2", C, A, B),
        ),
        (
            format!("sh(wsh(sortedmulti(2,{},{},{})))", C, A, B),
            true,
            format!("sh(wsh(sortedmulti(2,{},{},{})))#2udw8a06", C, A, B),
        ),
    ];
    for (s, nested, expected) in list {
        let d = ContractDescriptor::from_str(&s).unwrap();
        assert_eq!(d.to_descriptor(nested).as_str(), expected);
    }
}

#[test]
fn weights() {
    assert_eq!(single(OuterCategory::Hashed, A).max_satisfaction_weight(), Ok(432));
    assert_eq!(single(OuterCategory::Hashed, LONG).max_satisfaction_weight(), Ok(560));
    assert_eq!(single(OuterCategory::SegWit, A).try_max_satisfaction_weight(), Some(Ok(112)));
    let ms = miniscript("0");
    let policy = Policy::from_str(&format!("pk({})", A)).unwrap();
    let d = ContractDescriptor::Script { ms_cache: CompiledMiniscript::SegWit(ms), policy };
    assert_eq!(d.max_satisfaction_weight().unwrap_err().origin, ErrorOrigin::Analysis);
}

#[test]
fn sanity() {
    assert_eq!(single(OuterCategory::Hashed, A).sanity_check(), Ok(()));
    assert_eq!(single(OuterCategory::SegWit, A).try_sanity_check(), Some(Ok(())));
    assert_eq!(multi(OuterCategory::SegWit, 2, &[A, B, C], true).sanity_check(), Ok(()));
    let ms = miniscript("older(16)");
    let policy = Policy::from_str(&format!("pk({})", A)).unwrap();
    let d = ContractDescriptor::Script { ms_cache: CompiledMiniscript::SegWit(ms), policy };
    assert_eq!(d.sanity_check().unwrap_err().origin, ErrorOrigin::Analysis);
}

#[test]
fn contracts_without_descriptor_have_no_scripts() {
    let d = multi(OuterCategory::SegWit, 3, &[A, B], true);
    assert!(d.try_sanity_check().is_none());
    assert!(d.try_address(Network::Bitcoin).is_none());
    assert!(d.try_script_pubkey().is_none());
    assert!(d.try_unsigned_script_sig().is_none());
    assert!(d.try_explicit_script().is_none());
    assert!(d.try_max_satisfaction_weight().is_none());
    assert!(d.try_script_code().is_none());
    assert!(d.try_to_text(false).is_none());
}

#[test]
fn contracts_with_descriptor_have_scripts() {
    let d = script(OuterCategory::SegWit, &format!("and(pk({}),pk({}))", A, B));
    assert_eq!(d.try_script_pubkey().unwrap(), d.script_pubkey());
    assert_eq!(d.try_explicit_script().unwrap(), d.explicit_script());
    assert_eq!(d.try_script_code().unwrap(), d.explicit_script());
    assert_eq!(hex(&d.explicit_script()), format!("21{}ad21{}ac", A, B));
    assert_eq!(d.clone(), d);
}

#[test]
fn reads_are_repeatable() {
    let s = format!("or(9@pk({}),and(pk({}),older(144)))", A, B);
    assert_eq!(script(OuterCategory::SegWit, &s), script(OuterCategory::SegWit, &s));
}
