//! Laws of describing and writing: what the descriptor and the text of a contract
//! are.
use vstd::prelude::*;
use crate::category::{OuterCategory, OuterType};
use crate::compiled::CompiledView;
use crate::contract::ContractView;
use crate::descriptor::{DescriptorType, DescriptorView};
use crate::policy::{compiled, threshold_policy};
use crate::script::Rules;

verus! {

/// The contract of one key is described by the descriptor of that key: a check of
/// the key in an output, its hash in an input, or its hash in a witness, for which
/// it has to be compressed.
pub proof fn law_key_is_described(category: OuterCategory, pk: Seq<char>, nested: bool)
    ensures
        match ((ContractView::SingleSig { category, pk }).described(nested), category) {
            (Some(d), OuterCategory::Bare) => d == (DescriptorView {
                desc_type: DescriptorType::Pk,
                script: ""@,
                text: crate::descriptor::pk_descriptor(pk),
            }),
            (Some(d), OuterCategory::Hashed) => d == (DescriptorView {
                desc_type: DescriptorType::Pkh,
                script: ""@,
                text: crate::descriptor::pkh_descriptor(pk),
            }),
            (Some(d), OuterCategory::SegWit) => pk.len() == 66 && d == if nested {
                DescriptorView {
                    desc_type: DescriptorType::ShWpkh,
                    script: ""@,
                    text: crate::descriptor::sh_wpkh_descriptor(pk),
                }
            } else {
                DescriptorView {
                    desc_type: DescriptorType::Wpkh,
                    script: ""@,
                    text: crate::descriptor::wpkh_descriptor(pk),
                }
            },
            (None, OuterCategory::SegWit) => pk.len() != 66,
            (None, OuterCategory::Taproot) => true,
            _ => false,
        },
{
}

/// A sorted multisig is described by the descriptor of its own threshold and its
/// own keys. It has one only where its script is within the limits of its place:
/// 34 bytes for each key and three more within 520 bytes in an input, and within
/// 3600 in a witness, which holds the script, an empty item and the signatures in
/// no more than 100 items.
pub proof fn law_sorted_multisig_is_described(
    category: OuterCategory,
    threshold: usize,
    signers: Seq<Seq<char>>,
    nested: bool,
)
    requires
        category == OuterCategory::Hashed || category == OuterCategory::SegWit,
    ensures
        ({
            let d = (ContractView::MultiSig {
                category,
                threshold,
                signers,
                sorted: true,
            }).described(nested);
            let size = 3 + 34 * signers.len();
            &&& d is Some <==> {
                &&& 0 < threshold <= signers.len()
                &&& category == OuterCategory::Hashed ==> size <= 520
                &&& category == OuterCategory::SegWit ==> size <= 3600 && threshold + 2 <= 100
            }
            &&& d matches Some(d) ==> d.script == ""@ && if category == OuterCategory::Hashed {
                &&& d.desc_type == DescriptorType::ShSortedMulti
                &&& d.text == crate::descriptor::sh_sortedmulti_descriptor(threshold, signers)
            } else if nested {
                &&& d.desc_type == DescriptorType::ShWshSortedMulti
                &&& d.text == crate::descriptor::sh_wsh_sortedmulti_descriptor(threshold, signers)
            } else {
                &&& d.desc_type == DescriptorType::WshSortedMulti
                &&& d.text == crate::descriptor::wsh_sortedmulti_descriptor(threshold, signers)
            }
        }),
{
}

/// An unsorted multisig is described by the descriptor of what the compiler makes
/// of the policy that asks for its own threshold of its own keys, under the rules
/// for its category. It has none where the compiler makes nothing of that policy.
pub proof fn law_unsorted_multisig_is_described(
    category: OuterCategory,
    threshold: usize,
    signers: Seq<Seq<char>>,
    nested: bool,
)
    ensures
        ({
            let d = (ContractView::MultiSig {
                category,
                threshold,
                signers,
                sorted: false,
            }).described(nested);
            let policy = threshold_policy(threshold as nat, signers);
            match category {
                OuterCategory::Bare => match (compiled(policy, Rules::Bare), d) {
                    (Ok(ms), Some(d)) => d.desc_type == DescriptorType::Bare && d.script == ms
                        && crate::descriptor::bare_descriptor(ms) == Some(d.text),
                    (Ok(ms), None) => crate::descriptor::bare_descriptor(ms) is None,
                    (Err(_), d) => d is None,
                },
                OuterCategory::Hashed => match (compiled(policy, Rules::Legacy), d) {
                    (Ok(ms), Some(d)) => d.desc_type == DescriptorType::Sh && d.script == ms
                        && d.text == crate::descriptor::sh_descriptor(ms),
                    (Ok(_), None) => false,
                    (Err(_), d) => d is None,
                },
                OuterCategory::SegWit => match (compiled(policy, Rules::Segwitv0), d) {
                    (Ok(ms), Some(d)) => d.script == ms && if nested {
                        &&& d.desc_type == DescriptorType::ShWsh
                        &&& d.text == crate::descriptor::sh_wsh_descriptor(ms)
                    } else {
                        &&& d.desc_type == DescriptorType::Wsh
                        &&& d.text == crate::descriptor::wsh_descriptor(ms)
                    },
                    (Ok(_), None) => false,
                    (Err(_), d) => d is None,
                },
                OuterCategory::Taproot => d is None,
            }
        }),
{
}

/// A bare multisig that is to be sorted is described as the unsorted one, and a
/// taproot one not at all.
pub proof fn law_no_other_multisig_is_sorted(
    threshold: usize,
    signers: Seq<Seq<char>>,
    nested: bool,
)
    ensures
        ({
            let d = (ContractView::MultiSig {
                category: OuterCategory::Bare,
                threshold,
                signers,
                sorted: true,
            }).described(nested);
            match (compiled(threshold_policy(threshold as nat, signers), Rules::Bare), d) {
                (Ok(ms), Some(d)) => d.desc_type == DescriptorType::Bare && d.script == ms
                    && crate::descriptor::bare_descriptor(ms) == Some(d.text),
                (Ok(ms), None) => crate::descriptor::bare_descriptor(ms) is None,
                (Err(_), d) => d is None,
            }
        }),
        (ContractView::MultiSig {
            category: OuterCategory::Taproot,
            threshold,
            signers,
            sorted: true,
        }).described(nested) is None,
{
}

/// Where the compiler makes `multi` of the policy of an unsorted multisig, the
/// expression of the descriptor is this `multi` with the threshold and the keys of
/// the contract, within the brackets of its place.
pub proof fn law_multisig_tells_its_threshold_and_keys(
    category: OuterCategory,
    threshold: usize,
    signers: Seq<Seq<char>>,
    nested: bool,
)
    requires
        compiled(
            threshold_policy(threshold as nat, signers),
            match category {
                OuterCategory::Bare => Rules::Bare,
                OuterCategory::Hashed => Rules::Legacy,
                _ => Rules::Segwitv0,
            },
        ) == Ok::<Seq<char>, Seq<char>>(
            "multi("@ + crate::text::decimal(threshold as nat)
                + crate::descriptor::key_arguments(signers) + ")"@,
        ),
    ensures
        ({
            let multi = "multi("@ + crate::text::decimal(threshold as nat)
                + crate::descriptor::key_arguments(signers) + ")"@;
            (ContractView::MultiSig { category, threshold, signers, sorted: false }).expression(
                nested,
            ) == match category {
                OuterCategory::Bare => multi,
                OuterCategory::Hashed => "sh("@ + multi + ")"@,
                OuterCategory::SegWit => if nested {
                    "sh("@ + ("wsh("@ + multi + ")"@) + ")"@
                } else {
                    "wsh("@ + multi + ")"@
                },
                OuterCategory::Taproot => multi,
            }
        }),
{
}

/// The expressions of keys: a single key within the brackets of its place, and the
/// keys of a sorted multisig, with its threshold before them, likewise.
pub proof fn law_expressions_of_keys(
    pk: Seq<char>,
    threshold: usize,
    signers: Seq<Seq<char>>,
)
    ensures
        (ContractView::SingleSig { category: OuterCategory::Bare, pk }).expression(false) == "pk("@
            + pk + ")"@,
        (ContractView::SingleSig { category: OuterCategory::Hashed, pk }).expression(false)
            == "pkh("@ + pk + ")"@,
        (ContractView::SingleSig { category: OuterCategory::SegWit, pk }).expression(false)
            == "wpkh("@ + pk + ")"@,
        (ContractView::SingleSig { category: OuterCategory::SegWit, pk }).expression(true) == "sh("@
            + ("wpkh("@ + pk + ")"@) + ")"@,
        ({
            let keys = "sortedmulti("@ + crate::text::decimal(threshold as nat)
                + crate::descriptor::key_arguments(signers) + ")"@;
            let hashed = ContractView::MultiSig {
                category: OuterCategory::Hashed,
                threshold,
                signers,
                sorted: true,
            };
            let witness = ContractView::MultiSig {
                category: OuterCategory::SegWit,
                threshold,
                signers,
                sorted: true,
            };
            &&& hashed.expression(false) == "sh("@ + keys + ")"@
            &&& witness.expression(false) == "wsh("@ + keys + ")"@
            &&& witness.expression(true) == "sh("@ + ("wsh("@ + keys + ")"@) + ")"@
        }),
{
}

/// A script is described by the descriptor of its miniscript, whatever its policy
/// is and whether it is to be nested or not.
pub proof fn law_script_is_described_by_its_miniscript(
    ms_cache: CompiledView,
    policy: Seq<char>,
    nested: bool,
)
    ensures
        match (
            (ContractView::Script { ms_cache, policy }).described(nested),
            ms_cache.category,
        ) {
            (Some(d), OuterCategory::Bare) => d.desc_type == DescriptorType::Bare && d.script
                == ms_cache.miniscript && crate::descriptor::bare_descriptor(ms_cache.miniscript)
                == Some(d.text),
            (None, OuterCategory::Bare) => crate::descriptor::bare_descriptor(
                ms_cache.miniscript,
            ) is None,
            (Some(d), OuterCategory::Hashed) => d.desc_type == DescriptorType::Sh && d.script
                == ms_cache.miniscript && d.text == crate::descriptor::sh_descriptor(
                ms_cache.miniscript,
            ),
            (Some(d), OuterCategory::SegWit) => d.desc_type == DescriptorType::Wsh && d.script
                == ms_cache.miniscript && d.text == crate::descriptor::wsh_descriptor(
                ms_cache.miniscript,
            ),
            (None, OuterCategory::Taproot) => true,
            _ => false,
        },
        ms_cache.described() == (ContractView::Script { ms_cache, policy }).described(nested),
        ms_cache.expression() == match ms_cache.category {
            OuterCategory::Hashed => "sh("@ + ms_cache.miniscript + ")"@,
            OuterCategory::SegWit => "wsh("@ + ms_cache.miniscript + ")"@,
            _ => ms_cache.miniscript,
        },
        (ContractView::Script { ms_cache, policy }).expression(nested) == ms_cache.expression(),
{
}

/// The text of a script is its policy, whole and as it stands.
pub proof fn law_script_is_written_as_its_policy(
    ms_cache: CompiledView,
    policy: Seq<char>,
    nested: bool,
)
    ensures
        (ContractView::Script { ms_cache, policy }).written(nested) == Some(policy),
{
}

/// What is written of a script reads as its policy, so that the contract is found
/// again behind it: the text of a contract that is found behind a script, given as
/// the source of a policy in the same category, stands for the same contract.
pub proof fn law_written_script_is_found_again(category: OuterCategory, source: Seq<char>)
    requires
        crate::policy::read_policy(source) matches Ok(p) && crate::policy::read_policy(p) == Ok::<
            Seq<char>,
            Seq<char>,
        >(p),
    ensures
        ContractView::of_script(
            crate::parsed::TerminalView::Other,
            category,
            source,
        ) matches Ok(contract) ==> {
            &&& contract.written(false) matches Some(text)
            &&& ContractView::of_script(crate::parsed::TerminalView::Other, category, text)
                == Ok::<ContractView, crate::error::ErrorView>(contract)
        },
{
}

/// The text of any other contract is that of its descriptor, and it has none where
/// it has no descriptor.
pub proof fn law_keys_are_written_as_their_descriptor(contract: ContractView, nested: bool)
    requires
        !(contract is Script),
    ensures
        match (contract.written(nested), contract.described(nested)) {
            (Some(text), Some(d)) => text == d.text,
            (None, None) => true,
            _ => false,
        },
        contract.described(false) matches Some(d) ==> contract.plain_text() == d.text,
{
}

/// Two scripts with different policies have different texts.
pub proof fn law_texts_tell_policies_apart(
    a: CompiledView,
    b: CompiledView,
    p: Seq<char>,
    q: Seq<char>,
    nested: bool,
)
    ensures
        (ContractView::Script { ms_cache: a, policy: p }).written(nested) == (
        ContractView::Script { ms_cache: b, policy: q }).written(nested) <==> p == q,
{
}

/// The texts of these contracts tell all of them: those of a key's hash and of
/// sorted keys, and those of unsorted keys of which the compiler makes `multi`, as
/// long as they are not nested.
pub proof fn law_texts_of_keys_read_back(contract: ContractView, nested: bool)
    requires
        match contract {
            ContractView::SingleSig { category, .. } => category == OuterCategory::Hashed || (
            category == OuterCategory::SegWit && !nested),
            ContractView::MultiSig { category, threshold, signers, sorted } => {
                &&& category == OuterCategory::SegWit ==> !nested
                &&& sorted ==> category == OuterCategory::Hashed || category
                    == OuterCategory::SegWit
                &&& !sorted ==> compiled(
                    threshold_policy(threshold as nat, signers),
                    match category {
                        OuterCategory::Bare => Rules::Bare,
                        OuterCategory::Hashed => Rules::Legacy,
                        _ => Rules::Segwitv0,
                    },
                ) == Ok::<Seq<char>, Seq<char>>(
                    "multi("@ + crate::text::decimal(threshold as nat)
                        + crate::descriptor::key_arguments(signers) + ")"@,
                )
            },
            ContractView::Script { .. } => false,
        },
    ensures
        contract.reads_back(nested),
{
}

/// What it says that a text gives a contract back: there is a contract, it has a
/// descriptor, and the text reads as that descriptor.
pub proof fn law_giving_back(
    outcome: Result<ContractView, crate::error::ErrorView>,
    nested: bool,
    s: Seq<char>,
)
    requires
        ContractView::gives_back(outcome, nested, s),
    ensures
        outcome matches Ok(contract) && contract.described(nested) matches Some(d)
            && crate::parsed::read_descriptor(s) matches Ok(read) && read.1 == d.text,
{
}

/// The outermost fragment of a contract, by its category and by whether it is one of
/// a single key.
pub proof fn law_outer_types(contract: ContractView)
    ensures
        ({
            let category = match contract {
                ContractView::SingleSig { category, .. } => category,
                ContractView::MultiSig { category, .. } => category,
                ContractView::Script { ms_cache, .. } => ms_cache.category,
            };
            let t = contract.outer_type();
            &&& t == OuterType::Tr <==> category == OuterCategory::Taproot
            &&& t == OuterType::Bare || t == OuterType::Pk <==> category == OuterCategory::Bare
            &&& t == OuterType::Sh || t == OuterType::Pkh <==> category == OuterCategory::Hashed
            &&& t == OuterType::Wsh || t == OuterType::Wpkh <==> category == OuterCategory::SegWit
            &&& t == OuterType::Pk || t == OuterType::Pkh || t == OuterType::Wpkh
                <==> contract is SingleSig && category != OuterCategory::Taproot
            &&& contract.is_bare() <==> category == OuterCategory::Bare
        }),
{
}

/// The output of a contract of which the script is known before hashing: it commits
/// to that script by its hash in an input or a witness, and is that script where
/// none is hashed.
pub proof fn law_outputs_commit_to_their_script(contract: ContractView, script: Seq<u8>)
    ensures
        match contract.outer_type() {
            OuterType::Sh => contract.output_of(script) == seq![0xa9u8, 0x14u8]
                + crate::script::hash160(script) + seq![0x87u8],
            OuterType::Wsh => contract.output_of(script) == seq![0x00u8, 0x20u8]
                + crate::script::sha256(script),
            _ => contract.output_of(script) == script,
        },
{
}

/// What signatures for an output commit to: the script before hashing where one is
/// hashed, and the script in the output where none is.
pub proof fn law_signatures_commit_to_scripts(
    contract: ContractView,
    d: DescriptorView,
    script: Seq<u8>,
)
    requires
        contract.described(false) == Some(d),
        contract.signs(script),
    ensures
        match contract.outer_type() {
            OuterType::Sh => script == crate::descriptor::script_before_hashing(d.text),
            OuterType::Wsh => script == crate::descriptor::script_before_hashing(d.text),
            OuterType::Wpkh => true,
            _ => script == crate::descriptor::output_script(d.text),
        },
{
}

/// Sorted multisigs in the same place with the same threshold and the same compressed
/// keys differ only in the order in which the keys are given.
pub proof fn law_reorderings(
    category: OuterCategory,
    threshold: usize,
    a: Seq<Seq<char>>,
    b: Seq<Seq<char>>,
)
    requires
        category == OuterCategory::Hashed || category == OuterCategory::SegWit,
        a.to_multiset() == b.to_multiset(),
        forall|i: int|
            0 <= i < a.len() ==> crate::key::read_key(#[trigger] a[i]) == Ok::<
                Seq<char>,
                Seq<char>,
            >(a[i]) && a[i].len() == 66,
    ensures
        (ContractView::MultiSig {
            category,
            threshold,
            signers: a,
            sorted: true,
        }).is_reordering_of(
            ContractView::MultiSig { category, threshold, signers: b, sorted: true },
        ),
{
}

/// A descriptor is nested in a script hash in three types, and the hash of its
/// script in its output is that of its type.
pub proof fn law_types_of_descriptors(t: DescriptorType, script: Seq<u8>)
    ensures
        crate::descriptor::is_nested_type(t) <==> t == DescriptorType::ShWpkh || t
            == DescriptorType::ShWsh || t == DescriptorType::ShWshSortedMulti,
        crate::descriptor::outer_type_of(t) == match t {
            DescriptorType::Pk => OuterType::Pk,
            DescriptorType::Bare => OuterType::Bare,
            DescriptorType::Pkh => OuterType::Pkh,
            DescriptorType::Sh | DescriptorType::ShSortedMulti => OuterType::Sh,
            DescriptorType::Wpkh | DescriptorType::ShWpkh => OuterType::Wpkh,
            _ => OuterType::Wsh,
        },
        ({
            let p2sh = |x: Seq<u8>|
                seq![0xa9u8, 0x14u8] + crate::script::hash160(x) + seq![0x87u8];
            let p2wsh = |x: Seq<u8>| seq![0x00u8, 0x20u8] + crate::script::sha256(x);
            crate::descriptor::output_of(t, script) == match t {
                DescriptorType::Sh | DescriptorType::ShSortedMulti | DescriptorType::ShWpkh => p2sh(
                    script,
                ),
                DescriptorType::Wsh | DescriptorType::WshSortedMulti => p2wsh(script),
                DescriptorType::ShWsh | DescriptorType::ShWshSortedMulti => p2sh(p2wsh(script)),
                _ => script,
            }
        }),
{
}

/// The text of a descriptor tells its expression: no text is two expressions with a
/// checksum, and a text with a checksum is the expression, a `#` and eight more
/// characters.
pub proof fn law_checksummed_texts_tell_expressions(t: Seq<char>, e: Seq<char>, f: Seq<char>)
    requires
        crate::descriptor::is_checksummed(t, e),
    ensures
        t == e + seq!['#'] + t.subrange(t.len() - 8, t.len() as int),
        t.len() == e.len() + 9,
        crate::descriptor::is_checksummed(t, f) ==> e == f,
{
    assert(t =~= t.subrange(0, e.len() as int) + seq!['#'] + t.subrange(
        t.len() - 8,
        t.len() as int,
    ));
}

} // verus!
