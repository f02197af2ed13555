//! Laws of contents: the views of values, and of results, keep all that these hold.
use vstd::prelude::*;
use crate::category::OuterCategory;
use crate::compiled::{CompiledMiniscript, CompiledView};
use crate::contract::{ContractDescriptor, ContractView};
use crate::descriptor::{Address, OutputDescriptor};
use crate::error::{Error, ErrorOrigin};
use crate::key::Key;
use crate::parsed::{
    ParsedDescriptor, ParsedView, ShInner, ShInnerView, Terminal, TerminalView, WshInner,
    WshInnerView,
};
use crate::script::{BareCtx, Legacy, Rules, ScriptContext, Segwitv0};

verus! {

/// The texts of a list of keys are as many as the keys, each that of its key.
pub proof fn law_texts_of_keys(keys: Seq<Key>)
    ensures
        crate::key::key_texts(keys) == Seq::new(keys.len(), |i: int| keys[i]@),
{
    assert(crate::key::key_texts(keys) =~= Seq::new(keys.len(), |i: int| keys[i]@));
}

/// The contents of a contract are its fields.
pub proof fn law_contents_of_contracts(d: ContractDescriptor)
    ensures
        match (d, d@) {
            (
                ContractDescriptor::SingleSig { category, pk },
                ContractView::SingleSig { category: place, pk: text },
            ) => place == category && text == pk@,
            (
                ContractDescriptor::MultiSig { category, threshold, signers, sorted },
                ContractView::MultiSig {
                    category: place,
                    threshold: k,
                    signers: texts,
                    sorted: told,
                },
            ) => place == category && k == threshold && told == sorted && texts == Seq::new(
                signers@.len(),
                |i: int| signers@[i]@,
            ),
            (
                ContractDescriptor::Script { ms_cache, policy },
                ContractView::Script { ms_cache: ms, policy: text },
            ) => text == policy@ && match (ms_cache, ms.category) {
                (CompiledMiniscript::Bare(x), OuterCategory::Bare) => ms.miniscript == x@,
                (CompiledMiniscript::Hashed(x), OuterCategory::Hashed) => ms.miniscript == x@,
                (CompiledMiniscript::SegWit(x), OuterCategory::SegWit) => ms.miniscript == x@,
                (CompiledMiniscript::Taproot(x), OuterCategory::Taproot) => ms.miniscript == x@,
                _ => false,
            },
            _ => false,
        },
{
    if d is MultiSig {
        law_texts_of_keys(d->signers@);
    }
}

/// The contents of a compiled miniscript are its category and its text.
pub proof fn law_contents_of_miniscripts(c: CompiledMiniscript)
    ensures
        c@ == match c {
            CompiledMiniscript::Bare(ms) => CompiledView {
                category: OuterCategory::Bare,
                miniscript: ms@,
            },
            CompiledMiniscript::Hashed(ms) => CompiledView {
                category: OuterCategory::Hashed,
                miniscript: ms@,
            },
            CompiledMiniscript::SegWit(ms) => CompiledView {
                category: OuterCategory::SegWit,
                miniscript: ms@,
            },
            CompiledMiniscript::Taproot(ms) => CompiledView {
                category: OuterCategory::Taproot,
                miniscript: ms@,
            },
        },
{
}

/// The contents of the outermost fragment of a miniscript are its key, or its
/// threshold and its keys.
pub proof fn law_contents_of_fragments(node: Terminal)
    ensures
        node@ == match node {
            Terminal::PkK(key) => TerminalView::PkK(key@),
            Terminal::Multi(k, keys) => TerminalView::Multi(
                k,
                Seq::new(keys@.len(), |i: int| keys@[i]@),
            ),
            Terminal::Other => TerminalView::Other,
        },
{
    if node is Multi {
        law_texts_of_keys(node->Multi_1@);
    }
}

/// The contents of a descriptor taken apart are what stands in it.
pub proof fn law_contents_of_parsed_descriptors(p: ParsedDescriptor)
    ensures
        p@ == match p {
            ParsedDescriptor::Bare(node) => ParsedView::Bare(node@),
            ParsedDescriptor::Pkh(key) => ParsedView::Pkh(key@),
            ParsedDescriptor::Wpkh(key) => ParsedView::Wpkh(key@),
            ParsedDescriptor::Sh(ShInner::Wsh) => ParsedView::Sh(ShInnerView::Wsh),
            ParsedDescriptor::Sh(ShInner::Wpkh) => ParsedView::Sh(ShInnerView::Wpkh),
            ParsedDescriptor::Sh(ShInner::SortedMulti(k, keys)) => ParsedView::Sh(
                ShInnerView::SortedMulti(k, Seq::new(keys@.len(), |i: int| keys@[i]@)),
            ),
            ParsedDescriptor::Sh(ShInner::Ms(node)) => ParsedView::Sh(ShInnerView::Ms(node@)),
            ParsedDescriptor::Wsh(WshInner::SortedMulti(k, keys)) => ParsedView::Wsh(
                WshInnerView::SortedMulti(k, Seq::new(keys@.len(), |i: int| keys@[i]@)),
            ),
            ParsedDescriptor::Wsh(WshInner::Ms(node)) => ParsedView::Wsh(WshInnerView::Ms(node@)),
        },
{
    match p {
        ParsedDescriptor::Sh(ShInner::SortedMulti(_, keys)) => law_texts_of_keys(keys@),
        ParsedDescriptor::Wsh(WshInner::SortedMulti(_, keys)) => law_texts_of_keys(keys@),
        _ => {},
    }
}

/// The contents of an error are its origin and its reason, and those of an address
/// its text and its output script.
pub proof fn law_contents_of_errors_and_addresses(e: Error, a: Address)
    ensures
        e@ == (e.origin, e.message@),
        a@ == (a.text@, a.script_pubkey@),
{
}

/// A result is told by its contents: what there is, if there is something, and else
/// the reason why there is nothing.
pub proof fn law_contents_of_results(
    contract: Result<ContractDescriptor, Error>,
    compiled: Result<CompiledMiniscript, Error>,
    parsed: Result<ParsedDescriptor, String>,
    address: Result<Address, Error>,
    descriptor: Option<OutputDescriptor>,
)
    ensures
        crate::contract::contract_outcome(contract) == match contract {
            Ok(v) => Ok::<ContractView, (ErrorOrigin, Seq<char>)>(v@),
            Err(e) => Err((e.origin, e.message@)),
        },
        crate::compiled::compiled_outcome(compiled) == match compiled {
            Ok(v) => Ok::<CompiledView, (ErrorOrigin, Seq<char>)>(v@),
            Err(e) => Err((e.origin, e.message@)),
        },
        crate::parsed::parsed_outcome(parsed) == match parsed {
            Ok(v) => Ok::<ParsedView, Seq<char>>(v@),
            Err(e) => Err(e@),
        },
        crate::descriptor::address_outcome(address) == match address {
            Ok(a) => Ok::<(Seq<char>, Seq<u8>), (ErrorOrigin, Seq<char>)>(
                (a.text@, a.script_pubkey@),
            ),
            Err(e) => Err((e.origin, e.message@)),
        },
        crate::descriptor::descriptor_outcome(descriptor) == match descriptor {
            Some(d) => Some(d@),
            None => None,
        },
{
}

/// The places for scripts have rules of their own.
pub proof fn law_rules_of_places()
    ensures
        BareCtx::rules() == Rules::Bare,
        Legacy::rules() == Rules::Legacy,
        Segwitv0::rules() == Rules::Segwitv0,
        crate::policy::rules_of(OuterCategory::Bare) == Rules::Bare,
        crate::policy::rules_of(OuterCategory::Hashed) == Rules::Legacy,
        crate::policy::rules_of(OuterCategory::SegWit) == Rules::Segwitv0,
        crate::policy::rules_of(OuterCategory::Taproot) == Rules::Segwitv0,
{
}

} // verus!
