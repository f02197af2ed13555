//! Laws of reading: what the contract of a text, of a script and of a policy is.
use vstd::prelude::*;
use crate::category::OuterCategory;
use crate::compiled::CompiledView;
use crate::contract::ContractView;
use crate::error::{ErrorOrigin, ErrorView};
use crate::parsed::{DescriptorKind, ShInnerView, TerminalView, WshInnerView};
use crate::policy::{compiled, read_policy};
use crate::script::Rules;

verus! {

/// A text that is no descriptor is refused, with the reason that the reader of
/// descriptors gives.
pub proof fn law_no_descriptor_is_refused(s: Seq<char>, reason: Seq<char>)
    requires
        crate::parsed::read_descriptor(s) == Err::<(DescriptorKind, Seq<char>), Seq<char>>(reason),
    ensures
        ContractView::of_text(s) == Err::<ContractView, ErrorView>(
            (ErrorOrigin::Descriptor, reason),
        ),
{
}

/// The descriptor of a key's hash gives the contract of that key: in an input for
/// `pkh`, and in a witness for `wpkh`.
pub proof fn law_key_hash_is_read(s: Seq<char>)
    ensures
        crate::parsed::read_descriptor(s) matches Ok(d) ==> {
            &&& d.0 == DescriptorKind::Pkh ==> (ContractView::of_text(s) matches Ok(
                ContractView::SingleSig { category, pk },
            ) && category == OuterCategory::Hashed && pk == crate::parsed::pkh_key(s))
            &&& d.0 == DescriptorKind::Wpkh ==> (ContractView::of_text(s) matches Ok(
                ContractView::SingleSig { category, pk },
            ) && category == OuterCategory::SegWit && pk == crate::parsed::wpkh_key(s))
        },
{
}

/// A script that checks one key gives the contract of that key, in the place where
/// the script stands.
pub proof fn law_checked_key_is_read(s: Seq<char>, key: Seq<char>)
    ensures
        crate::parsed::read_descriptor(s) matches Ok(d) ==> {
            &&& d.0 == DescriptorKind::Bare && crate::parsed::bare_node(s) == TerminalView::PkK(key)
                ==> (ContractView::of_text(s) matches Ok(ContractView::SingleSig { category, pk })
                && category == OuterCategory::Bare && pk == key)
            &&& d.0 == DescriptorKind::Sh && crate::parsed::sh_inner(s) == ShInnerView::Ms(
                TerminalView::PkK(key),
            ) ==> (ContractView::of_text(s) matches Ok(ContractView::SingleSig { category, pk })
                && category == OuterCategory::Hashed && pk == key)
            &&& d.0 == DescriptorKind::Wsh && crate::parsed::wsh_inner(s) == WshInnerView::Ms(
                TerminalView::PkK(key),
            ) ==> (ContractView::of_text(s) matches Ok(ContractView::SingleSig { category, pk })
                && category == OuterCategory::SegWit && pk == key)
        },
{
}

/// A descriptor in which `multi` stands gives a multisig with the same threshold
/// and the same keys in the same order, which are not sorted, whatever else its
/// text holds.
pub proof fn law_multisig_is_read_as_it_stands(s: Seq<char>, k: usize, keys: Seq<Seq<char>>)
    ensures
        crate::parsed::read_descriptor(s) matches Ok(d) ==> {
            &&& d.0 == DescriptorKind::Bare && crate::parsed::bare_node(s) == TerminalView::Multi(
                k,
                keys,
            ) ==> (ContractView::of_text(s) matches Ok(
                ContractView::MultiSig { category, threshold, signers, sorted },
            ) && category == OuterCategory::Bare && threshold == k && signers == keys && !sorted)
            &&& d.0 == DescriptorKind::Sh && crate::parsed::sh_inner(s) == ShInnerView::Ms(
                TerminalView::Multi(k, keys),
            ) ==> (ContractView::of_text(s) matches Ok(
                ContractView::MultiSig { category, threshold, signers, sorted },
            ) && category == OuterCategory::Hashed && threshold == k && signers == keys && !sorted)
            &&& d.0 == DescriptorKind::Wsh && crate::parsed::wsh_inner(s) == WshInnerView::Ms(
                TerminalView::Multi(k, keys),
            ) ==> (ContractView::of_text(s) matches Ok(
                ContractView::MultiSig { category, threshold, signers, sorted },
            ) && category == OuterCategory::SegWit && threshold == k && signers == keys && !sorted)
        },
{
}

/// A descriptor in which `sortedmulti` stands gives a multisig with the same
/// threshold and the same keys, which are sorted.
pub proof fn law_sorted_multisig_is_read_as_sorted(s: Seq<char>, k: usize, keys: Seq<Seq<char>>)
    ensures
        crate::parsed::read_descriptor(s) matches Ok(d) ==> {
            &&& d.0 == DescriptorKind::Sh && crate::parsed::sh_inner(s) == ShInnerView::SortedMulti(
                k,
                keys,
            ) ==> (ContractView::of_text(s) matches Ok(
                ContractView::MultiSig { category, threshold, signers, sorted },
            ) && category == OuterCategory::Hashed && threshold == k && signers == keys && sorted)
            &&& d.0 == DescriptorKind::Wsh && crate::parsed::wsh_inner(s)
                == WshInnerView::SortedMulti(k, keys) ==> (ContractView::of_text(s) matches Ok(
                ContractView::MultiSig { category, threshold, signers, sorted },
            ) && category == OuterCategory::SegWit && threshold == k && signers == keys && sorted)
        },
{
}

/// How a descriptor of keys is written, with a checksum or without one, does not
/// matter: two texts in which the same keys stand give the same contract.
pub proof fn law_notation_of_keys_does_not_matter(s: Seq<char>, t: Seq<char>)
    requires
        crate::parsed::read_descriptor(s) is Ok,
        crate::parsed::read_descriptor(t) is Ok,
        crate::parsed::read_descriptor(s)->Ok_0.0 == crate::parsed::read_descriptor(t)->Ok_0.0,
        match crate::parsed::read_descriptor(s)->Ok_0.0 {
            DescriptorKind::Bare => crate::parsed::bare_node(s) == crate::parsed::bare_node(t)
                && !(crate::parsed::bare_node(s) is Other),
            DescriptorKind::Pkh => crate::parsed::pkh_key(s) == crate::parsed::pkh_key(t),
            DescriptorKind::Wpkh => crate::parsed::wpkh_key(s) == crate::parsed::wpkh_key(t),
            DescriptorKind::Sh => {
                &&& crate::parsed::sh_inner(s) == crate::parsed::sh_inner(t)
                &&& match crate::parsed::sh_inner(s) {
                    ShInnerView::SortedMulti(..) => true,
                    ShInnerView::Ms(node) => !(node is Other),
                    _ => false,
                }
            },
            DescriptorKind::Wsh => {
                &&& crate::parsed::wsh_inner(s) == crate::parsed::wsh_inner(t)
                &&& match crate::parsed::wsh_inner(s) {
                    WshInnerView::SortedMulti(..) => true,
                    WshInnerView::Ms(node) => !(node is Other),
                }
            },
        },
    ensures
        ContractView::of_text(s) is Ok,
        ContractView::of_text(s) == ContractView::of_text(t),
{
}

/// The outermost fragment of a descriptor tells where the script of its contract
/// stands, and a contract that is read is never a taproot one.
pub proof fn law_fragment_tells_the_category(s: Seq<char>)
    ensures
        ContractView::of_text(s) matches Ok(contract) ==> {
            let category = match contract {
                ContractView::SingleSig { category, .. } => category,
                ContractView::MultiSig { category, .. } => category,
                ContractView::Script { ms_cache, .. } => ms_cache.category,
            };
            crate::parsed::read_descriptor(s) matches Ok(d) && match d.0 {
                DescriptorKind::Bare => category == OuterCategory::Bare,
                DescriptorKind::Pkh => category == OuterCategory::Hashed,
                DescriptorKind::Wpkh => category == OuterCategory::SegWit,
                DescriptorKind::Wsh => category == OuterCategory::SegWit,
                DescriptorKind::Sh => match crate::parsed::sh_inner(s) {
                    ShInnerView::Wsh => true,
                    ShInnerView::Wpkh => true,
                    _ => category == OuterCategory::Hashed,
                },
            }
        },
{
}

/// A descriptor that is nested in a script hash gives what the text between the
/// brackets of the hash gives.
pub proof fn law_nested_text_is_read_by_itself(s: Seq<char>)
    requires
        s.len() >= 4,
        crate::parsed::read_descriptor(s) matches Ok(d) && d.0 == DescriptorKind::Sh,
        crate::parsed::sh_inner(s) == ShInnerView::Wsh || crate::parsed::sh_inner(s)
            == ShInnerView::Wpkh,
    ensures
        ContractView::of_text(s) == ContractView::of_text(s.subrange(3, s.len() - 1)),
{
}

/// A script that checks neither one key nor several is read by its policy: by the
/// one that stands between the brackets of `wsh` or `sh`, or behind the first five
/// characters of a bare descriptor. If that text is no policy, it is refused, and
/// if the policy has no compilation, so is it. Else the contract holds this very
/// policy, and what the compiler makes of it in the place of the script.
pub proof fn law_script_is_read_by_its_policy(s: Seq<char>)
    ensures
        crate::parsed::read_descriptor(s) matches Ok(d) ==> {
            &&& d.0 == DescriptorKind::Wsh && crate::parsed::wsh_inner(s) == WshInnerView::Ms(
                TerminalView::Other,
            ) ==> match ContractView::of_text(s) {
                Ok(contract) => {
                    &&& contract matches ContractView::Script { ms_cache, policy }
                    &&& read_policy(s.subrange(4, s.len() - 1)) == Ok::<Seq<char>, Seq<char>>(
                        policy,
                    )
                    &&& ms_cache.category == OuterCategory::SegWit
                    &&& compiled(policy, Rules::Segwitv0) == Ok::<Seq<char>, Seq<char>>(
                        ms_cache.miniscript,
                    )
                },
                Err(e) => match read_policy(s.subrange(4, s.len() - 1)) {
                    Err(reason) => e == (ErrorOrigin::Policy, reason),
                    Ok(policy) => e.0 == ErrorOrigin::Compiler && compiled(policy, Rules::Segwitv0)
                        == Err::<Seq<char>, Seq<char>>(e.1),
                },
            }
            &&& d.0 == DescriptorKind::Sh && crate::parsed::sh_inner(s) == ShInnerView::Ms(
                TerminalView::Other,
            ) ==> match ContractView::of_text(s) {
                Ok(contract) => {
                    &&& contract matches ContractView::Script { ms_cache, policy }
                    &&& read_policy(s.subrange(3, s.len() - 1)) == Ok::<Seq<char>, Seq<char>>(
                        policy,
                    )
                    &&& ms_cache.category == OuterCategory::Hashed
                    &&& compiled(policy, Rules::Legacy) == Ok::<Seq<char>, Seq<char>>(
                        ms_cache.miniscript,
                    )
                },
                Err(e) => match read_policy(s.subrange(3, s.len() - 1)) {
                    Err(reason) => e == (ErrorOrigin::Policy, reason),
                    Ok(policy) => e.0 == ErrorOrigin::Compiler && compiled(policy, Rules::Legacy)
                        == Err::<Seq<char>, Seq<char>>(e.1),
                },
            }
            &&& d.0 == DescriptorKind::Bare && crate::parsed::bare_node(s) == TerminalView::Other
                ==> match ContractView::of_text(s) {
                Ok(contract) => {
                    &&& contract matches ContractView::Script { ms_cache, policy }
                    &&& read_policy(s.subrange(5, s.len() - 1)) == Ok::<Seq<char>, Seq<char>>(
                        policy,
                    )
                    &&& ms_cache.category == OuterCategory::Bare
                    &&& compiled(policy, Rules::Bare) == Ok::<Seq<char>, Seq<char>>(
                        ms_cache.miniscript,
                    )
                },
                Err(e) => match read_policy(s.subrange(5, s.len() - 1)) {
                    Err(reason) => e == (ErrorOrigin::Policy, reason),
                    Ok(policy) => e.0 == ErrorOrigin::Compiler && compiled(policy, Rules::Bare)
                        == Err::<Seq<char>, Seq<char>>(e.1),
                },
            }
        },
{
}

/// The contract behind a script that checks keys is that of these keys, and does
/// not depend on what is given as its policy.
pub proof fn law_keys_of_a_script_are_kept(
    node: TerminalView,
    category: OuterCategory,
    source: Seq<char>,
    other: Seq<char>,
)
    requires
        !(node is Other),
    ensures
        ContractView::of_script(node, category, source) == ContractView::of_script(
            node,
            category,
            other,
        ),
        match (node, ContractView::of_script(node, category, source)) {
            (
                TerminalView::PkK(key),
                Ok(ContractView::SingleSig { category: place, pk }),
            ) => place == category && pk == key,
            (
                TerminalView::Multi(k, keys),
                Ok(ContractView::MultiSig { category: place, threshold, signers, sorted }),
            ) => place == category && threshold == k && signers == keys && !sorted,
            _ => false,
        },
{
}

/// The contract behind any other script holds the very policy that its source
/// states, in the category that is asked for, and what the compiler makes of that
/// policy under the rules for the category.
pub proof fn law_script_holds_the_policy_of_its_source(category: OuterCategory, source: Seq<char>)
    ensures
        ContractView::of_script(TerminalView::Other, category, source) matches Ok(contract) ==> {
            &&& contract matches ContractView::Script { ms_cache, policy }
            &&& read_policy(source) == Ok::<Seq<char>, Seq<char>>(policy)
            &&& ms_cache.category == category
            &&& match category {
                OuterCategory::Bare => compiled(policy, Rules::Bare),
                OuterCategory::Hashed => compiled(policy, Rules::Legacy),
                OuterCategory::SegWit => compiled(policy, Rules::Segwitv0),
                OuterCategory::Taproot => compiled(policy, Rules::Segwitv0),
            } == Ok::<Seq<char>, Seq<char>>(ms_cache.miniscript)
        },
{
}

/// A source is refused only where it is no policy, with the reason that the reader
/// of policies gives, or where its policy has no compilation under the rules for
/// the category, with the reason of the compiler.
pub proof fn law_source_is_refused_for_a_reason(category: OuterCategory, source: Seq<char>)
    ensures
        ContractView::of_script(TerminalView::Other, category, source) matches Err(e)
            ==> match read_policy(source) {
            Err(reason) => e == (ErrorOrigin::Policy, reason),
            Ok(policy) => e.0 == ErrorOrigin::Compiler && (match category {
                OuterCategory::Bare => compiled(policy, Rules::Bare),
                OuterCategory::Hashed => compiled(policy, Rules::Legacy),
                OuterCategory::SegWit => compiled(policy, Rules::Segwitv0),
                OuterCategory::Taproot => compiled(policy, Rules::Segwitv0),
            } == Err::<Seq<char>, Seq<char>>(e.1)),
        },
{
}

/// Two sources that state the same policy stand for the same contract, and two that
/// state different policies never do.
pub proof fn law_policies_tell_contracts_apart(
    category: OuterCategory,
    a: Seq<char>,
    b: Seq<char>,
)
    requires
        ContractView::of_script(TerminalView::Other, category, a) is Ok,
        ContractView::of_script(TerminalView::Other, category, b) is Ok,
    ensures
        ContractView::of_script(TerminalView::Other, category, a) == ContractView::of_script(
            TerminalView::Other,
            category,
            b,
        ) <==> read_policy(a) == read_policy(b),
{
}

/// What a policy is compiled to for a category is what the compiler makes of this
/// very policy under the rules for the category, and if it makes nothing of it, its
/// reason is given.
pub proof fn law_compilation_is_of_the_policy(policy: Seq<char>, category: OuterCategory)
    ensures
        match CompiledView::of_policy(policy, category) {
            Ok(ms) => ms.category == category && (match category {
                OuterCategory::Bare => compiled(policy, Rules::Bare),
                OuterCategory::Hashed => compiled(policy, Rules::Legacy),
                OuterCategory::SegWit => compiled(policy, Rules::Segwitv0),
                OuterCategory::Taproot => compiled(policy, Rules::Segwitv0),
            } == Ok::<Seq<char>, Seq<char>>(ms.miniscript)),
            Err(e) => e.0 == ErrorOrigin::Compiler && (match category {
                OuterCategory::Bare => compiled(policy, Rules::Bare),
                OuterCategory::Hashed => compiled(policy, Rules::Legacy),
                OuterCategory::SegWit => compiled(policy, Rules::Segwitv0),
                OuterCategory::Taproot => compiled(policy, Rules::Segwitv0),
            } == Err::<Seq<char>, Seq<char>>(e.1)),
        },
{
}

/// Two policies that compile to the same miniscript for a category are ones of which
/// the compiler makes the same.
pub proof fn law_equal_compilations_come_from_equal_outcomes(
    a: Seq<char>,
    b: Seq<char>,
    category: OuterCategory,
)
    ensures
        CompiledView::of_policy(a, category) == CompiledView::of_policy(b, category) <==> (
        match category {
            OuterCategory::Bare => compiled(a, Rules::Bare) == compiled(b, Rules::Bare),
            OuterCategory::Hashed => compiled(a, Rules::Legacy) == compiled(b, Rules::Legacy),
            _ => compiled(a, Rules::Segwitv0) == compiled(b, Rules::Segwitv0),
        }),
{
}

} // verus!
