//! Laws that hold across the functions of the library.
pub mod contents;
pub mod describing;
pub mod notation;
pub mod reading;
pub mod weighing;

use vstd::prelude::*;
use crate::category::{ContractType, OuterCategory};
use crate::compiled::CompiledView;
use crate::contract::ContractView;
use crate::descriptor::DescriptorType;
use crate::parsed::TerminalView;

verus! {

/// Sorted bare multisigs are not supported: a bare multisig has the same
/// descriptor whether it is to be sorted or not.
pub proof fn law_bare_multisig_is_unsorted(
    threshold: usize,
    signers: Seq<Seq<char>>,
    nested: bool,
)
    ensures
        (ContractView::MultiSig {
            category: OuterCategory::Bare,
            threshold,
            signers,
            sorted: true,
        }).described(nested) == (ContractView::MultiSig {
            category: OuterCategory::Bare,
            threshold,
            signers,
            sorted: false,
        }).described(nested),
{
}

/// The category of the script of a contract.
pub open spec fn category_of(contract: ContractView) -> OuterCategory {
    match contract {
        ContractView::SingleSig { category, .. } => category,
        ContractView::MultiSig { category, .. } => category,
        ContractView::Script { ms_cache, .. } => ms_cache.category,
    }
}

/// Only the witness contracts of keys are nested: every other contract has the
/// same descriptor, and the same text, whether it is to be nested or not.
pub proof fn law_only_witness_keys_are_nested(contract: ContractView)
    requires
        !contract.is_nestable(),
    ensures
        contract.expression(true) == contract.expression(false),
        contract.described(true) == contract.described(false),
        contract.written(true) == contract.written(false),
{
}

/// Nesting only wraps: the nested descriptor of a contract of witness keys is the
/// plain one in a script hash. There is the one if there is the other, both are
/// made of the same miniscript, and the expression of the nested one is that of
/// the plain one within the brackets of `sh`.
pub proof fn law_nesting_only_wraps(contract: ContractView)
    requires
        contract.is_nestable(),
    ensures
        contract.expression(true) == crate::descriptor::sh_of(contract.expression(false)),
        contract.described(true) is Some <==> contract.described(false) is Some,
        contract.described(false) matches Some(plain) ==> {
            &&& contract.described(true) matches Some(nested)
            &&& nested.script == plain.script
            &&& nested.desc_type == match plain.desc_type {
                DescriptorType::Wpkh => DescriptorType::ShWpkh,
                DescriptorType::WshSortedMulti => DescriptorType::ShWshSortedMulti,
                _ => DescriptorType::ShWsh,
            }
        },
{
}

/// The descriptor of a contract has the outermost fragment that the contract
/// tells, and is nested only where that is asked for and the contract is one of
/// witness keys.
pub proof fn law_outer_type_is_told(contract: ContractView, nested: bool)
    ensures
        contract.described(nested) matches Some(d) ==> {
            &&& contract.outer_type() == crate::descriptor::outer_type_of(d.desc_type)
            &&& crate::descriptor::is_nested_type(d.desc_type) <==> nested
                && contract.is_nestable()
        },
{
}

/// No taproot contract has a descriptor.
pub proof fn law_taproot_has_no_descriptor(contract: ContractView, nested: bool)
    requires
        category_of(contract) == OuterCategory::Taproot,
    ensures
        contract.described(nested) is None,
{
}

/// A contract that is found behind a script keeps the category of the script, and
/// its outermost fragment is that of a single key where the script checks one,
/// and that of a script elsewhere.
pub proof fn law_script_keeps_category(
    node: TerminalView,
    category: OuterCategory,
    policy_source: Seq<char>,
)
    ensures
        ContractView::of_script(node, category, policy_source) matches Ok(contract) ==> {
            &&& category_of(contract) == category
            &&& contract.outer_type() == category.outer_type(!(node is PkK))
        },
{
}

/// The compilation of a policy keeps the category that it is asked for.
pub proof fn law_compilation_keeps_category(policy: Seq<char>, category: OuterCategory)
    ensures
        CompiledView::of_policy(policy, category) matches Ok(ms) ==> ms.category == category,
{
}

/// Policies compile alike for taproot outputs and for witnesses: to the same
/// miniscript, or with the same error.
pub proof fn law_taproot_compiles_as_witness(policy: Seq<char>)
    ensures
        match (
            CompiledView::of_policy(policy, OuterCategory::Taproot),
            CompiledView::of_policy(policy, OuterCategory::SegWit),
        ) {
            (Ok(a), Ok(b)) => a.miniscript == b.miniscript,
            (Err(a), Err(b)) => a == b,
            _ => false,
        },
{
}

/// Only the category and the policy decide which contract stands behind a script
/// that checks neither one key nor several.
pub proof fn law_policy_is_the_master(
    a: TerminalView,
    b: TerminalView,
    category: OuterCategory,
    policy_source: Seq<char>,
)
    requires
        !(a is PkK) && !(a is Multi),
        !(b is PkK) && !(b is Multi),
    ensures
        ContractView::of_script(a, category, policy_source) == ContractView::of_script(
            b,
            category,
            policy_source,
        ),
{
}

/// Nesting is forgotten: the contract of a witness descriptor nested in a script
/// hash is that of the descriptor between the brackets of the hash.
pub proof fn law_nesting_is_forgotten(s: Seq<char>)
    requires
        s.len() >= 4,
        crate::parsed::reads_as_nested(s),
    ensures
        ContractView::of_text(s) == ContractView::of_text(crate::parsed::inside_sh(s)),
{
}

/// Whether the cache of a script is what its policy compiles to.
pub open spec fn cache_is_fresh(contract: ContractView) -> bool {
    contract matches ContractView::Script { ms_cache, policy } ==> CompiledView::of_policy(
        policy,
        ms_cache.category,
    ) == Ok::<CompiledView, crate::error::ErrorView>(ms_cache)
}

/// Every contract that is found behind a script holds what its policy compiles
/// to.
pub proof fn law_cache_follows_policy(
    node: TerminalView,
    category: OuterCategory,
    policy_source: Seq<char>,
)
    ensures
        ContractView::of_script(node, category, policy_source) matches Ok(contract)
            ==> cache_is_fresh(contract),
{
}

/// Whether a contract is one that a text can stand for: never a taproot one, nor
/// a bare multisig that is to be sorted, and with a cache that follows its policy.
pub open spec fn is_canonical(contract: ContractView) -> bool {
    &&& category_of(contract) != OuterCategory::Taproot
    &&& contract matches ContractView::MultiSig { category, sorted, .. } ==> (sorted ==> category
        != OuterCategory::Bare)
    &&& cache_is_fresh(contract)
}

/// A contract that is read from a text is never a taproot one nor a bare multisig
/// that is to be sorted, and holds what its policy compiles to.
pub proof fn law_read_contracts_are_canonical(s: Seq<char>)
    ensures
        ContractView::of_text(s) matches Ok(contract) ==> is_canonical(contract),
    decreases s.len(),
{
    if crate::parsed::reads_as_nested(s) && s.len() >= 4 {
        law_read_contracts_are_canonical(crate::parsed::inside_sh(s));
    }
}

proof fn lemma_trimmed_start(before: Seq<char>, s: Seq<char>)
    requires
        forall|i: int|
            0 <= i < before.len() ==> crate::text::is_white_space(#[trigger] before[i]),
    ensures
        crate::text::trimmed_start(before + s) == crate::text::trimmed_start(s),
    decreases before.len(),
{
    if before.len() == 0 {
        assert(before + s =~= s);
    } else {
        assert((before + s).first() == before[0]);
        assert((before + s).drop_first() =~= before.drop_first() + s);
        lemma_trimmed_start(before.drop_first(), s);
    }
}

proof fn lemma_trimmed_end(s: Seq<char>, after: Seq<char>)
    requires
        forall|i: int| 0 <= i < after.len() ==> crate::text::is_white_space(#[trigger] after[i]),
    ensures
        crate::text::trimmed_end(s + after) == crate::text::trimmed_end(s),
    decreases after.len(),
{
    if after.len() == 0 {
        assert(s + after =~= s);
    } else {
        assert((s + after).last() == after[after.len() - 1]);
        assert((s + after).drop_last() =~= s + after.drop_last());
        lemma_trimmed_end(s, after.drop_last());
    }
}

proof fn lemma_name(t: ContractType)
    ensures
        t.name().len() > 0,
        forall|i: int| 0 <= i < t.name().len() ==> 'a' <= #[trigger] t.name()[i] <= 'z',
        ContractType::named(t.name()) == Some(t),
{
    reveal_strlit("singlesig");
    reveal_strlit("multisig");
    reveal_strlit("script");
    assert("singlesig"@.len() == 9);
    assert("multisig"@.len() == 8);
    assert("script"@.len() == 6);
}

/// The name of a contract type names it, whatever the case of its letters and the
/// white space around it.
pub proof fn law_names_are_recognized(
    t: ContractType,
    before: Seq<char>,
    name: Seq<char>,
    after: Seq<char>,
)
    requires
        forall|i: int|
            0 <= i < before.len() ==> crate::text::is_white_space(#[trigger] before[i]),
        forall|i: int| 0 <= i < after.len() ==> crate::text::is_white_space(#[trigger] after[i]),
        name.map_values(|c: char| crate::text::lower_ascii(c)) == t.name(),
    ensures
        ContractType::named(
            crate::text::trimmed(
                (before + name + after).map_values(|c: char| crate::text::lower_ascii(c)),
            ),
        ) == Some(t),
{
    lemma_name(t);
    let word = t.name();
    let lower = |c: char| crate::text::lower_ascii(c);
    assert((before + name + after).map_values(lower) =~= before + (word + after)) by {
        assert forall|i: int| 0 <= i < name.len() implies lower(#[trigger] name[i]) == word[i] by {
            assert(name.map_values(lower)[i] == lower(name[i]));
        }
        assert(name.map_values(lower).len() == name.len());
    }
    lemma_trimmed_start(before, word + after);
    assert((word + after).first() == word[0]);
    assert(crate::text::trimmed_start(word + after) == word + after);
    lemma_trimmed_end(word, after);
    assert(word.last() == word[word.len() - 1]);
    assert(crate::text::trimmed_end(word) == word);
}

/// Two contract types with the same name are the same.
pub proof fn law_names_tell_types_apart(a: ContractType, b: ContractType)
    requires
        a.name() == b.name(),
    ensures
        a == b,
{
    lemma_name(a);
    lemma_name(b);
}

} // verus!
