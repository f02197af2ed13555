//! Miniscripts that policies were compiled to, by the category of the output.
use vstd::prelude::*;
use crate::category::{OuterCategory, OuterType};
use crate::descriptor::{DescriptorType, DescriptorView, OutputDescriptor};
use crate::error::{Error, ErrorOrigin};
use crate::policy::Policy;
use crate::script::{BareCtx, Legacy, Miniscript, Rules, Segwitv0};

verus! {

/// A miniscript under the rules for a category of outputs. Scripts under a
/// taproot key follow the rules for scripts in witnesses.
#[derive(PartialEq, Eq, PartialOrd, Ord, Hash, Debug)]
pub enum CompiledMiniscript {
    Bare(Miniscript<BareCtx>),
    Hashed(Miniscript<Legacy>),
    SegWit(Miniscript<Segwitv0>),
    Taproot(Miniscript<Segwitv0>),
}

/// A miniscript under the rules for a category of outputs, by its contents.
pub struct CompiledView {
    pub category: OuterCategory,
    pub miniscript: Seq<char>,
}

impl View for CompiledMiniscript {
    type V = CompiledView;

    open spec fn view(&self) -> CompiledView {
        match *self {
            CompiledMiniscript::Bare(ms) => CompiledView {
                category: OuterCategory::Bare,
                miniscript: ms@,
            },
            CompiledMiniscript::Hashed(ms) => CompiledView {
                category: OuterCategory::Hashed,
                miniscript: ms@,
            },
            CompiledMiniscript::SegWit(ms) => CompiledView {
                category: OuterCategory::SegWit,
                miniscript: ms@,
            },
            CompiledMiniscript::Taproot(ms) => CompiledView {
                category: OuterCategory::Taproot,
                miniscript: ms@,
            },
        }
    }
}

impl CompiledView {
    /// The miniscript that the policy `policy` compiles to under the rules for
    /// `category`, or the error of the compiler.
    pub open spec fn of_policy(policy: Seq<char>, category: OuterCategory) -> Result<
        CompiledView,
        crate::error::ErrorView,
    > {
        match crate::policy::miniscript_of(policy, crate::policy::rules_of(category)) {
            Ok(miniscript) => Ok(CompiledView { category, miniscript }),
            Err(e) => Err(e),
        }
    }

    /// The descriptor of outputs with this script, if there is one: there is none
    /// for taproot outputs, nor for a bare script that is not a standard one.
    pub open spec fn described(self) -> Option<DescriptorView> {
        let ms = self.miniscript;
        match self.category {
            OuterCategory::Bare => match crate::descriptor::bare_descriptor(ms) {
                Some(text) => Some(crate::descriptor::of_script(DescriptorType::Bare, ms, text)),
                None => None,
            },
            OuterCategory::Hashed => Some(
                crate::descriptor::of_script(
                    DescriptorType::Sh,
                    ms,
                    crate::descriptor::sh_descriptor(ms),
                ),
            ),
            OuterCategory::SegWit => Some(
                crate::descriptor::of_script(
                    DescriptorType::Wsh,
                    ms,
                    crate::descriptor::wsh_descriptor(ms),
                ),
            ),
            OuterCategory::Taproot => None,
        }
    }

    /// The expression of the descriptor of outputs with this script.
    pub open spec fn expression(self) -> Seq<char> {
        match self.category {
            OuterCategory::Hashed => crate::descriptor::sh_of(self.miniscript),
            OuterCategory::SegWit => crate::descriptor::wsh_of(self.miniscript),
            _ => self.miniscript,
        }
    }
}

/// A compiled miniscript or the reason why there is none, by their contents.
pub open spec fn compiled_outcome(r: Result<CompiledMiniscript, Error>) -> Result<
    CompiledView,
    crate::error::ErrorView,
> {
    match r {
        Ok(ms) => Ok(ms@),
        Err(e) => Err(e@),
    }
}

impl Clone for CompiledMiniscript {
    fn clone(&self) -> (r: Self)
        ensures
            r@ == self@,
    {
        match self {
            CompiledMiniscript::Bare(ms) => CompiledMiniscript::Bare(ms.clone()),
            CompiledMiniscript::Hashed(ms) => CompiledMiniscript::Hashed(ms.clone()),
            CompiledMiniscript::SegWit(ms) => CompiledMiniscript::SegWit(ms.clone()),
            CompiledMiniscript::Taproot(ms) => CompiledMiniscript::Taproot(ms.clone()),
        }
    }
}

impl CompiledMiniscript {
    /// Compiles a policy under the rules for `category`.
    pub fn with(policy: &Policy, category: OuterCategory) -> (r: Result<CompiledMiniscript, Error>)
        requires
            crate::policy::is_compilable(policy@),
        ensures
            compiled_outcome(r) == CompiledView::of_policy(policy@, category),
            crate::policy::is_refused(policy@) ==> r is Err,
            match (category, r) {
                (OuterCategory::Bare, Ok(CompiledMiniscript::Bare(ms))) => crate::policy::compiled(
                    policy@,
                    Rules::Bare,
                ) == Ok::<Seq<char>, Seq<char>>(ms@),
                (OuterCategory::Hashed, Ok(CompiledMiniscript::Hashed(ms))) =>
                    crate::policy::compiled(policy@, Rules::Legacy) == Ok::<
                    Seq<char>,
                    Seq<char>,
                >(ms@),
                (OuterCategory::SegWit, Ok(CompiledMiniscript::SegWit(ms))) =>
                    crate::policy::compiled(policy@, Rules::Segwitv0) == Ok::<
                    Seq<char>,
                    Seq<char>,
                >(ms@),
                (OuterCategory::Taproot, Ok(CompiledMiniscript::Taproot(ms))) =>
                    crate::policy::compiled(policy@, Rules::Segwitv0) == Ok::<
                    Seq<char>,
                    Seq<char>,
                >(ms@),
                (_, Ok(_)) => false,
                (place, Err(e)) => e.origin == ErrorOrigin::Compiler && (match place {
                    OuterCategory::Bare => crate::policy::compiled(policy@, Rules::Bare),
                    OuterCategory::Hashed => crate::policy::compiled(policy@, Rules::Legacy),
                    _ => crate::policy::compiled(policy@, Rules::Segwitv0),
                } == Err::<Seq<char>, Seq<char>>(e.message@)),
            },
            crate::policy::policy_validity(policy@) is Err ==> r is Err,
            crate::policy::policy_safety(policy@) != (true, true) ==> r is Err,
    {
        match category {
            OuterCategory::Bare => match policy.compile() {
                Ok(ms) => Ok(CompiledMiniscript::Bare(ms)),
                Err(e) => Err(e),
            },
            OuterCategory::Hashed => match policy.compile() {
                Ok(ms) => Ok(CompiledMiniscript::Hashed(ms)),
                Err(e) => Err(e),
            },
            OuterCategory::SegWit => match policy.compile() {
                Ok(ms) => Ok(CompiledMiniscript::SegWit(ms)),
                Err(e) => Err(e),
            },
            OuterCategory::Taproot => match policy.compile() {
                Ok(ms) => Ok(CompiledMiniscript::Taproot(ms)),
                Err(e) => Err(e),
            },
        }
    }

    /// Compiles a policy under the rules for `category`, if the policy compiler
    /// comes to an end on it.
    pub fn try_with(policy: &Policy, category: OuterCategory) -> (r: Option<
        Result<CompiledMiniscript, Error>,
    >)
        ensures
            r is Some <==> crate::policy::is_compilable(policy@),
            r matches Some(r) ==> compiled_outcome(r) == CompiledView::of_policy(policy@, category),
            r matches Some(r) ==> (crate::policy::is_refused(policy@) ==> r is Err),
            r matches Some(r) ==> match (category, r) {
                (OuterCategory::Bare, Ok(CompiledMiniscript::Bare(ms))) => crate::policy::compiled(
                    policy@,
                    Rules::Bare,
                ) == Ok::<Seq<char>, Seq<char>>(ms@),
                (OuterCategory::Hashed, Ok(CompiledMiniscript::Hashed(ms))) =>
                    crate::policy::compiled(policy@, Rules::Legacy) == Ok::<
                    Seq<char>,
                    Seq<char>,
                >(ms@),
                (OuterCategory::SegWit, Ok(CompiledMiniscript::SegWit(ms))) =>
                    crate::policy::compiled(policy@, Rules::Segwitv0) == Ok::<
                    Seq<char>,
                    Seq<char>,
                >(ms@),
                (OuterCategory::Taproot, Ok(CompiledMiniscript::Taproot(ms))) =>
                    crate::policy::compiled(policy@, Rules::Segwitv0) == Ok::<
                    Seq<char>,
                    Seq<char>,
                >(ms@),
                (_, Ok(_)) => false,
                (place, Err(e)) => e.origin == ErrorOrigin::Compiler && (match place {
                    OuterCategory::Bare => crate::policy::compiled(policy@, Rules::Bare),
                    OuterCategory::Hashed => crate::policy::compiled(policy@, Rules::Legacy),
                    _ => crate::policy::compiled(policy@, Rules::Segwitv0),
                } == Err::<Seq<char>, Seq<char>>(e.message@)),
            },
    {
        if policy.is_compilable() {
            Some(CompiledMiniscript::with(policy, category))
        } else {
            None
        }
    }

    /// Gives the outermost fragment of the descriptor of outputs with this
    /// script.
    pub fn outer_descriptor_type(&self) -> (r: OuterType)
        ensures
            r == self@.category.outer_type(true),
            r == match *self {
                CompiledMiniscript::Bare(_) => OuterType::Bare,
                CompiledMiniscript::Hashed(_) => OuterType::Sh,
                CompiledMiniscript::SegWit(_) => OuterType::Wsh,
                CompiledMiniscript::Taproot(_) => OuterType::Tr,
            },
    {
        match self {
            CompiledMiniscript::Bare(_) => OuterType::Bare,
            CompiledMiniscript::Hashed(_) => OuterType::Sh,
            CompiledMiniscript::SegWit(_) => OuterType::Wsh,
            CompiledMiniscript::Taproot(_) => OuterType::Tr,
        }
    }

    /// Makes the descriptor of outputs with this script, if there is one: there is
    /// none for taproot outputs, nor for a bare script that is not a standard one.
    pub fn checked_descriptor(&self) -> (r: Option<OutputDescriptor>)
        ensures
            crate::descriptor::descriptor_outcome(r) == self@.described(),
            r matches Some(d) ==> crate::descriptor::is_checksummed(d@.text, self@.expression()),
            match *self {
                CompiledMiniscript::Bare(ms) => match crate::descriptor::bare_descriptor(ms@) {
                    Some(text) => (r matches Some(d) && d@.text == text && d@.script == ms@
                        && d@.desc_type == DescriptorType::Bare),
                    None => r is None,
                },
                CompiledMiniscript::Hashed(ms) => (r matches Some(d) && d@.text
                    == crate::descriptor::sh_descriptor(ms@) && d@.script == ms@ && d@.desc_type
                    == DescriptorType::Sh),
                CompiledMiniscript::SegWit(ms) => (r matches Some(d) && d@.text
                    == crate::descriptor::wsh_descriptor(ms@) && d@.script == ms@ && d@.desc_type
                    == DescriptorType::Wsh),
                CompiledMiniscript::Taproot(_) => r is None,
            },
    {
        match self {
            CompiledMiniscript::Bare(ms) => OutputDescriptor::new_bare(ms),
            CompiledMiniscript::Hashed(ms) => Some(OutputDescriptor::new_sh(ms)),
            CompiledMiniscript::SegWit(ms) => Some(OutputDescriptor::new_wsh(ms)),
            CompiledMiniscript::Taproot(_) => None,
        }
    }

    /// Makes the descriptor of outputs with this script.
    pub fn to_descriptor(&self) -> (r: OutputDescriptor)
        requires
            self@.described() is Some,
        ensures
            self@.described() == Some(r@),
            crate::descriptor::is_checksummed(r@.text, self@.expression()),
            match *self {
                CompiledMiniscript::Bare(ms) => r@.desc_type == DescriptorType::Bare && r@.script
                    == ms@ && crate::descriptor::bare_descriptor(ms@) == Some(r@.text),
                CompiledMiniscript::Hashed(ms) => r@.desc_type == DescriptorType::Sh && r@.script
                    == ms@ && r@.text == crate::descriptor::sh_descriptor(ms@),
                CompiledMiniscript::SegWit(ms) => r@.desc_type == DescriptorType::Wsh && r@.script
                    == ms@ && r@.text == crate::descriptor::wsh_descriptor(ms@),
                CompiledMiniscript::Taproot(_) => false,
            },
    {
        match self.checked_descriptor() {
            Some(d) => d,
            None => vstd::pervasive::unreached(),
        }
    }

    /// Gives the text of the miniscript.
    pub fn to_text(&self) -> (r: String)
        ensures
            r@ == self@.miniscript,
            r@ == match *self {
                CompiledMiniscript::Bare(ms) => ms@,
                CompiledMiniscript::Hashed(ms) => ms@,
                CompiledMiniscript::SegWit(ms) => ms@,
                CompiledMiniscript::Taproot(ms) => ms@,
            },
    {
        match self {
            CompiledMiniscript::Bare(ms) => ms.as_str().to_owned(),
            CompiledMiniscript::Hashed(ms) => ms.as_str().to_owned(),
            CompiledMiniscript::SegWit(ms) => ms.as_str().to_owned(),
            CompiledMiniscript::Taproot(ms) => ms.as_str().to_owned(),
        }
    }
}

} // verus!
