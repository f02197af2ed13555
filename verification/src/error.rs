//! Errors.
use vstd::prelude::*;

verus! {

/// What refused an input.
#[derive(Clone, Copy, PartialEq, Eq, PartialOrd, Ord, Hash, Debug, Structural)]
pub enum ErrorOrigin {
    /// The reader of public keys.
    Key,
    /// The reader of descriptors.
    Descriptor,
    /// The reader of policies.
    Policy,
    /// The reader of miniscripts.
    Miniscript,
    /// The policy compiler.
    Compiler,
    /// The analysis of a descriptor.
    Analysis,
}

/// Why an input was refused.
#[derive(PartialEq, Eq, Hash, Debug)]
pub struct Error {
    /// What refused the input.
    pub origin: ErrorOrigin,
    /// The reason in words.
    pub message: String,
}

/// What refused an input, and its reason.
pub type ErrorView = (ErrorOrigin, Seq<char>);

impl View for Error {
    type V = ErrorView;

    open spec fn view(&self) -> ErrorView {
        (self.origin, self.message@)
    }
}

/// A text or the reason why there is none, by their contents.
pub open spec fn text_outcome(r: Result<String, String>) -> Result<Seq<char>, Seq<char>> {
    match r {
        Ok(t) => Ok(t@),
        Err(e) => Err(e@),
    }
}

} // verus!
