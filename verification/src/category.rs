//! Types of contracts, and the categories and types of the outputs that pay to
//! them.
use vstd::prelude::*;
use crate::text::same_text;

verus! {

/// What a contract asks for: one signature, several of them, or whatever a
/// script says.
#[derive(Clone, Copy, PartialEq, Eq, PartialOrd, Ord, Hash, Debug, Structural)]
pub enum ContractType {
    SingleSig,
    MultiSig,
    Script,
}

/// Why a text is not the name of a contract type.
#[derive(PartialEq, Eq, Hash, Debug)]
pub enum ParseError {
    /// No contract type has this name, which is given in lower case and without
    /// white space around it.
    UnrecognizedDescriptorName(String),
}

impl ParseError {
    /// The name that was not recognized.
    pub open spec fn name(self) -> Seq<char> {
        match self {
            ParseError::UnrecognizedDescriptorName(name) => name@,
        }
    }
}

impl ContractType {
    /// The name of the type.
    pub open spec fn name(self) -> Seq<char> {
        match self {
            ContractType::SingleSig => "singlesig"@,
            ContractType::MultiSig => "multisig"@,
            ContractType::Script => "script"@,
        }
    }

    /// The type that has the name `name`, if one has.
    pub open spec fn named(name: Seq<char>) -> Option<ContractType> {
        if name == "singlesig"@ {
            Some(ContractType::SingleSig)
        } else if name == "multisig"@ {
            Some(ContractType::MultiSig)
        } else if name == "script"@ {
            Some(ContractType::Script)
        } else {
            None
        }
    }

    /// Writes the name of the type.
    pub fn to_text(self) -> (r: String)
        ensures
            r@ == self.name(),
            r@ == match self {
                ContractType::SingleSig => "singlesig"@,
                ContractType::MultiSig => "multisig"@,
                ContractType::Script => "script"@,
            },
    {
        match self {
            ContractType::SingleSig => "singlesig".to_owned(),
            ContractType::MultiSig => "multisig".to_owned(),
            ContractType::Script => "script".to_owned(),
        }
    }

    /// Finds the type that `name` names.
    fn from_name(name: &str) -> (r: Option<ContractType>)
        ensures
            r == ContractType::named(name@),
    {
        if same_text(name, "singlesig") {
            Some(ContractType::SingleSig)
        } else if same_text(name, "multisig") {
            Some(ContractType::MultiSig)
        } else if same_text(name, "script") {
            Some(ContractType::Script)
        } else {
            None
        }
    }

    /// Reads the name of a contract type, whatever its case and the white space
    /// around it.
    pub fn from_str(s: &str) -> (r: Result<ContractType, ParseError>)
        ensures
            ({
                let name = crate::text::trimmed(crate::text::lowercase(s@));
                match r {
                    Ok(t) => ContractType::named(name) == Some(t),
                    Err(e) => ContractType::named(name) is None && e.name() == name,
                }
            }),
            ({
                let name = crate::text::trimmed(crate::text::lowercase(s@));
                match r {
                    Ok(ContractType::SingleSig) => name == "singlesig"@,
                    Ok(ContractType::MultiSig) => name == "multisig"@,
                    Ok(ContractType::Script) => name == "script"@,
                    Err(ParseError::UnrecognizedDescriptorName(unknown)) => unknown@ == name && name
                        != "singlesig"@ && name != "multisig"@ && name != "script"@,
                }
            }),
            vstd::utf8::is_ascii_chars(s@) ==> crate::text::lowercase(s@) == s@.map_values(
                |c: char| crate::text::lower_ascii(c),
            ),
    {
        let lower = s.to_lowercase();
        let name = lower.as_str().trim();
        match ContractType::from_name(name) {
            Some(t) => Ok(t),
            None => Err(ParseError::UnrecognizedDescriptorName(name.to_owned())),
        }
    }
}

/// Where the script of an output stands.
#[derive(Clone, Copy, PartialEq, Eq, PartialOrd, Ord, Hash, Debug, Structural)]
pub enum OuterCategory {
    /// In the output itself.
    Bare,
    /// In the input, by its hash.
    Hashed,
    /// In the witness.
    SegWit,
    /// In the witness, under a taproot key.
    Taproot,
}

/// The outermost fragment of a descriptor.
#[derive(Clone, Copy, PartialEq, Eq, PartialOrd, Ord, Hash, Debug, Structural)]
pub enum OuterType {
    Bare,
    Pk,
    Pkh,
    Sh,
    Wpkh,
    Wsh,
    Tr,
}

impl OuterCategory {
    /// The outermost fragment of a descriptor in this category that pays to a
    /// script (`is_script`) or to a single key.
    pub open spec fn outer_type(self, is_script: bool) -> OuterType {
        match self {
            OuterCategory::Bare => if is_script {
                OuterType::Bare
            } else {
                OuterType::Pk
            },
            OuterCategory::Hashed => if is_script {
                OuterType::Sh
            } else {
                OuterType::Pkh
            },
            OuterCategory::SegWit => if is_script {
                OuterType::Wsh
            } else {
                OuterType::Wpkh
            },
            OuterCategory::Taproot => OuterType::Tr,
        }
    }

    /// Gives the outermost fragment of a descriptor in this category that pays
    /// to a script (`is_script`) or to a single key.
    pub fn into_outer_type(self, is_script: bool) -> (r: OuterType)
        ensures
            r == self.outer_type(is_script),
            r == OuterType::Bare <==> self == OuterCategory::Bare && is_script,
            r == OuterType::Pk <==> self == OuterCategory::Bare && !is_script,
            r == OuterType::Sh <==> self == OuterCategory::Hashed && is_script,
            r == OuterType::Pkh <==> self == OuterCategory::Hashed && !is_script,
            r == OuterType::Wsh <==> self == OuterCategory::SegWit && is_script,
            r == OuterType::Wpkh <==> self == OuterCategory::SegWit && !is_script,
            r == OuterType::Tr <==> self == OuterCategory::Taproot,
    {
        match (self, is_script) {
            (OuterCategory::Bare, true) => OuterType::Bare,
            (OuterCategory::Bare, false) => OuterType::Pk,
            (OuterCategory::Hashed, true) => OuterType::Sh,
            (OuterCategory::Hashed, false) => OuterType::Pkh,
            (OuterCategory::SegWit, true) => OuterType::Wsh,
            (OuterCategory::SegWit, false) => OuterType::Wpkh,
            (OuterCategory::Taproot, _) => OuterType::Tr,
        }
    }
}

} // verus!
