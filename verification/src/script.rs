//! Miniscripts, the rules that they are held to, and the output scripts that
//! commit to a script by its hash.
use std::marker::PhantomData;
use std::str::FromStr;
use miniscript::{
    BareCtx as OutsideBare, Legacy as OutsideLegacy, Miniscript as OutsideMiniscript,
    Segwitv0 as OutsideSegwitv0,
};
use vstd::prelude::*;
use crate::error::{Error, ErrorOrigin};

verus! {

/// The rules that a script is held to, by the place where it stands.
#[derive(Clone, Copy, PartialEq, Eq, PartialOrd, Ord, Hash, Debug, Structural)]
pub enum Rules {
    /// The rules for scripts in outputs.
    Bare,
    /// The rules for scripts in inputs.
    Legacy,
    /// The rules for scripts in witnesses.
    Segwitv0,
}

/// A place where a script can stand.
pub trait ScriptContext: Sized {
    /// The rules for scripts in this place.
    spec fn rules() -> Rules;

    /// Gives the rules for scripts in this place.
    fn get_rules() -> (r: Rules)
        ensures
            r == Self::rules(),
    ;
}

/// An output, as a place for scripts.
#[derive(Clone, Copy, PartialEq, Eq, PartialOrd, Ord, Hash, Debug)]
pub struct BareCtx;

/// An input, as a place for scripts.
#[derive(Clone, Copy, PartialEq, Eq, PartialOrd, Ord, Hash, Debug)]
pub struct Legacy;

/// A witness, as a place for scripts.
#[derive(Clone, Copy, PartialEq, Eq, PartialOrd, Ord, Hash, Debug)]
pub struct Segwitv0;

impl ScriptContext for BareCtx {
    open spec fn rules() -> Rules {
        Rules::Bare
    }

    fn get_rules() -> (r: Rules) {
        Rules::Bare
    }
}

impl ScriptContext for Legacy {
    open spec fn rules() -> Rules {
        Rules::Legacy
    }

    fn get_rules() -> (r: Rules) {
        Rules::Legacy
    }
}

impl ScriptContext for Segwitv0 {
    open spec fn rules() -> Rules {
        Rules::Segwitv0
    }

    fn get_rules() -> (r: Rules) {
        Rules::Segwitv0
    }
}

/// What `miniscript::Miniscript` reads from the text `s` under `rules`: the
/// miniscript, written as the crate writes it, or the reason why `s` is none.
pub uninterp spec fn read_miniscript(s: Seq<char>, rules: Rules) -> Result<Seq<char>, Seq<char>>;

/// Whether `t` is a miniscript under `rules`, as `miniscript::Miniscript` writes
/// it.
pub open spec fn is_miniscript(t: Seq<char>, rules: Rules) -> bool {
    read_miniscript(t, rules) == Ok::<Seq<char>, Seq<char>>(t)
}

/// `miniscript::Miniscript::from_str_insane`, over keys of `bitcoin::PublicKey`
/// and under `rules`, followed by its `to_string`: the miniscript in the notation
/// of the crate, which reads as itself.
#[verifier::external_body]
fn parse_miniscript(s: &str, rules: Rules) -> (r: Result<String, String>)
    ensures
        crate::error::text_outcome(r) == read_miniscript(s@, rules),
        r matches Ok(t) ==> is_miniscript(t@, rules),
{
    match rules {
        Rules::Bare => OutsideMiniscript::<bitcoin::PublicKey, OutsideBare>::from_str_insane(s)
            .map(|ms| ms.to_string()),
        Rules::Legacy => OutsideMiniscript::<bitcoin::PublicKey, OutsideLegacy>::from_str_insane(s)
            .map(|ms| ms.to_string()),
        Rules::Segwitv0 =>
            OutsideMiniscript::<bitcoin::PublicKey, OutsideSegwitv0>::from_str_insane(s)
                .map(|ms| ms.to_string()),
    }.map_err(|e| e.to_string())
}

/// A miniscript under the rules for its place, held as the text that
/// `miniscript::Miniscript` writes for it.
#[derive(PartialEq, Eq, PartialOrd, Ord, Hash, Debug)]
pub struct Miniscript<Ctx: ScriptContext> {
    text: String,
    ctx: PhantomData<Ctx>,
}

impl<Ctx: ScriptContext> View for Miniscript<Ctx> {
    type V = Seq<char>;

    closed spec fn view(&self) -> Seq<char> {
        self.text@
    }
}

impl<Ctx: ScriptContext> Clone for Miniscript<Ctx> {
    fn clone(&self) -> (r: Self)
        ensures
            r@ == self@,
    {
        proof {
            use_type_invariant(self);
        }
        Miniscript { text: self.text.clone(), ctx: PhantomData }
    }
}

impl<Ctx: ScriptContext> Miniscript<Ctx> {
    #[verifier::type_invariant]
    spec fn well_formed(self) -> bool {
        is_miniscript(self.text@, Ctx::rules())
    }

    /// Holds a text that is known to be a miniscript.
    pub(crate) fn from_checked(text: String) -> (r: Miniscript<Ctx>)
        requires
            is_miniscript(text@, Ctx::rules()),
        ensures
            r@ == text@,
    {
        Miniscript { text, ctx: PhantomData }
    }

    /// Reads a miniscript under the rules for its place.
    pub fn from_str(s: &str) -> (r: Result<Miniscript<Ctx>, Error>)
        ensures
            match r {
                Ok(ms) => read_miniscript(s@, Ctx::rules()) == Ok::<Seq<char>, Seq<char>>(ms@),
                Err(e) => e.origin == ErrorOrigin::Miniscript && read_miniscript(s@, Ctx::rules())
                    == Err::<Seq<char>, Seq<char>>(e.message@),
            },
            r matches Ok(ms) ==> is_miniscript(ms@, Ctx::rules()),
    {
        match parse_miniscript(s, Ctx::get_rules()) {
            Ok(text) => Ok(Miniscript { text, ctx: PhantomData }),
            Err(message) => Err(Error { origin: ErrorOrigin::Miniscript, message }),
        }
    }

    /// Gives the text of the miniscript.
    pub fn as_str(&self) -> (r: &str)
        ensures
            r@ == self@,
            is_miniscript(self@, Ctx::rules()),
    {
        proof {
            use_type_invariant(self);
        }
        self.text.as_str()
    }
}

/// The 20 bytes of the hash160 of `bytes`, which is the ripemd160 of its sha256.
pub uninterp spec fn hash160(bytes: Seq<u8>) -> Seq<u8>;

/// `bitcoin::hashes::hash160::Hash::hash`: the 20 bytes of the hash.
#[verifier::external_body]
fn compute_hash160(bytes: &Vec<u8>) -> (r: Vec<u8>)
    ensures
        r@ == hash160(bytes@),
        r@.len() == 20,
{
    <bitcoin::hashes::hash160::Hash as bitcoin::hashes::Hash>::hash(bytes).to_vec()
}

/// The 32 bytes of the sha256 of `bytes`.
pub uninterp spec fn sha256(bytes: Seq<u8>) -> Seq<u8>;

/// `bitcoin::hashes::sha256::Hash::hash`: the 32 bytes of the hash.
#[verifier::external_body]
fn compute_sha256(bytes: &Vec<u8>) -> (r: Vec<u8>)
    ensures
        r@ == sha256(bytes@),
        r@.len() == 32,
{
    <bitcoin::hashes::sha256::Hash as bitcoin::hashes::Hash>::hash(bytes).to_vec()
}

/// The output script that is unlocked by an input with the script `script`: it
/// asks for a script with the same hash160.
pub open spec fn p2sh(script: Seq<u8>) -> Seq<u8> {
    seq![0xa9u8, 0x14u8] + hash160(script) + seq![0x87u8]
}

/// The output script that is unlocked by a witness with the script `script`: it
/// is the version of the witness and the sha256 of the script.
pub open spec fn p2wsh(script: Seq<u8>) -> Seq<u8> {
    seq![0x00u8, 0x20u8] + sha256(script)
}

/// Makes the output script that commits to a script in an input.
pub fn p2sh_script(script: &Vec<u8>) -> (r: Vec<u8>)
    ensures
        r@ == p2sh(script@),
        r@.len() == 23,
        r@[0] == 0xa9 && r@[1] == 0x14 && r@[22] == 0x87,
        r@.subrange(2, 22) == hash160(script@),
{
    let mut hash = compute_hash160(script);
    let mut r: Vec<u8> = Vec::new();
    r.push(0xa9);
    r.push(0x14);
    r.append(&mut hash);
    r.push(0x87);
    assert(r@ =~= p2sh(script@));
    assert(r@.subrange(2, 22) =~= hash160(script@));
    r
}

/// Makes the output script that commits to a script in a witness.
pub fn p2wsh_script(script: &Vec<u8>) -> (r: Vec<u8>)
    ensures
        r@ == p2wsh(script@),
        r@.len() == 34,
        r@[0] == 0x00 && r@[1] == 0x20,
        r@.subrange(2, 34) == sha256(script@),
{
    let mut hash = compute_sha256(script);
    let mut r: Vec<u8> = Vec::new();
    r.push(0x00);
    r.push(0x20);
    r.append(&mut hash);
    assert(r@ =~= p2wsh(script@));
    assert(r@.subrange(2, 34) =~= sha256(script@));
    r
}

} // verus!
