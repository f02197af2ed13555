//! Public keys.
use std::str::FromStr;
use vstd::prelude::*;
use crate::error::{Error, ErrorOrigin};

verus! {

/// What `bitcoin::PublicKey` reads from the text `s`: the key, written as the
/// crate writes it, or the reason why `s` is no key.
pub uninterp spec fn read_key(s: Seq<char>) -> Result<Seq<char>, Seq<char>>;

/// Whether the text `s` reads as the key with the text `t`.
pub open spec fn reads_as_key(s: Seq<char>, t: Seq<char>) -> bool {
    read_key(s) == Ok::<Seq<char>, Seq<char>>(t)
}

/// Whether `t` is a public key as `bitcoin::PublicKey` writes it.
pub open spec fn is_key(t: Seq<char>) -> bool {
    reads_as_key(t, t)
}

/// Whether each of `keys` is a public key as `bitcoin::PublicKey` writes it.
pub open spec fn are_keys(keys: Seq<Seq<char>>) -> bool {
    forall|i: int| 0 <= i < keys.len() ==> is_key(#[trigger] keys[i])
}

/// Whether `c` is a hexadecimal digit in lower case.
pub open spec fn is_hex_digit(c: char) -> bool {
    '0' <= c <= '9' || 'a' <= c <= 'f'
}

/// Whether `t` has the shape of a written public key: the hexadecimal notation
/// of 33 bytes, if the key is compressed, or of 65.
pub open spec fn is_key_shaped(t: Seq<char>) -> bool {
    &&& t.len() == 66 || t.len() == 130
    &&& forall|i: int| 0 <= i < t.len() ==> is_hex_digit(#[trigger] t[i])
}

/// `bitcoin::PublicKey::from_str` followed by its `to_string`: the key in the
/// notation of the crate, which is 66 or 130 hexadecimal digits in lower case
/// and reads as itself.
#[verifier::external_body]
fn parse_key(s: &str) -> (r: Result<String, String>)
    ensures
        crate::error::text_outcome(r) == read_key(s@),
        r matches Ok(t) ==> is_key(t@) && is_key_shaped(t@),
{
    bitcoin::PublicKey::from_str(s).map(|key| key.to_string()).map_err(|e| e.to_string())
}

/// A public key, held as the text that `bitcoin::PublicKey` writes for it.
#[derive(PartialEq, Eq, PartialOrd, Ord, Hash, Debug)]
pub struct Key {
    pub(crate) text: String,
}

impl View for Key {
    type V = Seq<char>;

    closed spec fn view(&self) -> Seq<char> {
        self.text@
    }
}

impl Clone for Key {
    fn clone(&self) -> (r: Self)
        ensures
            r@ == self@,
    {
        proof {
            use_type_invariant(self);
        }
        Key { text: self.text.clone() }
    }
}

impl Key {
    #[verifier::type_invariant]
    spec fn well_formed(self) -> bool {
        is_key(self.text@) && is_key_shaped(self.text@)
    }

    /// Reads a public key.
    pub fn from_str(s: &str) -> (r: Result<Key, Error>)
        ensures
            match r {
                Ok(key) => read_key(s@) == Ok::<Seq<char>, Seq<char>>(key@),
                Err(e) => e.origin == ErrorOrigin::Key && read_key(s@) == Err::<
                    Seq<char>,
                    Seq<char>,
                >(e.message@),
            },
            r matches Ok(key) ==> is_key(key@) && is_key_shaped(key@),
    {
        match parse_key(s) {
            Ok(text) => Ok(Key { text }),
            Err(message) => Err(Error { origin: ErrorOrigin::Key, message }),
        }
    }

    /// Gives the text of the key.
    pub fn as_str(&self) -> (r: &str)
        ensures
            r@ == self@,
            is_key(self@),
            is_key_shaped(self@),
    {
        proof {
            use_type_invariant(self);
        }
        self.text.as_str()
    }

    /// Tests whether the key is written with both of its coordinates.
    pub fn is_uncompressed(&self) -> (r: bool)
        ensures
            r == !is_compressed(self@),
            self@.len() == 66 || self@.len() == 130,
            r <==> self@.len() == 130,
    {
        proof {
            use_type_invariant(self);
        }
        self.text.as_str().unicode_len() != 66
    }
}

/// Whether the key `t` is compressed.
pub open spec fn is_compressed(t: Seq<char>) -> bool {
    t.len() == 66
}

/// The texts of `keys`.
pub open spec fn key_texts(keys: Seq<Key>) -> Seq<Seq<char>> {
    keys.map_values(|key: Key| key@)
}

/// Copies a list of keys.
pub fn clone_keys(keys: &Vec<Key>) -> (r: Vec<Key>)
    ensures
        key_texts(r@) == key_texts(keys@),
        r@.len() == keys@.len(),
        forall|i: int| 0 <= i < keys@.len() ==> #[trigger] r@[i]@ == keys@[i]@,
{
    let mut r: Vec<Key> = Vec::new();
    let mut i: usize = 0;
    while i < keys.len()
        invariant
            i <= keys.len(),
            r.len() == i,
            forall|j: int| 0 <= j < i ==> r@[j]@ == keys@[j]@,
        decreases keys.len() - i,
    {
        r.push(keys[i].clone());
        i = i + 1;
    }
    assert(key_texts(r@) =~= key_texts(keys@));
    r
}

/// Looks at every key of a list, so that what holds of a key is known of all.
pub(crate) fn check_keys(keys: &Vec<Key>)
    ensures
        are_keys(key_texts(keys@)),
        forall|i: int|
            0 <= i < keys.len() ==> is_key_shaped(#[trigger] key_texts(keys@)[i]),
{
    let mut i: usize = 0;
    while i < keys.len()
        invariant
            i <= keys.len(),
            forall|j: int|
                0 <= j < i ==> is_key(#[trigger] keys@[j]@) && is_key_shaped(keys@[j]@),
        decreases keys.len() - i,
    {
        keys[i].as_str();
        i = i + 1;
    }
    assert forall|j: int| 0 <= j < keys.len() implies is_key(#[trigger] key_texts(keys@)[j])
        && is_key_shaped(key_texts(keys@)[j]) by {
        assert(key_texts(keys@)[j] == keys@[j]@);
    }
}

} // verus!
