//! Output descriptors.
use std::str::FromStr;
use miniscript::{Descriptor as OutsideDescriptor, DescriptorTrait, Miniscript as OutsideMiniscript};
use vstd::prelude::*;
use crate::category::OuterType;
use crate::error::{Error, ErrorOrigin};
use crate::key::Key;
use crate::parsed::{DescriptorKind, ParsedView, ShInnerView, TerminalView, WshInnerView};
use crate::script::{BareCtx, Legacy, Miniscript, Rules, Segwitv0};

verus! {

/// The outermost fragments of a descriptor.
#[derive(Clone, Copy, PartialEq, Eq, PartialOrd, Ord, Hash, Debug, Structural)]
pub enum DescriptorType {
    Pk,
    Bare,
    Pkh,
    Wpkh,
    ShWpkh,
    Sh,
    ShSortedMulti,
    Wsh,
    WshSortedMulti,
    ShWsh,
    ShWshSortedMulti,
}

/// An output descriptor: its type, the miniscript that it is made of, if it is made
/// of one, and the text that `miniscript::Descriptor` writes for it, with its
/// checksum.
#[derive(PartialEq, Eq, PartialOrd, Ord, Hash, Debug)]
pub struct OutputDescriptor {
    desc_type: DescriptorType,
    script: String,
    text: String,
}

/// An output descriptor, by its contents.
pub struct DescriptorView {
    pub desc_type: DescriptorType,
    pub script: Seq<char>,
    pub text: Seq<char>,
}

impl View for OutputDescriptor {
    type V = DescriptorView;

    closed spec fn view(&self) -> DescriptorView {
        DescriptorView { desc_type: self.desc_type, script: self.script@, text: self.text@ }
    }
}

/// A network that addresses are made for.
#[derive(Clone, Copy, PartialEq, Eq, PartialOrd, Ord, Hash, Debug, Structural)]
pub enum Network {
    Bitcoin,
    Testnet,
    Signet,
    Regtest,
}

/// The name of a network.
pub open spec fn network_name(network: Network) -> Seq<char> {
    match network {
        Network::Bitcoin => "bitcoin"@,
        Network::Testnet => "testnet"@,
        Network::Signet => "signet"@,
        Network::Regtest => "regtest"@,
    }
}

/// An address: its text, and the script in the outputs that pay to it.
#[derive(PartialEq, Eq, PartialOrd, Ord, Hash, Debug)]
pub struct Address {
    pub text: String,
    pub script_pubkey: Vec<u8>,
}

/// An address, by its contents: its text and its output script.
pub type AddressView = (Seq<char>, Seq<u8>);

impl View for Address {
    type V = AddressView;

    open spec fn view(&self) -> AddressView {
        (self.text@, self.script_pubkey@)
    }
}

/// A descriptor, if there is one, by its contents.
pub open spec fn descriptor_outcome(r: Option<OutputDescriptor>) -> Option<DescriptorView> {
    match r {
        Some(d) => Some(d@),
        None => None,
    }
}

/// The descriptor of type `desc_type` that is made of keys and has the text `text`.
pub open spec fn of_keys(desc_type: DescriptorType, text: Seq<char>) -> DescriptorView {
    DescriptorView { desc_type, script: ""@, text }
}

/// The descriptor of type `desc_type` that is made of the miniscript `script` and
/// has the text `text`.
pub open spec fn of_script(
    desc_type: DescriptorType,
    script: Seq<char>,
    text: Seq<char>,
) -> DescriptorView {
    DescriptorView { desc_type, script, text }
}

/// Whether `t` is the expression `e` with a checksum.
pub open spec fn is_checksummed(t: Seq<char>, e: Seq<char>) -> bool {
    &&& t.len() == e.len() + 9
    &&& t.subrange(0, e.len() as int) == e
    &&& t[e.len() as int] == '#'
}

/// The expression `pk(x)`.
pub open spec fn pk_of(x: Seq<char>) -> Seq<char> {
    "pk("@ + x + ")"@
}

/// The expression `sh(x)`.
pub open spec fn sh_of(x: Seq<char>) -> Seq<char> {
    "sh("@ + x + ")"@
}

/// The expression `wsh(x)`.
pub open spec fn wsh_of(x: Seq<char>) -> Seq<char> {
    "wsh("@ + x + ")"@
}

/// The arguments that stand for `keys` in a descriptor, each with the comma before
/// it.
pub open spec fn key_arguments(keys: Seq<Seq<char>>) -> Seq<char>
    decreases keys.len(),
{
    if keys.len() == 0 {
        seq![]
    } else {
        key_arguments(keys.drop_last()) + ","@ + keys.last()
    }
}

/// The miniscript that checks the signatures of `threshold` of `keys`, in the order
/// in which they stand.
pub open spec fn multi(threshold: usize, keys: Seq<Seq<char>>) -> Seq<char> {
    "multi("@ + crate::text::decimal(threshold as nat) + key_arguments(keys) + ")"@
}

/// The expression for the signatures of `threshold` of `keys`, in their
/// lexicographic order.
pub open spec fn sortedmulti(threshold: usize, keys: Seq<Seq<char>>) -> Seq<char> {
    "sortedmulti("@ + crate::text::decimal(threshold as nat) + key_arguments(keys) + ")"@
}

/// What stands in a bare descriptor of the signatures of `threshold` of `keys`.
pub open spec fn bare_multi(threshold: usize, keys: Seq<Seq<char>>) -> ParsedView {
    ParsedView::Bare(TerminalView::Multi(threshold, keys))
}

/// What stands in an `sh` descriptor of the signatures of `threshold` of `keys`.
pub open spec fn sh_multi(threshold: usize, keys: Seq<Seq<char>>) -> ParsedView {
    ParsedView::Sh(ShInnerView::Ms(TerminalView::Multi(threshold, keys)))
}

/// What stands in a `wsh` descriptor of the signatures of `threshold` of `keys`.
pub open spec fn wsh_multi(threshold: usize, keys: Seq<Seq<char>>) -> ParsedView {
    ParsedView::Wsh(WshInnerView::Ms(TerminalView::Multi(threshold, keys)))
}

/// Whether an input can hold the script that checks the signatures of `threshold`
/// of `count` keys.
pub open spec fn fits_input(threshold: usize, count: nat) -> bool {
    0 < threshold <= count <= 15
}

/// Whether a witness that is relayed can hold the script that checks the signatures
/// of `threshold` of `count` keys, and as many signatures.
pub open spec fn fits_witness(threshold: usize, count: nat) -> bool {
    0 < threshold <= count <= 105 && threshold <= 98
}

/// Whether `a` and `b` are the same compressed keys, each as often, in any order.
pub open spec fn are_reordered(a: Seq<Seq<char>>, b: Seq<Seq<char>>) -> bool {
    &&& a.to_multiset() == b.to_multiset()
    &&& forall|i: int|
        0 <= i < a.len() ==> crate::key::is_key(#[trigger] a[i]) && crate::key::is_compressed(a[i])
}

/// The outermost fragment of a descriptor of type `t`, or that of the witness
/// descriptor that is nested in it.
pub open spec fn outer_type_of(t: DescriptorType) -> OuterType {
    match t {
        DescriptorType::Pk => OuterType::Pk,
        DescriptorType::Bare => OuterType::Bare,
        DescriptorType::Pkh => OuterType::Pkh,
        DescriptorType::Wpkh => OuterType::Wpkh,
        DescriptorType::ShWpkh => OuterType::Wpkh,
        DescriptorType::Sh => OuterType::Sh,
        DescriptorType::ShSortedMulti => OuterType::Sh,
        DescriptorType::Wsh => OuterType::Wsh,
        DescriptorType::WshSortedMulti => OuterType::Wsh,
        DescriptorType::ShWsh => OuterType::Wsh,
        DescriptorType::ShWshSortedMulti => OuterType::Wsh,
    }
}

/// Whether a descriptor of type `t` is a witness descriptor nested in a script
/// hash.
pub open spec fn is_nested_type(t: DescriptorType) -> bool {
    t == DescriptorType::ShWpkh || t == DescriptorType::ShWsh || t
        == DescriptorType::ShWshSortedMulti
}

/// Whether `d` is a descriptor of its type that can be made again: from its
/// miniscript, if it is made of one, or else from its text, which reads as a
/// descriptor of that type.
pub open spec fn is_made(d: DescriptorView) -> bool {
    match d.desc_type {
        DescriptorType::Bare => {
            &&& crate::script::is_miniscript(d.script, Rules::Bare)
            &&& bare_descriptor(d.script) == Some(d.text)
        },
        DescriptorType::Sh => {
            &&& crate::script::is_miniscript(d.script, Rules::Legacy)
            &&& d.text == sh_descriptor(d.script)
        },
        DescriptorType::Wsh => {
            &&& crate::script::is_miniscript(d.script, Rules::Segwitv0)
            &&& d.text == wsh_descriptor(d.script)
        },
        DescriptorType::ShWsh => {
            &&& crate::script::is_miniscript(d.script, Rules::Segwitv0)
            &&& d.text == sh_wsh_descriptor(d.script)
        },
        DescriptorType::Pk => crate::parsed::has_kind(d.text, DescriptorKind::Bare),
        DescriptorType::Pkh => crate::parsed::has_kind(d.text, DescriptorKind::Pkh),
        DescriptorType::Wpkh => crate::parsed::has_kind(d.text, DescriptorKind::Wpkh),
        DescriptorType::ShWpkh => crate::parsed::reads_as(
            d.text,
            ParsedView::Sh(ShInnerView::Wpkh),
        ),
        DescriptorType::ShSortedMulti => {
            crate::parsed::parsed(d.text) matches Ok(p) && p is Sh && p.is_sorted()
        },
        DescriptorType::WshSortedMulti => {
            crate::parsed::parsed(d.text) matches Ok(p) && p is Wsh && p.is_sorted()
        },
        DescriptorType::ShWshSortedMulti => crate::parsed::reads_as(
            d.text,
            ParsedView::Sh(ShInnerView::Wsh),
        ),
    }
}

/// A text, if there is one, by its contents.
pub open spec fn text_option(r: Option<String>) -> Option<Seq<char>> {
    match r {
        Some(t) => Some(t@),
        None => None,
    }
}

/// The text of the `pk` descriptor for the key `key`.
pub uninterp spec fn pk_descriptor(key: Seq<char>) -> Seq<char>;

/// `miniscript::Descriptor::new_pk`: the bare script that checks one key, which is
/// written as `pk(..)` with a checksum and reads as a bare descriptor.
#[verifier::external_body]
fn make_pk(key: &Key) -> (r: String)
    ensures
        r@ == pk_descriptor(key@),
        is_checksummed(r@, pk_of(key@)),
        crate::parsed::reads_as(r@, ParsedView::Bare(crate::parsed::bare_node(r@))),
{
    let key = bitcoin::PublicKey::from_str(&key.text).unwrap();
    OutsideDescriptor::new_pk(key).to_string()
}

/// The text of the `pkh` descriptor for the key `key`.
pub uninterp spec fn pkh_descriptor(key: Seq<char>) -> Seq<char>;

/// `miniscript::Descriptor::new_pkh`, which is written as `pkh(..)` with a checksum
/// and reads as what it is.
#[verifier::external_body]
fn make_pkh(key: &Key) -> (r: String)
    ensures
        r@ == pkh_descriptor(key@),
        is_checksummed(r@, crate::parsed::pkh_of(key@)),
        crate::parsed::reads_as(r@, ParsedView::Pkh(key@)),
{
    let key = bitcoin::PublicKey::from_str(&key.text).unwrap();
    OutsideDescriptor::new_pkh(key).to_string()
}

/// The text of the `wpkh` descriptor for the key `key`, which is compressed.
pub uninterp spec fn wpkh_descriptor(key: Seq<char>) -> Seq<char>;

/// `miniscript::Descriptor::new_wpkh`, which refuses the keys that are not
/// compressed. The descriptor is written as `wpkh(..)` with a checksum and reads as
/// what it is.
#[verifier::external_body]
fn make_wpkh(key: &Key) -> (r: Option<String>)
    ensures
        r is Some <==> crate::key::is_compressed(key@),
        r matches Some(t) ==> {
            &&& t@ == wpkh_descriptor(key@)
            &&& is_checksummed(t@, crate::parsed::wpkh_of(key@))
            &&& crate::parsed::reads_as(t@, ParsedView::Wpkh(key@))
        },
{
    let key = bitcoin::PublicKey::from_str(&key.text).ok()?;
    OutsideDescriptor::new_wpkh(key).ok().map(|d| d.to_string())
}

/// The text of the `wpkh` descriptor nested in a script hash for the key `key`,
/// which is compressed.
pub uninterp spec fn sh_wpkh_descriptor(key: Seq<char>) -> Seq<char>;

/// `miniscript::Descriptor::new_sh_wpkh`, which refuses the keys that are not
/// compressed. The descriptor is written as `sh(wpkh(..))` with a checksum and
/// reads as what it is.
#[verifier::external_body]
fn make_sh_wpkh(key: &Key) -> (r: Option<String>)
    ensures
        r is Some <==> crate::key::is_compressed(key@),
        r matches Some(t) ==> {
            &&& t@ == sh_wpkh_descriptor(key@)
            &&& is_checksummed(t@, sh_of(crate::parsed::wpkh_of(key@)))
            &&& crate::parsed::reads_as(t@, ParsedView::Sh(ShInnerView::Wpkh))
        },
{
    let key = bitcoin::PublicKey::from_str(&key.text).ok()?;
    OutsideDescriptor::new_sh_wpkh(key).ok().map(|d| d.to_string())
}

/// The text of the bare descriptor with the miniscript `ms`, if there is one.
pub uninterp spec fn bare_descriptor(ms: Seq<char>) -> Option<Seq<char>>;

/// `miniscript::Descriptor::new_bare` on a miniscript under the rules for outputs,
/// which refuses all but the checks of one key, of the hash of one, and of up to
/// three keys. The descriptor is written as the miniscript with a checksum. That of
/// several keys reads as what it is, and that of one key is the one that `new_pk`
/// makes. Which other miniscripts are checks of a key is not said.
#[verifier::external_body]
fn make_bare(ms: &str) -> (r: Option<String>)
    requires
        crate::script::is_miniscript(ms@, Rules::Bare),
    ensures
        text_option(r) == bare_descriptor(ms@),
        forall|k: usize, keys: Seq<Seq<char>>|
            ms@ == #[trigger] multi(k, keys) && crate::key::are_keys(keys) ==> (r is Some
                <==> keys.len() <= 3),
        forall|key: Seq<char>|
            ms@ == #[trigger] pk_of(key) && crate::key::is_key(key)
                ==> text_option(r) == Some(
                pk_descriptor(key),
            ),
        r matches Some(d) ==> is_checksummed(d@, ms@),
        r matches Some(d) ==> forall|k: usize, keys: Seq<Seq<char>>|
            ms@ == #[trigger] multi(k, keys) && crate::key::are_keys(keys)
                ==> crate::parsed::reads_as(d@, bare_multi(k, keys)),
{
    let ms = OutsideMiniscript::<bitcoin::PublicKey, _>::from_str_insane(ms).ok()?;
    OutsideDescriptor::new_bare(ms).ok().map(|d| d.to_string())
}

/// The text of the `sh` descriptor with the miniscript `ms`.
pub uninterp spec fn sh_descriptor(ms: Seq<char>) -> Seq<char>;

/// `miniscript::Descriptor::new_sh` on a miniscript under the rules for inputs,
/// none of which it refuses. The descriptor is written as `sh(..)` with a checksum.
/// That of several keys reads as what it is.
#[verifier::external_body]
fn make_sh(ms: &str) -> (r: String)
    requires
        crate::script::is_miniscript(ms@, Rules::Legacy),
    ensures
        r@ == sh_descriptor(ms@),
        is_checksummed(r@, sh_of(ms@)),
        forall|k: usize, keys: Seq<Seq<char>>|
            ms@ == #[trigger] multi(k, keys) && crate::key::are_keys(keys)
                ==> crate::parsed::reads_as(r@, sh_multi(k, keys)),
{
    let ms = OutsideMiniscript::<bitcoin::PublicKey, _>::from_str_insane(ms).unwrap();
    OutsideDescriptor::new_sh(ms).unwrap().to_string()
}

/// The text of the `wsh` descriptor with the miniscript `ms`.
pub uninterp spec fn wsh_descriptor(ms: Seq<char>) -> Seq<char>;

/// `miniscript::Descriptor::new_wsh` on a miniscript under the rules for witnesses,
/// none of which it refuses. The descriptor is written as `wsh(..)` with a
/// checksum. That of several keys reads as what it is.
#[verifier::external_body]
fn make_wsh(ms: &str) -> (r: String)
    requires
        crate::script::is_miniscript(ms@, Rules::Segwitv0),
    ensures
        r@ == wsh_descriptor(ms@),
        is_checksummed(r@, wsh_of(ms@)),
        forall|k: usize, keys: Seq<Seq<char>>|
            ms@ == #[trigger] multi(k, keys) && crate::key::are_keys(keys)
                ==> crate::parsed::reads_as(r@, wsh_multi(k, keys)),
{
    let ms = OutsideMiniscript::<bitcoin::PublicKey, _>::from_str_insane(ms).unwrap();
    OutsideDescriptor::new_wsh(ms).unwrap().to_string()
}

/// The text of the `wsh` descriptor nested in a script hash, with the miniscript
/// `ms`.
pub uninterp spec fn sh_wsh_descriptor(ms: Seq<char>) -> Seq<char>;

/// `miniscript::Descriptor::new_sh_wsh` on a miniscript under the rules for
/// witnesses, none of which it refuses. The descriptor is written as `sh(wsh(..))`
/// with a checksum. That of several keys reads as what it is.
#[verifier::external_body]
fn make_sh_wsh(ms: &str) -> (r: String)
    requires
        crate::script::is_miniscript(ms@, Rules::Segwitv0),
    ensures
        r@ == sh_wsh_descriptor(ms@),
        is_checksummed(r@, sh_of(wsh_of(ms@))),
        forall|k: usize, keys: Seq<Seq<char>>|
            ms@ == #[trigger] multi(k, keys) && crate::key::are_keys(keys)
                ==> crate::parsed::reads_as(r@, ParsedView::Sh(ShInnerView::Wsh)),
{
    let ms = OutsideMiniscript::<bitcoin::PublicKey, _>::from_str_insane(ms).unwrap();
    OutsideDescriptor::new_sh_wsh(ms).unwrap().to_string()
}

/// The text of the `sh` descriptor with the signatures of `threshold` of `keys` in
/// their lexicographic order, where these are within the limits.
pub uninterp spec fn sh_sortedmulti_descriptor(
    threshold: usize,
    keys: Seq<Seq<char>>,
) -> Seq<char>;

/// `miniscript::Descriptor::new_sh_sortedmulti`, which refuses a threshold of zero
/// or above the number of keys, and scripts above 520 bytes. The descriptor is
/// written with its keys as they stand and a checksum, and reads as what it is.
#[verifier::external_body]
fn make_sh_sortedmulti(threshold: usize, keys: &Vec<Key>) -> (r: Option<String>)
    ensures
        r is Some <==> fits_input(threshold, keys@.len()),
        r matches Some(t) ==> {
            &&& t@ == sh_sortedmulti_descriptor(threshold, crate::key::key_texts(keys@))
            &&& is_checksummed(
                t@,
                sh_of(sortedmulti(threshold, crate::key::key_texts(keys@))),
            )
            &&& crate::parsed::reads_as(
                t@,
                ParsedView::Sh(
                    ShInnerView::SortedMulti(threshold, crate::key::key_texts(keys@)),
                ),
            )
        },
{
    let keys = keys.iter().map(|key| bitcoin::PublicKey::from_str(&key.text));
    let keys: Vec<bitcoin::PublicKey> = keys.collect::<Result<_, _>>().ok()?;
    OutsideDescriptor::new_sh_sortedmulti(threshold, keys).ok().map(|d| d.to_string())
}

/// The text of the `wsh` descriptor with the signatures of `threshold` of `keys` in
/// their lexicographic order, where these are within the limits.
pub uninterp spec fn wsh_sortedmulti_descriptor(
    threshold: usize,
    keys: Seq<Seq<char>>,
) -> Seq<char>;

/// `miniscript::Descriptor::new_wsh_sortedmulti`, which refuses a threshold of zero
/// or above the number of keys, and scripts above 3600 bytes or witnesses of more
/// than 100 items. The descriptor is written with its keys as they stand and a
/// checksum, and reads as what it is.
#[verifier::external_body]
fn make_wsh_sortedmulti(threshold: usize, keys: &Vec<Key>) -> (r: Option<String>)
    ensures
        r is Some <==> fits_witness(threshold, keys@.len()),
        r matches Some(t) ==> {
            &&& t@ == wsh_sortedmulti_descriptor(threshold, crate::key::key_texts(keys@))
            &&& is_checksummed(
                t@,
                wsh_of(sortedmulti(threshold, crate::key::key_texts(keys@))),
            )
            &&& crate::parsed::reads_as(
                t@,
                ParsedView::Wsh(
                    WshInnerView::SortedMulti(threshold, crate::key::key_texts(keys@)),
                ),
            )
        },
{
    let keys = keys.iter().map(|key| bitcoin::PublicKey::from_str(&key.text));
    let keys: Vec<bitcoin::PublicKey> = keys.collect::<Result<_, _>>().ok()?;
    OutsideDescriptor::new_wsh_sortedmulti(threshold, keys).ok().map(|d| d.to_string())
}

/// The text of the `wsh` descriptor nested in a script hash, with the signatures of
/// `threshold` of `keys` in their lexicographic order, where these are within the
/// limits.
pub uninterp spec fn sh_wsh_sortedmulti_descriptor(
    threshold: usize,
    keys: Seq<Seq<char>>,
) -> Seq<char>;

/// `miniscript::Descriptor::new_sh_wsh_sortedmulti`, which refuses a threshold of
/// zero or above the number of keys, and scripts above 3600 bytes or witnesses of
/// more than 100 items. The descriptor is written with its keys as they stand and a
/// checksum, and reads as what it is.
#[verifier::external_body]
fn make_sh_wsh_sortedmulti(threshold: usize, keys: &Vec<Key>) -> (r: Option<String>)
    ensures
        r is Some <==> fits_witness(threshold, keys@.len()),
        r matches Some(t) ==> {
            &&& t@ == sh_wsh_sortedmulti_descriptor(threshold, crate::key::key_texts(keys@))
            &&& is_checksummed(
                t@,
                sh_of(
                    wsh_of(sortedmulti(threshold, crate::key::key_texts(keys@))),
                ),
            )
            &&& crate::parsed::reads_as(
                t@,
                ParsedView::Sh(ShInnerView::Wsh),
            )
        },
{
    let keys = keys.iter().map(|key| bitcoin::PublicKey::from_str(&key.text));
    let keys: Vec<bitcoin::PublicKey> = keys.collect::<Result<_, _>>().ok()?;
    OutsideDescriptor::new_sh_wsh_sortedmulti(threshold, keys).ok().map(|d| d.to_string())
}

/// What the analysis of the descriptor with the text `t` finds against it.
pub uninterp spec fn sanity(t: Seq<char>) -> Result<(), Seq<char>>;

/// The address of the descriptor with the text `t` on the network of the name
/// `network`, or the reason why it has none.
pub uninterp spec fn address_of(t: Seq<char>, network: Seq<char>) -> Result<
    AddressView,
    Seq<char>,
>;

/// The script in the outputs that the descriptor with the text `t` describes.
pub uninterp spec fn output_script(t: Seq<char>) -> Seq<u8>;

/// The script in an input, not yet signed, that spends such an output.
pub uninterp spec fn unsigned_input_script(t: Seq<char>) -> Seq<u8>;

/// The script of the descriptor with the text `t` before any hashing.
pub uninterp spec fn script_before_hashing(t: Seq<char>) -> Seq<u8>;

/// A bound on the weight of what satisfies the descriptor with the text `t`, or the
/// reason why nothing does.
pub uninterp spec fn satisfaction_weight(t: Seq<char>) -> Result<usize, Seq<char>>;

/// The script that signatures for an output of the descriptor with the text `t`
/// commit to.
pub uninterp spec fn signed_script(t: Seq<char>) -> Seq<u8>;

/// A value or the reason why there is none, by its contents.
pub open spec fn outcome<T>(r: Result<T, Error>) -> Result<T, crate::error::ErrorView> {
    match r {
        Ok(v) => Ok(v),
        Err(e) => Err(e@),
    }
}

/// An address or the reason why there is none, by their contents.
pub open spec fn address_outcome(r: Result<Address, Error>) -> Result<
    AddressView,
    crate::error::ErrorView,
> {
    match r {
        Ok(a) => Ok(a@),
        Err(e) => Err(e@),
    }
}

/// The text and the output script of an address, or the reason why there is none,
/// by their contents.
pub open spec fn plain_address(r: Result<(String, Vec<u8>), String>) -> Result<
    AddressView,
    Seq<char>,
> {
    match r {
        Ok(a) => Ok((a.0@, a.1@)),
        Err(e) => Err(e@),
    }
}

/// A result of the analysis of a descriptor.
pub open spec fn analysed<T>(r: Result<T, Seq<char>>) -> Result<T, crate::error::ErrorView> {
    match r {
        Ok(v) => Ok(v),
        Err(e) => Err((ErrorOrigin::Analysis, e)),
    }
}

/// The script in the outputs of a descriptor of type `t`, the script of which is
/// `script` before any hashing: that script itself, or what commits to it by its
/// hash.
pub open spec fn output_of(t: DescriptorType, script: Seq<u8>) -> Seq<u8> {
    match t {
        DescriptorType::Pk => script,
        DescriptorType::Bare => script,
        DescriptorType::Pkh => script,
        DescriptorType::Wpkh => script,
        DescriptorType::ShWpkh => crate::script::p2sh(script),
        DescriptorType::Sh => crate::script::p2sh(script),
        DescriptorType::ShSortedMulti => crate::script::p2sh(script),
        DescriptorType::Wsh => crate::script::p2wsh(script),
        DescriptorType::WshSortedMulti => crate::script::p2wsh(script),
        DescriptorType::ShWsh => crate::script::p2sh(crate::script::p2wsh(script)),
        DescriptorType::ShWshSortedMulti => crate::script::p2sh(crate::script::p2wsh(script)),
    }
}

/// `miniscript::DescriptorTrait::sanity_check` on the descriptor made again:
/// whether every way to spend is possible, needs a signature and cannot be
/// malleated. Nothing is found against the descriptors of one key's hash.
#[verifier::external_body]
fn outside_sanity_check(d: &OutputDescriptor) -> (r: Result<(), Error>)
    requires
        is_made(d@),
    ensures
        outcome(r) == analysed(sanity(d@.text)),
        outer_type_of(d@.desc_type) == OuterType::Pkh || outer_type_of(d@.desc_type)
            == OuterType::Wpkh ==> r is Ok,
{
    let value = match d.desc_type {
        DescriptorType::Bare => OutsideMiniscript::from_str_insane(&d.script)
            .and_then(OutsideDescriptor::new_bare),
        DescriptorType::Sh => OutsideMiniscript::from_str_insane(&d.script)
            .and_then(OutsideDescriptor::new_sh),
        DescriptorType::Wsh => OutsideMiniscript::from_str_insane(&d.script)
            .and_then(OutsideDescriptor::new_wsh),
        DescriptorType::ShWsh => OutsideMiniscript::from_str_insane(&d.script)
            .and_then(OutsideDescriptor::new_sh_wsh),
        _ => OutsideDescriptor::<bitcoin::PublicKey>::from_str(&d.text),
    }.unwrap();
    value.sanity_check().map_err(|e| Error {
        origin: ErrorOrigin::Analysis,
        message: e.to_string(),
    })
}

/// `miniscript::DescriptorTrait::address` on the descriptor made again: the address
/// on a network and the script that pays to it, which is that of the outputs. All
/// but bare descriptors have one.
#[verifier::external_body]
fn outside_address(d: &OutputDescriptor, network: &str) -> (r: Result<(String, Vec<u8>), String>)
    requires
        is_made(d@),
        exists|n: Network| network@ == network_name(n),
    ensures
        plain_address(r) == address_of(d@.text, network@),
        r is Err <==> (d@.desc_type == DescriptorType::Bare || d@.desc_type == DescriptorType::Pk),
        r matches Ok(a) ==> a.1@ == output_script(d@.text),
{
    let value = match d.desc_type {
        DescriptorType::Bare => OutsideMiniscript::from_str_insane(&d.script)
            .and_then(OutsideDescriptor::new_bare),
        DescriptorType::Sh => OutsideMiniscript::from_str_insane(&d.script)
            .and_then(OutsideDescriptor::new_sh),
        DescriptorType::Wsh => OutsideMiniscript::from_str_insane(&d.script)
            .and_then(OutsideDescriptor::new_wsh),
        DescriptorType::ShWsh => OutsideMiniscript::from_str_insane(&d.script)
            .and_then(OutsideDescriptor::new_sh_wsh),
        _ => OutsideDescriptor::<bitcoin::PublicKey>::from_str(&d.text),
    }.unwrap();
    let address = value.address(bitcoin::Network::from_str(network).unwrap());
    let address = address.map(|a| (a.to_string(), a.script_pubkey().into_bytes()));
    address.map_err(|e| e.to_string())
}

/// `miniscript::DescriptorTrait::script_pubkey` on the descriptor made again: the
/// bytes of the script in the outputs. That of sorted compressed keys is the same
/// in whatever order they are given.
#[verifier::external_body]
fn outside_script_pubkey(d: &OutputDescriptor) -> (r: Vec<u8>)
    requires
        is_made(d@),
    ensures
        r@ == output_script(d@.text),
        forall|k: usize, a: Seq<Seq<char>>, b: Seq<Seq<char>>|
            #![trigger sh_sortedmulti_descriptor(k, a), sh_sortedmulti_descriptor(k, b)]
            d@ == of_keys(DescriptorType::ShSortedMulti, sh_sortedmulti_descriptor(k, a))
                && fits_input(k, a.len()) && are_reordered(a, b) ==> r@ == output_script(
                sh_sortedmulti_descriptor(k, b),
            ),
        forall|k: usize, a: Seq<Seq<char>>, b: Seq<Seq<char>>|
            #![trigger wsh_sortedmulti_descriptor(k, a), wsh_sortedmulti_descriptor(k, b)]
            d@ == of_keys(DescriptorType::WshSortedMulti, wsh_sortedmulti_descriptor(k, a))
                && fits_witness(k, a.len()) && are_reordered(a, b) ==> r@ == output_script(
                wsh_sortedmulti_descriptor(k, b),
            ),
{
    let value = match d.desc_type {
        DescriptorType::Bare => OutsideMiniscript::from_str_insane(&d.script)
            .and_then(OutsideDescriptor::new_bare),
        DescriptorType::Sh => OutsideMiniscript::from_str_insane(&d.script)
            .and_then(OutsideDescriptor::new_sh),
        DescriptorType::Wsh => OutsideMiniscript::from_str_insane(&d.script)
            .and_then(OutsideDescriptor::new_wsh),
        DescriptorType::ShWsh => OutsideMiniscript::from_str_insane(&d.script)
            .and_then(OutsideDescriptor::new_sh_wsh),
        _ => OutsideDescriptor::<bitcoin::PublicKey>::from_str(&d.text),
    }.unwrap();
    value.script_pubkey().into_bytes()
}

/// `miniscript::DescriptorTrait::unsigned_script_sig` on the descriptor made again:
/// the bytes of the script in an input before it is signed, of which there are none
/// but for witness descriptors in a script hash.
#[verifier::external_body]
fn outside_unsigned_script_sig(d: &OutputDescriptor) -> (r: Vec<u8>)
    requires
        is_made(d@),
    ensures
        r@ == unsigned_input_script(d@.text),
        !is_nested_type(d@.desc_type) ==> r@ == Seq::<u8>::empty(),
{
    let value = match d.desc_type {
        DescriptorType::Bare => OutsideMiniscript::from_str_insane(&d.script)
            .and_then(OutsideDescriptor::new_bare),
        DescriptorType::Sh => OutsideMiniscript::from_str_insane(&d.script)
            .and_then(OutsideDescriptor::new_sh),
        DescriptorType::Wsh => OutsideMiniscript::from_str_insane(&d.script)
            .and_then(OutsideDescriptor::new_wsh),
        DescriptorType::ShWsh => OutsideMiniscript::from_str_insane(&d.script)
            .and_then(OutsideDescriptor::new_sh_wsh),
        _ => OutsideDescriptor::<bitcoin::PublicKey>::from_str(&d.text),
    }.unwrap();
    value.unsigned_script_sig().into_bytes()
}

/// `miniscript::DescriptorTrait::explicit_script` on the descriptor made again: the
/// bytes of the script before any hashing. The script in the outputs is this one or
/// commits to it by its hash.
#[verifier::external_body]
fn outside_explicit_script(d: &OutputDescriptor) -> (r: Vec<u8>)
    requires
        is_made(d@),
    ensures
        r@ == script_before_hashing(d@.text),
        output_script(d@.text) == output_of(d@.desc_type, r@),
{
    let value = match d.desc_type {
        DescriptorType::Bare => OutsideMiniscript::from_str_insane(&d.script)
            .and_then(OutsideDescriptor::new_bare),
        DescriptorType::Sh => OutsideMiniscript::from_str_insane(&d.script)
            .and_then(OutsideDescriptor::new_sh),
        DescriptorType::Wsh => OutsideMiniscript::from_str_insane(&d.script)
            .and_then(OutsideDescriptor::new_wsh),
        DescriptorType::ShWsh => OutsideMiniscript::from_str_insane(&d.script)
            .and_then(OutsideDescriptor::new_sh_wsh),
        _ => OutsideDescriptor::<bitcoin::PublicKey>::from_str(&d.text),
    }.unwrap();
    value.explicit_script().into_bytes()
}

/// `miniscript::DescriptorTrait::max_satisfaction_weight` on the descriptor made
/// again: a bound on the weight of what satisfies the descriptor, or an error where
/// nothing does.
#[verifier::external_body]
fn outside_max_satisfaction_weight(d: &OutputDescriptor) -> (r: Result<usize, Error>)
    requires
        is_made(d@),
    ensures
        outcome(r) == analysed(satisfaction_weight(d@.text)),
{
    let value = match d.desc_type {
        DescriptorType::Bare => OutsideMiniscript::from_str_insane(&d.script)
            .and_then(OutsideDescriptor::new_bare),
        DescriptorType::Sh => OutsideMiniscript::from_str_insane(&d.script)
            .and_then(OutsideDescriptor::new_sh),
        DescriptorType::Wsh => OutsideMiniscript::from_str_insane(&d.script)
            .and_then(OutsideDescriptor::new_wsh),
        DescriptorType::ShWsh => OutsideMiniscript::from_str_insane(&d.script)
            .and_then(OutsideDescriptor::new_sh_wsh),
        _ => OutsideDescriptor::<bitcoin::PublicKey>::from_str(&d.text),
    }.unwrap();
    value.max_satisfaction_weight().map_err(|e| Error {
        origin: ErrorOrigin::Analysis,
        message: e.to_string(),
    })
}

/// `miniscript::DescriptorTrait::script_code` on the descriptor made again: the
/// bytes of the script that signatures commit to, which is that of the outputs
/// where no script is hashed, and the hashed script where one is.
#[verifier::external_body]
fn outside_script_code(d: &OutputDescriptor) -> (r: Vec<u8>)
    requires
        is_made(d@),
    ensures
        r@ == signed_script(d@.text),
        match outer_type_of(d@.desc_type) {
            OuterType::Pk => r@ == output_script(d@.text),
            OuterType::Bare => r@ == output_script(d@.text),
            OuterType::Pkh => r@ == output_script(d@.text),
            OuterType::Sh => r@ == script_before_hashing(d@.text),
            OuterType::Wsh => r@ == script_before_hashing(d@.text),
            _ => true,
        },
{
    let value = match d.desc_type {
        DescriptorType::Bare => OutsideMiniscript::from_str_insane(&d.script)
            .and_then(OutsideDescriptor::new_bare),
        DescriptorType::Sh => OutsideMiniscript::from_str_insane(&d.script)
            .and_then(OutsideDescriptor::new_sh),
        DescriptorType::Wsh => OutsideMiniscript::from_str_insane(&d.script)
            .and_then(OutsideDescriptor::new_wsh),
        DescriptorType::ShWsh => OutsideMiniscript::from_str_insane(&d.script)
            .and_then(OutsideDescriptor::new_sh_wsh),
        _ => OutsideDescriptor::<bitcoin::PublicKey>::from_str(&d.text),
    }.unwrap();
    value.script_code().into_bytes()
}

impl OutputDescriptor {
    #[verifier::type_invariant]
    spec fn well_formed(self) -> bool {
        is_made(self@)
    }

    /// Gives the type of the descriptor.
    pub fn desc_type(&self) -> (r: DescriptorType)
        ensures
            r == self@.desc_type,
    {
        self.desc_type
    }

    /// Gives the text of the descriptor.
    pub fn as_str(&self) -> (r: &str)
        ensures
            r@ == self@.text,
    {
        self.text.as_str()
    }

    /// Gives the text of the miniscript that the descriptor is made of, which is
    /// empty if it is made of none.
    pub fn script(&self) -> (r: &str)
        ensures
            r@ == self@.script,
    {
        self.script.as_str()
    }

    fn with_keys(desc_type: DescriptorType, text: String) -> (r: OutputDescriptor)
        requires
            is_made(of_keys(desc_type, text@)),
        ensures
            r@ == of_keys(desc_type, text@),
    {
        OutputDescriptor { desc_type, script: "".to_owned(), text }
    }

    /// Makes the `pk` descriptor for a key.
    pub fn new_pk(key: &Key) -> (r: OutputDescriptor)
        ensures
            r@ == of_keys(DescriptorType::Pk, pk_descriptor(key@)),
            r@.desc_type == DescriptorType::Pk,
            r@.script == ""@,
            r@.text == pk_descriptor(key@),
            is_checksummed(r@.text, pk_of(key@)),
            crate::parsed::reads_as(r@.text, ParsedView::Bare(crate::parsed::bare_node(r@.text))),
    {
        OutputDescriptor::with_keys(DescriptorType::Pk, make_pk(key))
    }

    /// Makes the `pkh` descriptor for a key.
    pub fn new_pkh(key: &Key) -> (r: OutputDescriptor)
        ensures
            r@ == of_keys(DescriptorType::Pkh, pkh_descriptor(key@)),
            r@.desc_type == DescriptorType::Pkh,
            r@.script == ""@,
            r@.text == pkh_descriptor(key@),
            is_checksummed(r@.text, crate::parsed::pkh_of(key@)),
            crate::parsed::reads_as(r@.text, ParsedView::Pkh(key@)),
    {
        OutputDescriptor::with_keys(DescriptorType::Pkh, make_pkh(key))
    }

    /// Makes the `wpkh` descriptor for a key, if the key is compressed.
    pub fn new_wpkh(key: &Key) -> (r: Option<OutputDescriptor>)
        ensures
            descriptor_outcome(r) == if crate::key::is_compressed(key@) {
                Some(of_keys(DescriptorType::Wpkh, wpkh_descriptor(key@)))
            } else {
                None
            },
            r is Some <==> key@.len() == 66,
            r matches Some(d) ==> d@.desc_type == DescriptorType::Wpkh && d@.script == ""@
                && d@.text == wpkh_descriptor(key@),
            r matches Some(d) ==> is_checksummed(d@.text, crate::parsed::wpkh_of(key@)),
            r matches Some(d) ==> crate::parsed::reads_as(
                d@.text,
                ParsedView::Wpkh(key@),
            ),
    {
        match make_wpkh(key) {
            Some(text) => Some(OutputDescriptor::with_keys(DescriptorType::Wpkh, text)),
            None => None,
        }
    }

    /// Makes the `wpkh` descriptor nested in a script hash for a key, if the key is
    /// compressed.
    pub fn new_sh_wpkh(key: &Key) -> (r: Option<OutputDescriptor>)
        ensures
            descriptor_outcome(r) == if crate::key::is_compressed(key@) {
                Some(of_keys(DescriptorType::ShWpkh, sh_wpkh_descriptor(key@)))
            } else {
                None
            },
            r is Some <==> key@.len() == 66,
            r matches Some(d) ==> d@.desc_type == DescriptorType::ShWpkh && d@.script == ""@
                && d@.text == sh_wpkh_descriptor(key@),
            r matches Some(d) ==> is_checksummed(d@.text, sh_of(crate::parsed::wpkh_of(key@))),
            r matches Some(d) ==> crate::parsed::reads_as(
                d@.text,
                ParsedView::Sh(ShInnerView::Wpkh),
            ),
    {
        match make_sh_wpkh(key) {
            Some(text) => Some(OutputDescriptor::with_keys(DescriptorType::ShWpkh, text)),
            None => None,
        }
    }

    /// Makes the bare descriptor with a miniscript, if there is one.
    pub fn new_bare(ms: &Miniscript<BareCtx>) -> (r: Option<OutputDescriptor>)
        ensures
            descriptor_outcome(r) == match bare_descriptor(ms@) {
                Some(text) => Some(of_script(DescriptorType::Bare, ms@, text)),
                None => None,
            },
            match r {
                Some(d) => d@.desc_type == DescriptorType::Bare && d@.script == ms@
                    && bare_descriptor(ms@) == Some(d@.text),
                None => bare_descriptor(ms@) is None,
            },
            forall|k: usize, keys: Seq<Seq<char>>|
                ms@ == #[trigger] multi(k, keys) && crate::key::are_keys(keys) ==> (r is Some
                    <==> keys.len() <= 3),
            forall|key: Seq<char>|
                ms@ == #[trigger] pk_of(key) && crate::key::is_key(key)
                    ==> descriptor_outcome(r) == Some(
                    of_script(DescriptorType::Bare, ms@, pk_descriptor(key)),
                ),
            r matches Some(d) ==> is_checksummed(d@.text, ms@),
            r matches Some(d) ==> forall|k: usize, keys: Seq<Seq<char>>|
                ms@ == #[trigger] multi(k, keys) && crate::key::are_keys(keys)
                    ==> crate::parsed::reads_as(d@.text, bare_multi(k, keys)),
    {
        let script = ms.as_str();
        match make_bare(script) {
            Some(text) => Some(
                OutputDescriptor {
                    desc_type: DescriptorType::Bare,
                    script: script.to_owned(),
                    text,
                },
            ),
            None => None,
        }
    }

    /// Makes the `sh` descriptor with a miniscript.
    pub fn new_sh(ms: &Miniscript<Legacy>) -> (r: OutputDescriptor)
        ensures
            r@ == of_script(DescriptorType::Sh, ms@, sh_descriptor(ms@)),
            r@.desc_type == DescriptorType::Sh,
            r@.script == ms@,
            r@.text == sh_descriptor(ms@),
            is_checksummed(r@.text, sh_of(ms@)),
            forall|k: usize, keys: Seq<Seq<char>>|
                ms@ == #[trigger] multi(k, keys) && crate::key::are_keys(keys)
                    ==> crate::parsed::reads_as(r@.text, sh_multi(k, keys)),
    {
        let script = ms.as_str();
        let text = make_sh(script);
        OutputDescriptor { desc_type: DescriptorType::Sh, script: script.to_owned(), text }
    }

    /// Makes the `wsh` descriptor with a miniscript.
    pub fn new_wsh(ms: &Miniscript<Segwitv0>) -> (r: OutputDescriptor)
        ensures
            r@ == of_script(DescriptorType::Wsh, ms@, wsh_descriptor(ms@)),
            r@.desc_type == DescriptorType::Wsh,
            r@.script == ms@,
            r@.text == wsh_descriptor(ms@),
            is_checksummed(r@.text, wsh_of(ms@)),
            forall|k: usize, keys: Seq<Seq<char>>|
                ms@ == #[trigger] multi(k, keys) && crate::key::are_keys(keys)
                    ==> crate::parsed::reads_as(r@.text, wsh_multi(k, keys)),
    {
        let script = ms.as_str();
        let text = make_wsh(script);
        OutputDescriptor { desc_type: DescriptorType::Wsh, script: script.to_owned(), text }
    }

    /// Makes the `wsh` descriptor nested in a script hash, with a miniscript.
    pub fn new_sh_wsh(ms: &Miniscript<Segwitv0>) -> (r: OutputDescriptor)
        ensures
            r@ == of_script(DescriptorType::ShWsh, ms@, sh_wsh_descriptor(ms@)),
            r@.desc_type == DescriptorType::ShWsh,
            r@.script == ms@,
            r@.text == sh_wsh_descriptor(ms@),
            is_checksummed(r@.text, sh_of(wsh_of(ms@))),
            forall|k: usize, keys: Seq<Seq<char>>|
                ms@ == #[trigger] multi(k, keys) && crate::key::are_keys(keys)
                    ==> crate::parsed::reads_as(r@.text, ParsedView::Sh(ShInnerView::Wsh)),
    {
        let script = ms.as_str();
        let text = make_sh_wsh(script);
        OutputDescriptor { desc_type: DescriptorType::ShWsh, script: script.to_owned(), text }
    }

    /// Makes the `sh` descriptor with the signatures of `threshold` of `keys` in
    /// their lexicographic order, if they are within the limits.
    pub fn new_sh_sortedmulti(threshold: usize, keys: &Vec<Key>) -> (r: Option<
        OutputDescriptor,
    >)
        ensures
            descriptor_outcome(r) == if fits_input(threshold, keys@.len()) {
                Some(
                    of_keys(
                        DescriptorType::ShSortedMulti,
                        sh_sortedmulti_descriptor(threshold, crate::key::key_texts(keys@)),
                    ),
                )
            } else {
                None
            },
            r is Some <==> 0 < threshold <= keys@.len() && 3 + 34 * keys@.len() <= 520,
            r matches Some(d) ==> d@.desc_type == DescriptorType::ShSortedMulti && d@.script == ""@
                && d@.text == sh_sortedmulti_descriptor(
                threshold,
                Seq::new(keys@.len(), |i: int| keys@[i]@),
            ),
            r matches Some(d) ==> is_checksummed(
                d@.text,
                sh_of(sortedmulti(threshold, crate::key::key_texts(keys@))),
            ),
            r matches Some(d) ==> crate::parsed::reads_as(
                d@.text,
                ParsedView::Sh(
                    ShInnerView::SortedMulti(threshold, crate::key::key_texts(keys@)),
                ),
            ),
    {
        assert(crate::key::key_texts(keys@) =~= Seq::new(keys@.len(), |i: int| keys@[i]@));
        match make_sh_sortedmulti(threshold, keys) {
            Some(text) => Some(OutputDescriptor::with_keys(DescriptorType::ShSortedMulti, text)),
            None => None,
        }
    }

    /// Makes the `wsh` descriptor with the signatures of `threshold` of `keys` in
    /// their lexicographic order, if they are within the limits.
    pub fn new_wsh_sortedmulti(threshold: usize, keys: &Vec<Key>) -> (r: Option<
        OutputDescriptor,
    >)
        ensures
            descriptor_outcome(r) == if fits_witness(threshold, keys@.len()) {
                Some(
                    of_keys(
                        DescriptorType::WshSortedMulti,
                        wsh_sortedmulti_descriptor(threshold, crate::key::key_texts(keys@)),
                    ),
                )
            } else {
                None
            },
            r is Some <==> 0 < threshold <= keys@.len() && 3 + 34 * keys@.len() <= 3600
                && threshold + 2 <= 100,
            r matches Some(d) ==> d@.desc_type == DescriptorType::WshSortedMulti && d@.script == ""@
                && d@.text == wsh_sortedmulti_descriptor(
                threshold,
                Seq::new(keys@.len(), |i: int| keys@[i]@),
            ),
            r matches Some(d) ==> is_checksummed(
                d@.text,
                wsh_of(sortedmulti(threshold, crate::key::key_texts(keys@))),
            ),
            r matches Some(d) ==> crate::parsed::reads_as(
                d@.text,
                ParsedView::Wsh(
                    WshInnerView::SortedMulti(threshold, crate::key::key_texts(keys@)),
                ),
            ),
    {
        assert(crate::key::key_texts(keys@) =~= Seq::new(keys@.len(), |i: int| keys@[i]@));
        match make_wsh_sortedmulti(threshold, keys) {
            Some(text) => Some(OutputDescriptor::with_keys(DescriptorType::WshSortedMulti, text)),
            None => None,
        }
    }

    /// Makes the `wsh` descriptor nested in a script hash, with the signatures of
    /// `threshold` of `keys` in their lexicographic order, if they are within the
    /// limits.
    pub fn new_sh_wsh_sortedmulti(threshold: usize, keys: &Vec<Key>) -> (r: Option<
        OutputDescriptor,
    >)
        ensures
            descriptor_outcome(r) == if fits_witness(threshold, keys@.len()) {
                Some(
                    of_keys(
                        DescriptorType::ShWshSortedMulti,
                        sh_wsh_sortedmulti_descriptor(threshold, crate::key::key_texts(keys@)),
                    ),
                )
            } else {
                None
            },
            r is Some <==> 0 < threshold <= keys@.len() && 3 + 34 * keys@.len() <= 3600
                && threshold + 2 <= 100,
            r matches Some(d) ==> d@.desc_type == DescriptorType::ShWshSortedMulti && d@.script
                == ""@ && d@.text == sh_wsh_sortedmulti_descriptor(
                threshold,
                Seq::new(keys@.len(), |i: int| keys@[i]@),
            ),
            r matches Some(d) ==> is_checksummed(
                d@.text,
                sh_of(
                    wsh_of(sortedmulti(threshold, crate::key::key_texts(keys@))),
                ),
            ),
            r matches Some(d) ==> crate::parsed::reads_as(
                d@.text,
                ParsedView::Sh(ShInnerView::Wsh),
            ),
    {
        assert(crate::key::key_texts(keys@) =~= Seq::new(keys@.len(), |i: int| keys@[i]@));
        match make_sh_wsh_sortedmulti(threshold, keys) {
            Some(text) => Some(OutputDescriptor::with_keys(DescriptorType::ShWshSortedMulti, text)),
            None => None,
        }
    }

    /// Checks that every way to spend an output of the descriptor is possible,
    /// needs a signature and cannot be malleated.
    pub fn sanity_check(&self) -> (r: Result<(), Error>)
        ensures
            outcome(r) == analysed(sanity(self@.text)),
            match r {
                Ok(_) => sanity(self@.text) is Ok,
                Err(e) => e.origin == ErrorOrigin::Analysis && sanity(self@.text) == Err::<
                    (),
                    Seq<char>,
                >(e.message@),
            },
            outer_type_of(self@.desc_type) == OuterType::Pkh || outer_type_of(self@.desc_type)
                == OuterType::Wpkh ==> r is Ok,
    {
        proof {
            use_type_invariant(self);
        }
        outside_sanity_check(self)
    }

    /// Computes the address of the descriptor on `network`. Bare outputs have none.
    pub fn address(&self, network: Network) -> (r: Result<Address, Error>)
        ensures
            address_outcome(r) == analysed(address_of(self@.text, network_name(network))),
            r is Err <==> (self@.desc_type == DescriptorType::Bare || self@.desc_type
                == DescriptorType::Pk),
            r matches Ok(a) ==> a@.1 == output_script(self@.text),
            address_of(
                self@.text,
                match network {
                    Network::Bitcoin => "bitcoin"@,
                    Network::Testnet => "testnet"@,
                    Network::Signet => "signet"@,
                    Network::Regtest => "regtest"@,
                },
            ) == match r {
                Ok(a) => Ok::<(Seq<char>, Seq<u8>), Seq<char>>((a.text@, a.script_pubkey@)),
                Err(e) => Err(e.message@),
            },
            r matches Err(e) ==> e.origin == ErrorOrigin::Analysis,
    {
        proof {
            use_type_invariant(self);
        }
        let name = match network {
            Network::Bitcoin => "bitcoin",
            Network::Testnet => "testnet",
            Network::Signet => "signet",
            Network::Regtest => "regtest",
        };
        assert(name@ == network_name(network));
        match outside_address(self, name) {
            Ok((text, script_pubkey)) => Ok(Address { text, script_pubkey }),
            Err(message) => Err(Error { origin: ErrorOrigin::Analysis, message }),
        }
    }

    /// Computes the script in the outputs of the descriptor.
    pub fn script_pubkey(&self) -> (r: Vec<u8>)
        ensures
            r@ == output_script(self@.text),
            forall|k: usize, a: Seq<Seq<char>>, b: Seq<Seq<char>>|
                #![trigger sh_sortedmulti_descriptor(k, a), sh_sortedmulti_descriptor(k, b)]
                self@ == of_keys(DescriptorType::ShSortedMulti, sh_sortedmulti_descriptor(k, a))
                    && fits_input(k, a.len()) && are_reordered(a, b) ==> r@ == output_script(
                    sh_sortedmulti_descriptor(k, b),
                ),
            forall|k: usize, a: Seq<Seq<char>>, b: Seq<Seq<char>>|
                #![trigger wsh_sortedmulti_descriptor(k, a), wsh_sortedmulti_descriptor(k, b)]
                self@ == of_keys(DescriptorType::WshSortedMulti, wsh_sortedmulti_descriptor(k, a))
                    && fits_witness(k, a.len()) && are_reordered(a, b) ==> r@ == output_script(
                    wsh_sortedmulti_descriptor(k, b),
                ),
    {
        proof {
            use_type_invariant(self);
        }
        outside_script_pubkey(self)
    }

    /// Computes the script in an input that spends an output of the descriptor,
    /// before it is signed.
    pub fn unsigned_script_sig(&self) -> (r: Vec<u8>)
        ensures
            r@ == unsigned_input_script(self@.text),
            !is_nested_type(self@.desc_type) ==> r@ == Seq::<u8>::empty(),
    {
        proof {
            use_type_invariant(self);
        }
        outside_unsigned_script_sig(self)
    }

    /// Computes the script of the descriptor before any hashing.
    pub fn explicit_script(&self) -> (r: Vec<u8>)
        ensures
            r@ == script_before_hashing(self@.text),
            output_script(self@.text) == output_of(self@.desc_type, r@),
    {
        proof {
            use_type_invariant(self);
        }
        outside_explicit_script(self)
    }

    /// Computes a bound on the weight of what satisfies the descriptor.
    pub fn max_satisfaction_weight(&self) -> (r: Result<usize, Error>)
        ensures
            outcome(r) == analysed(satisfaction_weight(self@.text)),
            match r {
                Ok(w) => satisfaction_weight(self@.text) == Ok::<usize, Seq<char>>(w),
                Err(e) => e.origin == ErrorOrigin::Analysis && satisfaction_weight(self@.text)
                    == Err::<usize, Seq<char>>(e.message@),
            },
    {
        proof {
            use_type_invariant(self);
        }
        outside_max_satisfaction_weight(self)
    }

    /// Computes the script that signatures for an output of the descriptor commit
    /// to.
    pub fn script_code(&self) -> (r: Vec<u8>)
        ensures
            r@ == signed_script(self@.text),
            match outer_type_of(self@.desc_type) {
                OuterType::Pk => r@ == output_script(self@.text),
                OuterType::Bare => r@ == output_script(self@.text),
                OuterType::Pkh => r@ == output_script(self@.text),
                OuterType::Sh => r@ == script_before_hashing(self@.text),
                OuterType::Wsh => r@ == script_before_hashing(self@.text),
                _ => true,
            },
    {
        proof {
            use_type_invariant(self);
        }
        outside_script_code(self)
    }
}

} // verus!
