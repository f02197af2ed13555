//! Descriptors taken apart: what stands in the text of a descriptor.
use std::str::FromStr;
use miniscript::descriptor::{ShInner as OutsideSh, WshInner as OutsideWsh};
use miniscript::{Descriptor as OutsideDescriptor, Terminal as OutsideTerminal};
use vstd::prelude::*;
use crate::key::Key;

verus! {

/// The outermost fragment of a descriptor that was read.
#[derive(Clone, Copy, PartialEq, Eq, PartialOrd, Ord, Hash, Debug, Structural)]
pub enum DescriptorKind {
    Bare,
    Pkh,
    Wpkh,
    Sh,
    Wsh,
}

/// The outermost fragment of a miniscript, as far as contracts are told apart by
/// it.
#[derive(PartialEq, Eq, Hash, Debug)]
pub enum Terminal {
    /// A check against one key.
    PkK(Key),
    /// Signatures of a number of keys, in the order in which they stand.
    Multi(usize, Vec<Key>),
    /// Any other fragment.
    Other,
}

/// The outermost fragment of a miniscript, by its contents.
pub enum TerminalView {
    PkK(Seq<char>),
    Multi(usize, Seq<Seq<char>>),
    Other,
}

impl View for Terminal {
    type V = TerminalView;

    open spec fn view(&self) -> TerminalView {
        match *self {
            Terminal::PkK(key) => TerminalView::PkK(key@),
            Terminal::Multi(k, keys) => TerminalView::Multi(k, crate::key::key_texts(keys@)),
            Terminal::Other => TerminalView::Other,
        }
    }
}

/// What stands in a `wsh` descriptor.
#[derive(PartialEq, Eq, Hash, Debug)]
pub enum WshInner {
    /// Signatures of a number of keys, in their lexicographic order.
    SortedMulti(usize, Vec<Key>),
    /// A miniscript.
    Ms(Terminal),
}

/// What stands in a `wsh` descriptor, by its contents.
pub enum WshInnerView {
    SortedMulti(usize, Seq<Seq<char>>),
    Ms(TerminalView),
}

impl View for WshInner {
    type V = WshInnerView;

    open spec fn view(&self) -> WshInnerView {
        match *self {
            WshInner::SortedMulti(k, keys) => WshInnerView::SortedMulti(
                k,
                crate::key::key_texts(keys@),
            ),
            WshInner::Ms(node) => WshInnerView::Ms(node@),
        }
    }
}

/// What stands in an `sh` descriptor.
#[derive(PartialEq, Eq, Hash, Debug)]
pub enum ShInner {
    /// A nested `wsh` descriptor.
    Wsh,
    /// A nested `wpkh` descriptor.
    Wpkh,
    /// Signatures of a number of keys, in their lexicographic order.
    SortedMulti(usize, Vec<Key>),
    /// A miniscript.
    Ms(Terminal),
}

/// What stands in an `sh` descriptor, by its contents.
pub enum ShInnerView {
    Wsh,
    Wpkh,
    SortedMulti(usize, Seq<Seq<char>>),
    Ms(TerminalView),
}

impl View for ShInner {
    type V = ShInnerView;

    open spec fn view(&self) -> ShInnerView {
        match *self {
            ShInner::Wsh => ShInnerView::Wsh,
            ShInner::Wpkh => ShInnerView::Wpkh,
            ShInner::SortedMulti(k, keys) => ShInnerView::SortedMulti(
                k,
                crate::key::key_texts(keys@),
            ),
            ShInner::Ms(node) => ShInnerView::Ms(node@),
        }
    }
}

/// A descriptor taken apart.
#[derive(PartialEq, Eq, Hash, Debug)]
pub enum ParsedDescriptor {
    Bare(Terminal),
    Pkh(Key),
    Wpkh(Key),
    Sh(ShInner),
    Wsh(WshInner),
}

/// A descriptor taken apart, by its contents.
pub enum ParsedView {
    Bare(TerminalView),
    Pkh(Seq<char>),
    Wpkh(Seq<char>),
    Sh(ShInnerView),
    Wsh(WshInnerView),
}

impl View for ParsedDescriptor {
    type V = ParsedView;

    open spec fn view(&self) -> ParsedView {
        match *self {
            ParsedDescriptor::Bare(node) => ParsedView::Bare(node@),
            ParsedDescriptor::Pkh(key) => ParsedView::Pkh(key@),
            ParsedDescriptor::Wpkh(key) => ParsedView::Wpkh(key@),
            ParsedDescriptor::Sh(inner) => ParsedView::Sh(inner@),
            ParsedDescriptor::Wsh(inner) => ParsedView::Wsh(inner@),
        }
    }
}

impl ParsedView {
    /// Whether a witness descriptor is nested in a script hash.
    pub open spec fn is_nested(self) -> bool {
        self == ParsedView::Sh(ShInnerView::Wsh) || self == ParsedView::Sh(ShInnerView::Wpkh)
    }
}

/// What `miniscript::Descriptor` reads from the text `s`: the outermost fragment
/// of the descriptor and the descriptor itself, written as the crate writes it,
/// with its checksum; or the reason why `s` is no descriptor.
pub uninterp spec fn read_descriptor(s: Seq<char>) -> Result<
    (DescriptorKind, Seq<char>),
    Seq<char>,
>;

/// Whether the text `s` reads as a descriptor with the outermost fragment `kind`.
pub open spec fn has_kind(s: Seq<char>, kind: DescriptorKind) -> bool {
    read_descriptor(s) matches Ok(d) && d.0 == kind
}

/// Whether the text `s` reads as the descriptor that `t` is the text of.
pub open spec fn reads_as_text(s: Seq<char>, t: Seq<char>) -> bool {
    read_descriptor(s) matches Ok(d) && d.1 == t
}

/// The shortest text of a descriptor with the outermost fragment `kind`, as far
/// as the readers of what stands in it ask.
pub open spec fn least_length(kind: DescriptorKind) -> nat {
    match kind {
        DescriptorKind::Bare => 6,
        DescriptorKind::Pkh => 0,
        DescriptorKind::Wpkh => 0,
        DescriptorKind::Sh => 4,
        DescriptorKind::Wsh => 5,
    }
}

/// The outermost fragment of the descriptors that start as the text `s` does.
pub open spec fn kind_by_form(s: Seq<char>) -> DescriptorKind {
    if crate::text::starts_with(s, "pkh("@) {
        DescriptorKind::Pkh
    } else if crate::text::starts_with(s, "wpkh("@) {
        DescriptorKind::Wpkh
    } else if crate::text::starts_with(s, "wsh("@) {
        DescriptorKind::Wsh
    } else if crate::text::starts_with(s, "sh("@) {
        DescriptorKind::Sh
    } else {
        DescriptorKind::Bare
    }
}

/// The outermost fragment and the text of a descriptor, or the reason why there
/// is none, by their contents.
pub open spec fn read_outcome(r: Result<(DescriptorKind, String), String>) -> Result<
    (DescriptorKind, Seq<char>),
    Seq<char>,
> {
    match r {
        Ok(d) => Ok((d.0, d.1@)),
        Err(e) => Err(e@),
    }
}

/// `miniscript::Descriptor::from_str`, over keys of `bitcoin::PublicKey`, and the
/// `to_string` of what it reads.
///
/// The text up to its first bracket tells the outermost fragment. Only ASCII text
/// is read, since its checksum is computed over printable characters. The text
/// holds at least the brackets of its outermost fragment; a bare descriptor holds
/// a key or its hash, and no `@`, since no fragment of a miniscript does.
#[verifier::external_body]
fn parse_descriptor(s: &str) -> (r: Result<(DescriptorKind, String), String>)
    ensures
        read_outcome(r) == read_descriptor(s@),
        r matches Ok(d) ==> {
            &&& d.0 == kind_by_form(s@)
            &&& s.is_ascii()
            &&& s@.len() >= least_length(d.0)
            &&& d.0 == DescriptorKind::Bare ==> crate::text::without_odds(s@)
        },
{
    let d = OutsideDescriptor::<bitcoin::PublicKey>::from_str(s).map_err(|e| e.to_string())?;
    let kind = match d {
        OutsideDescriptor::Bare(_) => DescriptorKind::Bare,
        OutsideDescriptor::Pkh(_) => DescriptorKind::Pkh,
        OutsideDescriptor::Wpkh(_) => DescriptorKind::Wpkh,
        OutsideDescriptor::Sh(_) => DescriptorKind::Sh,
        OutsideDescriptor::Wsh(_) => DescriptorKind::Wsh,
    };
    Ok((kind, d.to_string()))
}

/// The expression `pkh(x)`.
pub open spec fn pkh_of(x: Seq<char>) -> Seq<char> {
    "pkh("@ + x + ")"@
}

/// The expression `wpkh(x)`.
pub open spec fn wpkh_of(x: Seq<char>) -> Seq<char> {
    "wpkh("@ + x + ")"@
}

/// Whether `s` is the expression `e`, with or without a checksum.
pub open spec fn states(s: Seq<char>, e: Seq<char>) -> bool {
    s == e || crate::descriptor::is_checksummed(s, e)
}

/// The key in the `pkh` descriptor that is read from `s`.
pub uninterp spec fn pkh_key(s: Seq<char>) -> Seq<char>;

/// `miniscript::descriptor::Pkh::into_inner` on the descriptor that is read from
/// `s`: its key, which is read from between the brackets. The descriptor is the
/// one that is made of the key.
#[verifier::external_body]
fn parse_pkh(s: &str) -> (r: Key)
    requires
        has_kind(s@, DescriptorKind::Pkh),
    ensures
        r@ == pkh_key(s@),
        reads_as_text(s@, crate::descriptor::pkh_descriptor(r@)),
        forall|x: Seq<char>|
            states(s@, #[trigger] pkh_of(x)) ==> crate::key::reads_as_key(x, r@),
{
    match OutsideDescriptor::<bitcoin::PublicKey>::from_str(s) {
        Ok(OutsideDescriptor::Pkh(pkh)) => Key { text: pkh.into_inner().to_string() },
        _ => Key { text: String::new() },
    }
}

/// The key in the `wpkh` descriptor that is read from `s`.
pub uninterp spec fn wpkh_key(s: Seq<char>) -> Seq<char>;

/// `miniscript::descriptor::Wpkh::into_inner` on the descriptor that is read
/// from `s`: its key, which is read from between the brackets and is compressed.
/// The descriptor is the one that is made of the key.
#[verifier::external_body]
fn parse_wpkh(s: &str) -> (r: Key)
    requires
        has_kind(s@, DescriptorKind::Wpkh),
    ensures
        r@ == wpkh_key(s@),
        crate::key::is_compressed(r@),
        reads_as_text(s@, crate::descriptor::wpkh_descriptor(r@)),
        forall|x: Seq<char>|
            states(s@, #[trigger] wpkh_of(x)) ==> crate::key::reads_as_key(x, r@),
{
    match OutsideDescriptor::<bitcoin::PublicKey>::from_str(s) {
        Ok(OutsideDescriptor::Wpkh(wpkh)) => Key { text: wpkh.into_inner().to_string() },
        _ => Key { text: String::new() },
    }
}

/// The outermost fragment of the miniscript in the bare descriptor that is read
/// from `s`.
pub uninterp spec fn bare_node(s: Seq<char>) -> TerminalView;

/// `miniscript::descriptor::Bare::into_inner` on the descriptor that is read
/// from `s`: the outermost fragment of its miniscript.
#[verifier::external_body]
fn parse_bare(s: &str) -> (r: Terminal)
    requires
        has_kind(s@, DescriptorKind::Bare),
    ensures
        r@ == bare_node(s@),
{
    let node = match OutsideDescriptor::<bitcoin::PublicKey>::from_str(s) {
        Ok(OutsideDescriptor::Bare(bare)) => bare.into_inner().node,
        _ => return Terminal::Other,
    };
    match node {
        OutsideTerminal::PkK(key) => Terminal::PkK(Key { text: key.to_string() }),
        OutsideTerminal::Multi(k, keys) => Terminal::Multi(
            k,
            keys.iter().map(|key| Key { text: key.to_string() }).collect(),
        ),
        _ => Terminal::Other,
    }
}

/// What stands in the `wsh` descriptor that is read from `s`.
pub uninterp spec fn wsh_inner(s: Seq<char>) -> WshInnerView;

/// Whether the text `s` reads as the descriptor that is made of what stands in
/// it, where that is a number of sorted keys within the limits for witnesses.
pub open spec fn is_wsh_made_of(s: Seq<char>, inner: WshInnerView) -> bool {
    inner matches WshInnerView::SortedMulti(k, keys) ==> {
        &&& crate::descriptor::fits_witness(k, keys.len())
        &&& reads_as_text(s, crate::descriptor::wsh_sortedmulti_descriptor(k, keys))
    }
}

/// `miniscript::descriptor::Wsh::into_inner` on the descriptor that is read from
/// `s`: the threshold and keys of sorted signatures, if the text starts with these,
/// or the outermost fragment of the miniscript. Sorted signatures are within the
/// limits that the crate checks, and the descriptor is the one that is made of
/// them. A miniscript holds no `@`.
#[verifier::external_body]
fn parse_wsh(s: &str) -> (r: WshInner)
    requires
        has_kind(s@, DescriptorKind::Wsh),
    ensures
        r@ == wsh_inner(s@),
        r is SortedMulti <==> crate::text::starts_with(s@, "wsh(sortedmulti("@),
        r is Ms ==> crate::text::without_odds(s@),
        is_wsh_made_of(s@, r@),
{
    let key = |key: bitcoin::PublicKey| Key { text: key.to_string() };
    let list = |keys: Vec<bitcoin::PublicKey>| keys.into_iter().map(key).collect();
    match OutsideDescriptor::<bitcoin::PublicKey>::from_str(s) {
        Ok(OutsideDescriptor::Wsh(wsh)) => match wsh.into_inner() {
            OutsideWsh::SortedMulti(multi) => WshInner::SortedMulti(multi.k, list(multi.pks)),
            OutsideWsh::Ms(ms) => WshInner::Ms(match ms.node {
                OutsideTerminal::PkK(pk) => Terminal::PkK(key(pk)),
                OutsideTerminal::Multi(k, keys) => Terminal::Multi(k, list(keys)),
                _ => Terminal::Other,
            }),
        },
        _ => WshInner::Ms(Terminal::Other),
    }
}

/// What stands in the `sh` descriptor that is read from `s`.
pub uninterp spec fn sh_inner(s: Seq<char>) -> ShInnerView;

/// The text between the brackets of the `sh` descriptor `s`, where it has no
/// checksum.
pub open spec fn inside_sh(s: Seq<char>) -> Seq<char> {
    s.subrange(3, s.len() - 1)
}

/// Whether the text `s` of an `sh` descriptor, in which `inner` stands, reads as
/// the descriptor that is made of what stands in it: sorted keys within the
/// limits for inputs, or, if `s` has no checksum, a witness descriptor that is
/// read from between its brackets.
pub open spec fn is_sh_made_of(s: Seq<char>, inner: ShInnerView) -> bool {
    match inner {
        ShInnerView::SortedMulti(k, keys) => {
            &&& crate::descriptor::fits_input(k, keys.len())
            &&& reads_as_text(s, crate::descriptor::sh_sortedmulti_descriptor(k, keys))
        },
        ShInnerView::Wpkh => !s.contains('#') ==> {
            &&& has_kind(inside_sh(s), DescriptorKind::Wpkh)
            &&& reads_as_text(
                s,
                crate::descriptor::sh_wpkh_descriptor(wpkh_key(inside_sh(s))),
            )
        },
        ShInnerView::Wsh => !s.contains('#') ==> {
            &&& has_kind(inside_sh(s), DescriptorKind::Wsh)
            &&& wsh_inner(inside_sh(s)) matches WshInnerView::SortedMulti(k, keys)
                ==> reads_as_text(
                s,
                crate::descriptor::sh_wsh_sortedmulti_descriptor(k, keys),
            )
        },
        ShInnerView::Ms(_) => true,
    }
}

/// `miniscript::descriptor::Sh::into_inner` on the descriptor that is read from
/// `s`: which witness descriptor is nested in it, the threshold and keys of
/// sorted signatures, or the outermost fragment of the miniscript. The text up to
/// its second bracket tells which of these it is. Sorted signatures are within the
/// limits that the crate checks. The descriptor is the one that is made of what
/// stands in it, which is read from between the brackets. A miniscript holds no
/// `@`.
#[verifier::external_body]
fn parse_sh(s: &str) -> (r: ShInner)
    requires
        has_kind(s@, DescriptorKind::Sh),
    ensures
        r@ == sh_inner(s@),
        r is Wsh <==> crate::text::starts_with(s@, "sh(wsh("@),
        r is Wpkh <==> crate::text::starts_with(s@, "sh(wpkh("@),
        r is SortedMulti <==> crate::text::starts_with(s@, "sh(sortedmulti("@),
        r is Ms ==> crate::text::without_odds(s@),
        is_sh_made_of(s@, r@),
{
    let key = |key: bitcoin::PublicKey| Key { text: key.to_string() };
    let list = |keys: Vec<bitcoin::PublicKey>| keys.into_iter().map(key).collect();
    match OutsideDescriptor::<bitcoin::PublicKey>::from_str(s) {
        Ok(OutsideDescriptor::Sh(sh)) => match sh.into_inner() {
            OutsideSh::Wsh(_) => ShInner::Wsh,
            OutsideSh::Wpkh(_) => ShInner::Wpkh,
            OutsideSh::SortedMulti(multi) => ShInner::SortedMulti(multi.k, list(multi.pks)),
            OutsideSh::Ms(ms) => ShInner::Ms(match ms.node {
                OutsideTerminal::PkK(pk) => Terminal::PkK(key(pk)),
                OutsideTerminal::Multi(k, keys) => Terminal::Multi(k, list(keys)),
                _ => Terminal::Other,
            }),
        },
        _ => ShInner::Wsh,
    }
}

/// What is read from the text `s` as a descriptor, or the reason why it is none.
pub open spec fn parsed(s: Seq<char>) -> Result<ParsedView, Seq<char>> {
    match read_descriptor(s) {
        Err(e) => Err(e),
        Ok(d) => Ok(
            match d.0 {
                DescriptorKind::Bare => ParsedView::Bare(bare_node(s)),
                DescriptorKind::Pkh => ParsedView::Pkh(pkh_key(s)),
                DescriptorKind::Wpkh => ParsedView::Wpkh(wpkh_key(s)),
                DescriptorKind::Sh => ParsedView::Sh(sh_inner(s)),
                DescriptorKind::Wsh => ParsedView::Wsh(wsh_inner(s)),
            },
        ),
    }
}

/// Whether the text `s` reads as a descriptor in which `p` stands.
pub open spec fn reads_as(s: Seq<char>, p: ParsedView) -> bool {
    parsed(s) == Ok::<ParsedView, Seq<char>>(p)
}

/// Whether the text `s` reads as a descriptor of one key's hash or of sorted keys,
/// not nested.
pub open spec fn reads_as_keys(s: Seq<char>) -> bool {
    parsed(s) matches Ok(p) && (p is Pkh || p is Wpkh || p.is_sorted())
}

/// Whether the text `s` reads as a witness descriptor.
pub open spec fn reads_as_witness(s: Seq<char>) -> bool {
    parsed(s) matches Ok(p) && (p is Wpkh || p is Wsh)
}

/// Whether the text `s` reads as a witness descriptor nested in a script hash.
pub open spec fn reads_as_nested(s: Seq<char>) -> bool {
    parsed(s) matches Ok(p) && p.is_nested()
}

/// Whether the text `s` has the form of a descriptor of one key's hash or of
/// sorted keys, not nested.
pub open spec fn has_keys_form(s: Seq<char>) -> bool {
    ||| crate::text::starts_with(s, "pkh("@)
    ||| crate::text::starts_with(s, "wpkh("@)
    ||| crate::text::starts_with(s, "wsh(sortedmulti("@)
    ||| crate::text::starts_with(s, "sh(sortedmulti("@)
}

/// Whether the text `s` has the form of a witness descriptor.
pub open spec fn has_witness_form(s: Seq<char>) -> bool {
    crate::text::starts_with(s, "wsh("@) || crate::text::starts_with(s, "wpkh("@)
}

/// Whether the text `s`, if it reads as a descriptor, has the form of what stands
/// in it.
pub open spec fn is_in_form(s: Seq<char>) -> bool {
    parsed(s) matches Ok(p) ==> p.has_form(s)
}

/// A text that starts with `p` starts with what `p` starts with.
proof fn lemma_starts_with(s: Seq<char>, p: Seq<char>, q: Seq<char>)
    requires
        crate::text::starts_with(s, p),
        crate::text::starts_with(p, q),
    ensures
        crate::text::starts_with(s, q),
{
    assert(s.subrange(0, q.len() as int) =~= s.subrange(0, p.len() as int).subrange(
        0,
        q.len() as int,
    ));
}

/// A text in the form of a descriptor of one key's hash or of sorted keys reads
/// as one, if it reads as a descriptor.
pub proof fn lemma_keys_form(s: Seq<char>)
    requires
        is_in_form(s),
        parsed(s) is Ok,
        has_keys_form(s),
    ensures
        reads_as_keys(s),
{
    reveal_strlit("pkh(");
    reveal_strlit("wpkh(");
    reveal_strlit("wsh(");
    reveal_strlit("sh(");
    reveal_strlit("wsh(sortedmulti(");
    reveal_strlit("sh(sortedmulti(");
    assert(crate::text::starts_with("wsh(sortedmulti("@, "wsh("@)) by {
        assert("wsh(sortedmulti("@.subrange(0, 4) =~= "wsh("@);
    }
    assert(crate::text::starts_with("sh(sortedmulti("@, "sh("@)) by {
        assert("sh(sortedmulti("@.subrange(0, 3) =~= "sh("@);
    }
    if crate::text::starts_with(s, "wsh(sortedmulti("@) {
        lemma_starts_with(s, "wsh(sortedmulti("@, "wsh("@);
        lemma_distinct_starts(s);
    } else if crate::text::starts_with(s, "sh(sortedmulti("@) {
        lemma_starts_with(s, "sh(sortedmulti("@, "sh("@);
        lemma_distinct_starts(s);
    }
}

/// No text starts as two descriptors with different outermost fragments do.
proof fn lemma_distinct_starts(s: Seq<char>)
    ensures
        crate::text::starts_with(s, "wsh("@) ==> kind_by_form(s) == DescriptorKind::Wsh,
        crate::text::starts_with(s, "sh("@) ==> kind_by_form(s) == DescriptorKind::Sh,
        crate::text::starts_with(s, "wpkh("@) ==> kind_by_form(s) == DescriptorKind::Wpkh,
{
    reveal_strlit("pkh(");
    reveal_strlit("wpkh(");
    reveal_strlit("wsh(");
    reveal_strlit("sh(");
    if crate::text::starts_with(s, "pkh("@) {
        assert(s.subrange(0, 4)[0] == 'p');
        assert(s[0] == 'p');
    }
    if crate::text::starts_with(s, "wpkh("@) {
        assert(s.subrange(0, 5)[0] == 'w' && s.subrange(0, 5)[1] == 'p');
        assert(s[0] == 'w' && s[1] == 'p');
    }
    if crate::text::starts_with(s, "wsh("@) {
        assert(s.subrange(0, 4)[0] == 'w' && s.subrange(0, 4)[1] == 's');
        assert(s[0] == 'w' && s[1] == 's');
    }
    if crate::text::starts_with(s, "sh("@) {
        assert(s.subrange(0, 3)[0] == 's');
        assert(s[0] == 's');
    }
}

/// The keys of a descriptor that is not nested are sorted where its text says so.
/// What starts with `sh(` and no `w` behind it is not nested.
pub proof fn lemma_sorted_form(s: Seq<char>)
    requires
        is_in_form(s),
        parsed(s) is Ok,
    ensures
        !crate::text::starts_with(s, "sh(w"@) ==> !parsed(s)->Ok_0.is_nested(),
        !parsed(s)->Ok_0.is_nested() ==> (parsed(s)->Ok_0.is_sorted()
            <==> crate::text::starts_with(s, "wsh(sortedmulti("@) || crate::text::starts_with(
            s,
            "sh(sortedmulti("@,
        )),
{
    reveal_strlit("wsh(");
    reveal_strlit("sh(");
    reveal_strlit("wsh(sortedmulti(");
    reveal_strlit("sh(sortedmulti(");
    reveal_strlit("sh(wsh(");
    reveal_strlit("sh(wpkh(");
    reveal_strlit("sh(w");
    assert("wsh(sortedmulti("@.subrange(0, 4) =~= "wsh("@);
    assert("sh(sortedmulti("@.subrange(0, 3) =~= "sh("@);
    assert("sh(wsh("@.subrange(0, 4) =~= "sh(w"@);
    assert("sh(wpkh("@.subrange(0, 4) =~= "sh(w"@);
    lemma_distinct_starts(s);
    if crate::text::starts_with(s, "wsh(sortedmulti("@) {
        lemma_starts_with(s, "wsh(sortedmulti("@, "wsh("@);
    }
    if crate::text::starts_with(s, "sh(sortedmulti("@) {
        lemma_starts_with(s, "sh(sortedmulti("@, "sh("@);
    }
    if crate::text::starts_with(s, "sh(wsh("@) {
        lemma_starts_with(s, "sh(wsh("@, "sh(w"@);
    }
    if crate::text::starts_with(s, "sh(wpkh("@) {
        lemma_starts_with(s, "sh(wpkh("@, "sh(w"@);
    }
}

/// A witness descriptor within the brackets of `sh` has the form of a nested one,
/// and stands between these brackets.
pub proof fn lemma_nested_form(t: Seq<char>)
    requires
        has_witness_form(t),
    ensures
        inside_sh(crate::descriptor::sh_of(t)) == t,
        kind_by_form(crate::descriptor::sh_of(t)) == DescriptorKind::Sh,
        crate::text::starts_with(crate::descriptor::sh_of(t), "sh(wsh("@)
            || crate::text::starts_with(crate::descriptor::sh_of(t), "sh(wpkh("@),
        !t.contains('#') ==> !crate::descriptor::sh_of(t).contains('#'),
        !crate::text::starts_with(t, "sh(w"@),
        !crate::text::starts_with(t, "sh(sortedmulti("@),
{
    reveal_strlit("sh(");
    reveal_strlit(")");
    reveal_strlit("wsh(");
    reveal_strlit("wpkh(");
    reveal_strlit("sh(wsh(");
    reveal_strlit("sh(wpkh(");
    let s = crate::descriptor::sh_of(t);
    assert(inside_sh(s) =~= t);
    assert(s.subrange(0, 3) =~= "sh("@);
    lemma_distinct_starts(s);
    assert(t[0] == 'w') by {
        if crate::text::starts_with(t, "wsh("@) {
            assert(t.subrange(0, 4)[0] == 'w');
        } else {
            assert(t.subrange(0, 5)[0] == 'w');
        }
    }
    reveal_strlit("sh(w");
    reveal_strlit("sh(sortedmulti(");
    if crate::text::starts_with(t, "sh(w"@) {
        assert(t.subrange(0, 4)[0] == 's');
    }
    if crate::text::starts_with(t, "sh(sortedmulti("@) {
        assert(t.subrange(0, 15)[0] == 's');
    }
    if s.contains('#') {
        let i = choose|i: int| 0 <= i < s.len() && s[i] == '#';
        assert(t[i - 3] == '#');
    }
    if crate::text::starts_with(t, "wsh("@) {
        assert forall|i: int| 0 <= i < 4 implies t[i] == "wsh("@[i] by {
            assert(t.subrange(0, 4)[i] == t[i]);
        }
        assert(s.subrange(0, 7) =~= "sh(wsh("@);
    } else {
        assert forall|i: int| 0 <= i < 5 implies t[i] == "wpkh("@[i] by {
            assert(t.subrange(0, 5)[i] == t[i]);
        }
        assert(s.subrange(0, 8) =~= "sh(wpkh("@);
    }
}

/// A descriptor taken apart, or the reason why there is none, by their contents.
pub open spec fn parsed_outcome(r: Result<ParsedDescriptor, String>) -> Result<
    ParsedView,
    Seq<char>,
> {
    match r {
        Ok(p) => Ok(p@),
        Err(e) => Err(e@),
    }
}

impl ParsedView {
    /// The outermost fragment of the descriptor.
    pub open spec fn kind(self) -> DescriptorKind {
        match self {
            ParsedView::Bare(_) => DescriptorKind::Bare,
            ParsedView::Pkh(_) => DescriptorKind::Pkh,
            ParsedView::Wpkh(_) => DescriptorKind::Wpkh,
            ParsedView::Sh(_) => DescriptorKind::Sh,
            ParsedView::Wsh(_) => DescriptorKind::Wsh,
        }
    }

    /// Whether sorted keys stand in the descriptor.
    pub open spec fn is_sorted(self) -> bool {
        match self {
            ParsedView::Wsh(WshInnerView::SortedMulti(..)) => true,
            ParsedView::Sh(ShInnerView::SortedMulti(..)) => true,
            _ => false,
        }
    }

    /// Whether a miniscript stands in the descriptor.
    pub open spec fn holds_script(self) -> bool {
        match self {
            ParsedView::Bare(_) => true,
            ParsedView::Wsh(WshInnerView::Ms(_)) => true,
            ParsedView::Sh(ShInnerView::Ms(_)) => true,
            _ => false,
        }
    }

    /// Whether the text `s` has the form of a descriptor in which this stands.
    pub open spec fn has_form(self, s: Seq<char>) -> bool {
        &&& self.kind() == kind_by_form(s)
        &&& match self {
            ParsedView::Sh(inner) => {
                &&& inner is Wsh <==> crate::text::starts_with(s, "sh(wsh("@)
                &&& inner is Wpkh <==> crate::text::starts_with(s, "sh(wpkh("@)
                &&& inner is SortedMulti <==> crate::text::starts_with(s, "sh(sortedmulti("@)
            },
            ParsedView::Wsh(inner) => inner is SortedMulti <==> crate::text::starts_with(
                s,
                "wsh(sortedmulti("@,
            ),
            _ => true,
        }
    }

    /// Whether the text `s` reads as the descriptor that is made of the key or the
    /// sorted keys that stand in it.
    pub open spec fn is_made_of(self, s: Seq<char>) -> bool {
        match self {
            ParsedView::Bare(_) => true,
            ParsedView::Pkh(key) => reads_as_text(s, crate::descriptor::pkh_descriptor(key)),
            ParsedView::Wpkh(key) => {
                &&& crate::key::is_compressed(key)
                &&& reads_as_text(s, crate::descriptor::wpkh_descriptor(key))
            },
            ParsedView::Sh(inner) => is_sh_made_of(s, inner),
            ParsedView::Wsh(inner) => is_wsh_made_of(s, inner),
        }
    }
}

impl ParsedDescriptor {
    /// Reads a descriptor and takes it apart.
    pub fn from_str(s: &str) -> (r: Result<ParsedDescriptor, String>)
        ensures
            parsed_outcome(r) == parsed(s@),
            r matches Ok(p) ==> {
                &&& p@.has_form(s@)
                &&& s.is_ascii()
                &&& s@.len() >= least_length(p@.kind())
                &&& p@.holds_script() ==> crate::text::without_odds(s@)
                &&& p@.is_made_of(s@)
            },
            match r {
                Err(reason) => read_descriptor(s@) == Err::<
                    (DescriptorKind, Seq<char>),
                    Seq<char>,
                >(reason@),
                Ok(ParsedDescriptor::Bare(node)) => {
                    &&& read_descriptor(s@) matches Ok(d) && d.0 == DescriptorKind::Bare
                    &&& match (node, bare_node(s@)) {
                        (Terminal::PkK(key), TerminalView::PkK(t)) => key@ == t,
                        (Terminal::Multi(k, keys), TerminalView::Multi(l, ts)) => k == l
                            && Seq::new(keys@.len(), |i: int| keys@[i]@) == ts,
                        (Terminal::Other, TerminalView::Other) => true,
                        _ => false,
                    }
                },
                Ok(ParsedDescriptor::Pkh(key)) => {
                    &&& read_descriptor(s@) matches Ok(d) && d.0 == DescriptorKind::Pkh
                    &&& key@ == pkh_key(s@)
                },
                Ok(ParsedDescriptor::Wpkh(key)) => {
                    &&& read_descriptor(s@) matches Ok(d) && d.0 == DescriptorKind::Wpkh
                    &&& key@ == wpkh_key(s@)
                },
                Ok(ParsedDescriptor::Sh(inner)) => {
                    &&& read_descriptor(s@) matches Ok(d) && d.0 == DescriptorKind::Sh
                    &&& match (inner, sh_inner(s@)) {
                        (ShInner::Wsh, ShInnerView::Wsh) => true,
                        (ShInner::Wpkh, ShInnerView::Wpkh) => true,
                        (ShInner::SortedMulti(k, keys), ShInnerView::SortedMulti(l, ts)) => k == l
                            && Seq::new(keys@.len(), |i: int| keys@[i]@) == ts,
                        (ShInner::Ms(Terminal::PkK(key)), ShInnerView::Ms(TerminalView::PkK(t))) =>
                            key@ == t,
                        (
                            ShInner::Ms(Terminal::Multi(k, keys)),
                            ShInnerView::Ms(TerminalView::Multi(l, ts)),
                        ) => k == l && Seq::new(keys@.len(), |i: int| keys@[i]@) == ts,
                        (ShInner::Ms(Terminal::Other), ShInnerView::Ms(TerminalView::Other)) =>
                            true,
                        _ => false,
                    }
                },
                Ok(ParsedDescriptor::Wsh(inner)) => {
                    &&& read_descriptor(s@) matches Ok(d) && d.0 == DescriptorKind::Wsh
                    &&& match (inner, wsh_inner(s@)) {
                        (WshInner::SortedMulti(k, keys), WshInnerView::SortedMulti(l, ts)) => k == l
                            && Seq::new(keys@.len(), |i: int| keys@[i]@) == ts,
                        (WshInner::Ms(Terminal::PkK(key)), WshInnerView::Ms(TerminalView::PkK(t)))
                            => key@ == t,
                        (
                            WshInner::Ms(Terminal::Multi(k, keys)),
                            WshInnerView::Ms(TerminalView::Multi(l, ts)),
                        ) => k == l && Seq::new(keys@.len(), |i: int| keys@[i]@) == ts,
                        (WshInner::Ms(Terminal::Other), WshInnerView::Ms(TerminalView::Other)) =>
                            true,
                        _ => false,
                    }
                },
            },
            r matches Ok(ParsedDescriptor::Pkh(key)) ==> forall|x: Seq<char>|
                states(s@, #[trigger] pkh_of(x)) ==> crate::key::reads_as_key(x, key@),
            r matches Ok(ParsedDescriptor::Wpkh(key)) ==> forall|x: Seq<char>|
                states(s@, #[trigger] wpkh_of(x)) ==> crate::key::reads_as_key(x, key@),
    {
        match parse_descriptor(s) {
            Err(e) => Err(e),
            Ok((kind, _)) => Ok(
                match kind {
                    DescriptorKind::Bare => ParsedDescriptor::Bare(parse_bare(s)),
                    DescriptorKind::Pkh => ParsedDescriptor::Pkh(parse_pkh(s)),
                    DescriptorKind::Wpkh => ParsedDescriptor::Wpkh(parse_wpkh(s)),
                    DescriptorKind::Sh => ParsedDescriptor::Sh(parse_sh(s)),
                    DescriptorKind::Wsh => ParsedDescriptor::Wsh(parse_wsh(s)),
                },
            ),
        }
    }
}

} // verus!
