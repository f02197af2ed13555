//! Text: decimal numbers, the arguments of expressions, ASCII case and white
//! space.
use vstd::prelude::*;
use vstd::utf8::is_ascii_chars;

verus! {

/// The decimal digit that stands for `d`.
pub open spec fn digit(d: nat) -> char {
    ('0' as int + d) as char
}

/// The decimal notation of `n`, without leading zeros.
pub open spec fn decimal(n: nat) -> Seq<char>
    decreases n,
{
    if n < 10 {
        seq![digit(n)]
    } else {
        decimal(n / 10).push(digit(n % 10))
    }
}

fn digit_text(d: usize) -> (r: &'static str)
    requires
        d < 10,
    ensures
        r@ == seq![digit(d as nat)],
{
    proof {
        reveal_strlit("0");
        reveal_strlit("1");
        reveal_strlit("2");
        reveal_strlit("3");
        reveal_strlit("4");
        reveal_strlit("5");
        reveal_strlit("6");
        reveal_strlit("7");
        reveal_strlit("8");
        reveal_strlit("9");
    }
    if d == 0 {
        "0"
    } else if d == 1 {
        "1"
    } else if d == 2 {
        "2"
    } else if d == 3 {
        "3"
    } else if d == 4 {
        "4"
    } else if d == 5 {
        "5"
    } else if d == 6 {
        "6"
    } else if d == 7 {
        "7"
    } else if d == 8 {
        "8"
    } else {
        "9"
    }
}

/// Writes `n` in decimal.
pub fn decimal_text(n: usize) -> (r: String)
    ensures
        r@ == decimal(n as nat),
    decreases n,
{
    if n < 10 {
        digit_text(n).to_owned()
    } else {
        let mut r = decimal_text(n / 10);
        r.append(digit_text(n % 10));
        r
    }
}

/// Whether `p` stands in `t` from position `i` on.
pub open spec fn stands_at(t: Seq<char>, i: int, p: Seq<char>) -> bool {
    &&& 0 <= i
    &&& i + p.len() <= t.len()
    &&& t.subrange(i, i + p.len()) == p
}

/// The position that ends the argument of an expression that `t` holds from
/// position `i` on: that of the comma or the closing bracket that belongs to the
/// expression itself, `depth` brackets further out, or the end of `t`.
pub open spec fn argument_end(t: Seq<char>, i: int, depth: nat) -> int
    decreases t.len() - i,
{
    if i >= t.len() {
        t.len() as int
    } else if t[i] == '(' {
        argument_end(t, i + 1, depth + 1)
    } else if t[i] == ')' && depth > 0 {
        argument_end(t, i + 1, (depth - 1) as nat)
    } else if t[i] == ')' || (t[i] == ',' && depth == 0) {
        i
    } else {
        argument_end(t, i + 1, depth)
    }
}

/// Whether `t` tells no odds, for which it would need an `@`.
pub open spec fn without_odds(t: Seq<char>) -> bool {
    forall|i: int| 0 <= i < t.len() ==> #[trigger] t[i] != '@'
}

/// Whether `t` starts with `p`.
pub open spec fn starts_with(t: Seq<char>, p: Seq<char>) -> bool {
    stands_at(t, 0, p)
}

/// An argument ends where it starts or later, and within the text.
pub proof fn lemma_argument_end(t: Seq<char>, i: int, depth: nat)
    requires
        0 <= i <= t.len(),
    ensures
        i <= argument_end(t, i, depth) <= t.len(),
    decreases t.len() - i,
{
    if i < t.len() {
        lemma_argument_end(t, i + 1, depth);
        lemma_argument_end(t, i + 1, depth + 1);
        if depth > 0 {
            lemma_argument_end(t, i + 1, (depth - 1) as nat);
        }
    }
}

/// Tests whether `p` stands in `t` from position `i` on.
pub(crate) fn stands_at_index(t: &str, i: usize, p: &str) -> (r: bool)
    ensures
        r == stands_at(t@, i as int, p@),
{
    let n: usize = t.unicode_len();
    let m: usize = p.unicode_len();
    if i > n || m > n - i {
        return false;
    }
    let mut k: usize = 0;
    while k < m
        invariant
            n == t@.len(),
            m == p@.len(),
            i + m <= n,
            k <= m,
            forall|l: int| 0 <= l < k ==> t@[i + l] == p@[l],
        decreases m - k,
    {
        if t.get_char(i + k) != p.get_char(k) {
            assert(t@.subrange(i as int, i + m)[k as int] == t@[i + k]);
            return false;
        }
        k = k + 1;
    }
    assert(t@.subrange(i as int, i + m) =~= p@);
    true
}

/// Finds the position that ends the argument that `t` holds from `start` on.
pub(crate) fn argument_end_index(t: &str, start: usize) -> (r: usize)
    requires
        start <= t@.len(),
    ensures
        r == argument_end(t@, start as int, 0),
        r <= t@.len(),
{
    let n: usize = t.unicode_len();
    let mut i: usize = start;
    let mut depth: usize = 0;
    while i < n
        invariant
            n == t@.len(),
            start <= i <= n,
            depth <= i - start,
            argument_end(t@, start as int, 0) == argument_end(t@, i as int, depth as nat),
        decreases n - i,
    {
        let c = t.get_char(i);
        if c == '(' {
            depth = depth + 1;
        } else if c == ')' && depth > 0 {
            depth = depth - 1;
        } else if c == ')' || (c == ',' && depth == 0) {
            return i;
        }
        i = i + 1;
    }
    n
}

/// The ASCII letter `c` in lower case; any other character as it is.
pub open spec fn lower_ascii(c: char) -> char {
    if 'A' <= c <= 'Z' {
        (c as int + 32) as char
    } else {
        c
    }
}

/// The text `s` in lower case, as Unicode maps it.
pub uninterp spec fn lowercase(s: Seq<char>) -> Seq<char>;

/// `str::to_lowercase` of the standard library: the text in lower case by the
/// Unicode derived property Lowercase, of which the contract says no more than
/// that ASCII text has each of its letters mapped, and nothing else changed.
pub assume_specification[ str::to_lowercase ](s: &str) -> (r: String)
    ensures
        r@ == lowercase(s@),
        is_ascii_chars(s@) ==> r@ == s@.map_values(|c: char| lower_ascii(c)),
;

/// Whether `c` has the Unicode property White_Space.
pub open spec fn is_white_space(c: char) -> bool {
    ||| 0x09 <= c as int <= 0x0d
    ||| c as int == 0x20
    ||| c as int == 0x85
    ||| c as int == 0xa0
    ||| c as int == 0x1680
    ||| 0x2000 <= c as int <= 0x200a
    ||| 0x2028 <= c as int <= 0x2029
    ||| c as int == 0x202f
    ||| c as int == 0x205f
    ||| c as int == 0x3000
}

/// The text `s` without the white space that it starts with.
pub open spec fn trimmed_start(s: Seq<char>) -> Seq<char>
    decreases s.len(),
{
    if s.len() > 0 && is_white_space(s.first()) {
        trimmed_start(s.drop_first())
    } else {
        s
    }
}

/// The text `s` without the white space that it ends with.
pub open spec fn trimmed_end(s: Seq<char>) -> Seq<char>
    decreases s.len(),
{
    if s.len() > 0 && is_white_space(s.last()) {
        trimmed_end(s.drop_last())
    } else {
        s
    }
}

/// The text `s` without the white space around it.
pub open spec fn trimmed(s: Seq<char>) -> Seq<char> {
    trimmed_end(trimmed_start(s))
}

/// `str::trim` of the standard library: the text without leading and trailing
/// white space, which is told by the Unicode property White_Space.
pub assume_specification[ str::trim ](s: &str) -> (r: &str)
    ensures
        r@ == trimmed(s@),
;

/// Tests whether two texts are the same.
pub fn same_text(a: &str, b: &str) -> (r: bool)
    ensures
        r == (a@ == b@),
{
    a.to_owned() == b.to_owned()
}

} // verus!
