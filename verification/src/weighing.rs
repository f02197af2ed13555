//! How far the policy compiler comes with a policy.
//!
//! The compiler goes through the branches of a policy one by one. It gives up at
//! the first branch that nothing satisfies. It weighs every other branch by its
//! odds, and gets stuck where these are no number: in a disjunction of two
//! branches with odds of zero.
//!
//! The compiler also gives up at a branch of which every compilation breaks a
//! limit. Which branches these are depends on the costs that it computes, and is
//! not told here: a policy in which odds that are no number follow such a branch
//! counts as one that the compiler gets stuck at.
use vstd::prelude::*;
use crate::text::{argument_end_index, stands_at_index};

verus! {

/// How far the compiler comes with a branch.
#[derive(Clone, Copy, PartialEq, Eq, PartialOrd, Ord, Hash, Debug, Structural)]
pub enum Weighing {
    /// It weighs the branch and goes on.
    Done,
    /// It gives up, since nothing satisfies the branch.
    Refused,
    /// It gets stuck at the odds of the branch.
    Stuck,
}

/// How far the compiler comes with two branches, of which the first comes as far
/// as `first` and the second as far as `second`.
pub open spec fn in_turn(first: Weighing, second: Weighing) -> Weighing {
    if first == Weighing::Done {
        second
    } else {
        first
    }
}

/// Whether `c` is a decimal digit.
pub open spec fn is_digit(c: char) -> bool {
    '0' <= c <= '9'
}

/// The position behind the digits that `t` holds from position `i` on.
pub open spec fn digits_end(t: Seq<char>, i: int) -> int
    decreases t.len() - i,
{
    if 0 <= i < t.len() && is_digit(t[i]) {
        digits_end(t, i + 1)
    } else {
        i
    }
}

/// The position of the branch that `t` holds from position `i` on, behind the odds
/// of the branch, if it tells any.
pub open spec fn behind_odds(t: Seq<char>, i: int) -> int {
    let end = digits_end(t, i);
    if 0 <= end < t.len() && t[end] == '@' {
        end + 1
    } else {
        i
    }
}

/// The position behind the digits is not before the first of them, and within `t`.
pub proof fn lemma_digits_end(t: Seq<char>, i: int)
    requires
        0 <= i <= t.len(),
    ensures
        i <= digits_end(t, i) <= t.len(),
    decreases t.len() - i,
{
    if i < t.len() && is_digit(t[i]) {
        lemma_digits_end(t, i + 1);
    }
}

/// The position of the argument that follows the one that `t` holds from position
/// `i` on, or the end of `t`.
pub open spec fn next_argument(t: Seq<char>, i: int) -> int {
    let end = crate::text::argument_end(t, i, 0);
    if end < t.len() {
        end + 1
    } else {
        end
    }
}

/// How far the compiler comes with the branch that the policy `t` holds from
/// position `i` on, the odds of which are no number if `blind`.
///
/// Of a disjunction it takes a conjunction before anything else, and the first
/// branch before the second.
pub open spec fn weighed(t: Seq<char>, i: int, blind: bool) -> Weighing
    decreases t.len() - i, 0nat,
{
    if i < 0 || i >= t.len() {
        Weighing::Done
    } else if crate::text::stands_at(t, i, "UNSATISFIABLE"@) {
        Weighing::Refused
    } else if crate::text::stands_at(t, i, "and("@) {
        proof {
            reveal_strlit("and(");
        }
        all_weighed(t, i + 4, blind)
    } else if crate::text::stands_at(t, i, "thresh("@) {
        proof {
            reveal_strlit("thresh(");
            crate::text::lemma_argument_end(t, i + 7, 0);
        }
        all_weighed(t, next_argument(t, i + 7), blind)
    } else if crate::text::stands_at(t, i, "or("@) {
        let left = i + 3;
        let right = next_argument(t, left);
        let blind = blind || (crate::text::stands_at(t, left, "0@"@) && crate::text::stands_at(
            t,
            right,
            "0@"@,
        ));
        let first = behind_odds(t, left);
        let second = behind_odds(t, right);
        proof {
            reveal_strlit("or(");
            crate::text::lemma_argument_end(t, left, 0);
            lemma_digits_end(t, left);
            lemma_digits_end(t, right);
        }
        if crate::text::stands_at(t, second, "and("@) && !crate::text::stands_at(
            t,
            first,
            "and("@,
        ) {
            in_turn(weighed(t, second, blind), weighed(t, first, blind))
        } else {
            in_turn(weighed(t, first, blind), weighed(t, second, blind))
        }
    } else if blind {
        Weighing::Stuck
    } else {
        Weighing::Done
    }
}

/// How far the compiler comes with the branches that the policy `t` holds from
/// position `i` on, separated by commas.
pub open spec fn all_weighed(t: Seq<char>, i: int, blind: bool) -> Weighing
    decreases t.len() - i, 1nat,
{
    if i < 0 || i >= t.len() {
        Weighing::Done
    } else {
        let end = crate::text::argument_end(t, i, 0);
        proof {
            crate::text::lemma_argument_end(t, i, 0);
        }
        if end < t.len() && t[end] == ',' {
            in_turn(weighed(t, i, blind), all_weighed(t, end + 1, blind))
        } else {
            weighed(t, i, blind)
        }
    }
}

/// Whether the policy compiler gets stuck at the odds of the policy `t`.
pub open spec fn gets_stuck(t: Seq<char>) -> bool {
    weighed(t, 0, false) == Weighing::Stuck
}

/// Whether the policy compiler gives up on the policy `t` for a branch that
/// nothing satisfies.
pub open spec fn gives_up(t: Seq<char>) -> bool {
    weighed(t, 0, false) == Weighing::Refused
}

proof fn lemma_without_odds_from(t: Seq<char>, i: int)
    requires
        crate::text::without_odds(t),
    ensures
        weighed(t, i, false) != Weighing::Stuck,
        all_weighed(t, i, false) != Weighing::Stuck,
    decreases t.len() - i,
{
    reveal_strlit("and(");
    reveal_strlit("thresh(");
    reveal_strlit("or(");
    reveal_strlit("0@");
    if 0 <= i < t.len() {
        crate::text::lemma_argument_end(t, i, 0);
        if crate::text::argument_end(t, i, 0) < t.len() {
            lemma_without_odds_from(t, next_argument(t, i));
        }
        if crate::text::stands_at(t, i, "and("@) {
            lemma_without_odds_from(t, i + 4);
        } else if crate::text::stands_at(t, i, "thresh("@) {
            crate::text::lemma_argument_end(t, i + 7, 0);
            lemma_without_odds_from(t, next_argument(t, i + 7));
        } else if crate::text::stands_at(t, i, "or("@) {
            let left = i + 3;
            crate::text::lemma_argument_end(t, left, 0);
            let right = next_argument(t, left);
            assert(!crate::text::stands_at(t, left, "0@"@)) by {
                if crate::text::stands_at(t, left, "0@"@) {
                    assert(t.subrange(left, left + 2)[1] == '@');
                    assert(t[left + 1] == '@');
                }
            }
            lemma_digits_end(t, left);
            lemma_digits_end(t, right);
            lemma_without_odds_from(t, left);
            lemma_without_odds_from(t, right);
        }
    }
}

/// The compiler does not get stuck at a policy that tells no odds.
pub proof fn lemma_without_odds(t: Seq<char>)
    requires
        crate::text::without_odds(t),
    ensures
        !gets_stuck(t),
{
    lemma_without_odds_from(t, 0);
}

fn digits_end_index(t: &str, start: usize) -> (r: usize)
    requires
        start <= t@.len(),
    ensures
        r == digits_end(t@, start as int),
        start <= r <= t@.len(),
{
    let n: usize = t.unicode_len();
    let mut i: usize = start;
    while i < n
        invariant
            n == t@.len(),
            start <= i <= n,
            digits_end(t@, start as int) == digits_end(t@, i as int),
        decreases n - i,
    {
        let c = t.get_char(i);
        if c < '0' || c > '9' {
            return i;
        }
        i = i + 1;
    }
    n
}

fn behind_odds_index(t: &str, i: usize) -> (r: usize)
    requires
        i <= t@.len(),
    ensures
        r == behind_odds(t@, i as int),
        i <= r <= t@.len(),
{
    let end: usize = digits_end_index(t, i);
    if end < t.unicode_len() && t.get_char(end) == '@' {
        end + 1
    } else {
        i
    }
}

fn next_argument_index(t: &str, i: usize) -> (r: usize)
    requires
        i <= t@.len(),
    ensures
        r == next_argument(t@, i as int),
        i <= r <= t@.len(),
{
    proof {
        crate::text::lemma_argument_end(t@, i as int, 0);
    }
    let end: usize = argument_end_index(t, i);
    if end < t.unicode_len() {
        end + 1
    } else {
        end
    }
}

fn weigh(t: &str, i: usize, blind: bool) -> (r: Weighing)
    ensures
        r == weighed(t@, i as int, blind),
    decreases t@.len() - i, 0nat,
{
    let n: usize = t.unicode_len();
    if i >= n {
        return Weighing::Done;
    }
    proof {
        reveal_strlit("and(");
        reveal_strlit("thresh(");
        reveal_strlit("or(");
    }
    if stands_at_index(t, i, "UNSATISFIABLE") {
        Weighing::Refused
    } else if stands_at_index(t, i, "and(") {
        weigh_all(t, i + 4, blind)
    } else if stands_at_index(t, i, "thresh(") {
        weigh_all(t, next_argument_index(t, i + 7), blind)
    } else if stands_at_index(t, i, "or(") {
        let left: usize = i + 3;
        let right: usize = next_argument_index(t, left);
        let first: usize = behind_odds_index(t, left);
        let second: usize = behind_odds_index(t, right);
        let blind: bool = blind || (stands_at_index(t, left, "0@") && stands_at_index(
            t,
            right,
            "0@",
        ));
        if stands_at_index(t, second, "and(") && !stands_at_index(t, first, "and(") {
            match weigh(t, second, blind) {
                Weighing::Done => weigh(t, first, blind),
                w => w,
            }
        } else {
            match weigh(t, first, blind) {
                Weighing::Done => weigh(t, second, blind),
                w => w,
            }
        }
    } else if blind {
        Weighing::Stuck
    } else {
        Weighing::Done
    }
}

fn weigh_all(t: &str, i: usize, blind: bool) -> (r: Weighing)
    ensures
        r == all_weighed(t@, i as int, blind),
    decreases t@.len() - i, 1nat,
{
    let n: usize = t.unicode_len();
    if i >= n {
        return Weighing::Done;
    }
    proof {
        crate::text::lemma_argument_end(t@, i as int, 0);
    }
    let end: usize = argument_end_index(t, i);
    if end < n && t.get_char(end) == ',' {
        match weigh(t, i, blind) {
            Weighing::Done => weigh_all(t, end + 1, blind),
            w => w,
        }
    } else {
        weigh(t, i, blind)
    }
}

/// Tells how far the policy compiler comes with the policy `t`.
pub fn weigh_policy(t: &str) -> (r: Weighing)
    ensures
        r == weighed(t@, 0, false),
{
    weigh(t, 0, false)
}

} // verus!
