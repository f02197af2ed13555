//! Laws of weighing: how far the policy compiler comes with a policy, by the branches
//! of the policy.
use vstd::prelude::*;
use crate::laws::notation::{law_decimals_read_back, number};
use crate::text::{argument_end, decimal, stands_at};
use crate::weighing::{all_weighed, behind_odds, digits_end, next_argument, weighed, Weighing};

verus! {

/// A branch of a policy.
pub enum Branch {
    /// A condition with the notation that it holds, such as the check of a key.
    Leaf(Seq<char>),
    /// A condition that nothing satisfies.
    Unsatisfiable,
    /// Both branches.
    And(Box<Branch>, Box<Branch>),
    /// One of two branches, each with its odds.
    Or(nat, Box<Branch>, nat, Box<Branch>),
    /// A number of the branches.
    Threshold(nat, Seq<Branch>),
}

/// The notation of a branch.
pub open spec fn notation(b: Branch) -> Seq<char>
    decreases b, 0nat,
{
    match b {
        Branch::Leaf(t) => t,
        Branch::Unsatisfiable => "UNSATISFIABLE"@,
        Branch::And(x, y) => "and("@ + (notation(*x) + (","@ + (notation(*y) + ")"@))),
        Branch::Or(m, x, n, y) => "or("@ + (decimal(m) + ("@"@ + (notation(*x) + (","@ + (decimal(n)
            + ("@"@ + (notation(*y) + ")"@))))))),
        Branch::Threshold(k, subs) => "thresh("@ + (decimal(k) + (notations(subs, 0) + ")"@)),
    }
}

/// The notation of the branches `subs` from position `i` on, each with the comma
/// before it.
pub open spec fn notations(subs: Seq<Branch>, i: int) -> Seq<char>
    decreases subs, subs.len() - i,
{
    if 0 <= i < subs.len() {
        ","@ + (notation(subs[i]) + notations(subs, i + 1))
    } else {
        seq![]
    }
}

/// Whether `c` parts an expression.
pub open spec fn parts(c: char) -> bool {
    c == '(' || c == ')' || c == ','
}

/// Whether `t` is a name of `n` characters, alone or with a plain argument in
/// brackets.
pub open spec fn is_named(t: Seq<char>, n: int) -> bool {
    &&& 0 <= n <= t.len()
    &&& forall|k: int| 0 <= k < n ==> !parts(#[trigger] t[k])
    &&& n < t.len() ==> {
        &&& n < t.len() - 1
        &&& t[n] == '('
        &&& t[t.len() - 1] == ')'
        &&& forall|k: int| n < k < t.len() - 1 ==> !parts(#[trigger] t[k])
    }
}

/// Whether `t` is a name, or a name with a plain argument in brackets, and no name
/// of another branch.
pub open spec fn is_condition(t: Seq<char>) -> bool {
    &&& t.len() > 0
    &&& exists|n: int| is_named(t, n)
    &&& !stands_at(t, 0, "UNSATISFIABLE"@)
    &&& !stands_at(t, 0, "and("@)
    &&& !stands_at(t, 0, "thresh("@)
    &&& !stands_at(t, 0, "or("@)
}

/// Whether the conditions of a branch are noted as such, and its thresholds are over
/// something.
pub open spec fn is_policy_branch(b: Branch) -> bool
    decreases b,
{
    match b {
        Branch::Leaf(t) => is_condition(t),
        Branch::Unsatisfiable => true,
        Branch::And(x, y) => is_policy_branch(*x) && is_policy_branch(*y),
        Branch::Or(_, x, _, y) => is_policy_branch(*x) && is_policy_branch(*y),
        Branch::Threshold(_, subs) => subs.len() > 0 && forall|i: int|
            0 <= i < subs.len() ==> is_policy_branch(#[trigger] subs[i]),
    }
}

/// How far the compiler comes with a branch, the odds of which are no number if
/// `blind`.
///
/// It gives up at what nothing satisfies, and gets stuck at any other condition in a
/// disjunction of which both odds are zero. It takes branches in their order, but
/// for a conjunction that is the second branch of a disjunction, which it takes
/// before a first branch that is none.
pub open spec fn outcome(b: Branch, blind: bool) -> Weighing
    decreases b, 0nat,
{
    match b {
        Branch::Leaf(_) => if blind {
            Weighing::Stuck
        } else {
            Weighing::Done
        },
        Branch::Unsatisfiable => Weighing::Refused,
        Branch::And(x, y) => match outcome(*x, blind) {
            Weighing::Done => outcome(*y, blind),
            w => w,
        },
        Branch::Or(m, x, n, y) => {
            let blind = blind || (m == 0 && n == 0);
            if *y is And && !(*x is And) {
                match outcome(*y, blind) {
                    Weighing::Done => outcome(*x, blind),
                    w => w,
                }
            } else {
                match outcome(*x, blind) {
                    Weighing::Done => outcome(*y, blind),
                    w => w,
                }
            }
        },
        Branch::Threshold(_, subs) => outcomes(subs, 0, blind),
    }
}

/// How far the compiler comes with the branches `subs` from position `i` on.
pub open spec fn outcomes(subs: Seq<Branch>, i: int, blind: bool) -> Weighing
    decreases subs, subs.len() - i,
{
    if 0 <= i < subs.len() {
        match outcome(subs[i], blind) {
            Weighing::Done => outcomes(subs, i + 1, blind),
            w => w,
        }
    } else {
        Weighing::Done
    }
}

proof fn lemma_split(t: Seq<char>, i: int, p: Seq<char>, q: Seq<char>)
    requires
        stands_at(t, i, p + q),
    ensures
        stands_at(t, i, p),
        stands_at(t, i + p.len(), q),
{
    let u = t.subrange(i, i + p.len() + q.len());
    assert((p + q).len() == p.len() + q.len());
    assert(u == p + q);
    assert(t.subrange(i, i + p.len()) =~= p) by {
        assert forall|k: int| 0 <= k < p.len() implies t[i + k] == p[k] by {
            assert(u[k] == (p + q)[k]);
        }
    }
    assert(t.subrange(i + p.len(), i + p.len() + q.len()) =~= q) by {
        assert forall|k: int| 0 <= k < q.len() implies t[i + p.len() + k] == q[k] by {
            assert(u[p.len() + k] == (p + q)[p.len() + k]);
        }
    }
}

proof fn lemma_char(t: Seq<char>, i: int, p: Seq<char>, k: int)
    requires
        stands_at(t, i, p),
        0 <= k < p.len(),
    ensures
        t[i + k] == p[k],
        i + k < t.len(),
{
    assert(t.subrange(i, i + p.len())[k] == p[k]);
}

proof fn lemma_plain_is_passed(t: Seq<char>, i: int, n: int, depth: nat)
    requires
        0 <= i,
        0 <= n,
        i + n <= t.len(),
        forall|k: int| i <= k < i + n ==> !parts(#[trigger] t[k]),
    ensures
        argument_end(t, i, depth) == argument_end(t, i + n, depth),
    decreases n,
{
    if n > 0 {
        lemma_plain_is_passed(t, i + 1, n - 1, depth);
        assert(!parts(t[i]));
    }
}

proof fn lemma_digits_are_passed(t: Seq<char>, i: int, n: nat, depth: nat)
    requires
        stands_at(t, i, decimal(n)),
    ensures
        argument_end(t, i, depth) == argument_end(t, i + decimal(n).len(), depth),
{
    law_decimals_read_back(n);
    assert forall|k: int| i <= k < i + decimal(n).len() implies !parts(#[trigger] t[k]) by {
        lemma_char(t, i, decimal(n), k - i);
        assert('0' <= decimal(n)[k - i] <= '9');
    }
    lemma_plain_is_passed(t, i, decimal(n).len() as int, depth);
}

proof fn lemma_condition_is_passed(t: Seq<char>, i: int, x: Seq<char>, depth: nat)
    requires
        stands_at(t, i, x),
        is_condition(x),
    ensures
        argument_end(t, i, depth) == argument_end(t, i + x.len(), depth),
{
    let n = choose|n: int| is_named(x, n);
    assert forall|k: int| 0 <= k < x.len() implies t[i + k] == x[k] by {
        lemma_char(t, i, x, k);
    }
    assert forall|k: int| i <= k < i + n implies !parts(#[trigger] t[k]) by {
        assert(t[i + (k - i)] == x[k - i]);
    }
    lemma_plain_is_passed(t, i, n, depth);
    if n < x.len() {
        assert(t[i + n] == '(');
        assert forall|k: int| i + n + 1 <= k < i + x.len() - 1 implies !parts(#[trigger] t[k]) by {
            assert(t[i + (k - i)] == x[k - i]);
        }
        lemma_plain_is_passed(t, i + n + 1, x.len() - n - 2, depth + 1);
        assert(t[i + (x.len() - 1)] == ')');
    }
}

proof fn lemma_branch_is_passed(t: Seq<char>, i: int, b: Branch, depth: nat)
    requires
        stands_at(t, i, notation(b)),
        is_policy_branch(b),
    ensures
        argument_end(t, i, depth) == argument_end(t, i + notation(b).len(), depth),
    decreases b, 0nat,
{
    reveal_strlit("UNSATISFIABLE");
    reveal_strlit("and(");
    reveal_strlit("or(");
    reveal_strlit("thresh(");
    reveal_strlit(",");
    reveal_strlit("@");
    reveal_strlit(")");
    match b {
        Branch::Leaf(x) => {
            lemma_condition_is_passed(t, i, x, depth);
        },
        Branch::Unsatisfiable => {
            assert forall|k: int| i <= k < i + 13 implies !parts(#[trigger] t[k]) by {
                lemma_char(t, i, "UNSATISFIABLE"@, k - i);
            }
            lemma_plain_is_passed(t, i, 13, depth);
        },
        Branch::And(x, y) => {
            let (p, q) = (notation(*x), notation(*y));
            lemma_split(t, i, "and("@, p + (","@ + (q + ")"@)));
            lemma_split(t, i + 4, p, ","@ + (q + ")"@));
            lemma_split(t, i + 4 + p.len(), ","@, q + ")"@);
            lemma_split(t, i + 5 + p.len(), q, ")"@);
            lemma_char(t, i, "and("@, 0);
            lemma_char(t, i, "and("@, 1);
            lemma_char(t, i, "and("@, 2);
            lemma_char(t, i, "and("@, 3);
            lemma_plain_is_passed(t, i, 3, depth);
            lemma_branch_is_passed(t, i + 4, *x, depth + 1);
            lemma_char(t, i + 4 + p.len(), ","@, 0);
            lemma_branch_is_passed(t, i + 5 + p.len(), *y, depth + 1);
            lemma_char(t, i + 5 + p.len() + q.len(), ")"@, 0);
        },
        Branch::Or(m, x, n, y) => {
            let (d, e) = (decimal(m), decimal(n));
            let (p, q) = (notation(*x), notation(*y));
            lemma_or_parts(t, i, m, *x, n, *y);
            lemma_char(t, i, "or("@, 0);
            lemma_char(t, i, "or("@, 1);
            lemma_char(t, i, "or("@, 2);
            lemma_plain_is_passed(t, i, 2, depth);
            lemma_digits_are_passed(t, i + 3, m, depth + 1);
            lemma_branch_is_passed(t, i + 4 + d.len(), *x, depth + 1);
            let j = i + 5 + d.len() + p.len();
            lemma_digits_are_passed(t, j, n, depth + 1);
            lemma_branch_is_passed(t, j + e.len() + 1, *y, depth + 1);
        },
        Branch::Threshold(k, subs) => {
            let d = decimal(k);
            lemma_split(t, i, "thresh("@, d + (notations(subs, 0) + ")"@));
            lemma_split(t, i + 7, d, notations(subs, 0) + ")"@);
            lemma_split(t, i + 7 + d.len(), notations(subs, 0), ")"@);
            lemma_char(t, i, "thresh("@, 0);
            lemma_char(t, i, "thresh("@, 1);
            lemma_char(t, i, "thresh("@, 2);
            lemma_char(t, i, "thresh("@, 3);
            lemma_char(t, i, "thresh("@, 4);
            lemma_char(t, i, "thresh("@, 5);
            lemma_char(t, i, "thresh("@, 6);
            lemma_plain_is_passed(t, i, 6, depth);
            lemma_digits_are_passed(t, i + 7, k, depth + 1);
            lemma_branches_are_passed(t, i + 7 + d.len(), subs, 0, depth + 1);
            lemma_char(t, i + 7 + d.len() + notations(subs, 0).len(), ")"@, 0);
        },
    }
}

proof fn lemma_branches_are_passed(t: Seq<char>, i: int, subs: Seq<Branch>, n: int, depth: nat)
    requires
        0 <= n <= subs.len(),
        stands_at(t, i, notations(subs, n)),
        forall|k: int| 0 <= k < subs.len() ==> is_policy_branch(#[trigger] subs[k]),
        depth > 0,
    ensures
        argument_end(t, i, depth) == argument_end(t, i + notations(subs, n).len(), depth),
    decreases subs, subs.len() - n,
{
    reveal_strlit(",");
    if n < subs.len() {
        let p = notation(subs[n]);
        lemma_split(t, i, ","@, p + notations(subs, n + 1));
        lemma_split(t, i + 1, p, notations(subs, n + 1));
        lemma_char(t, i, ","@, 0);
        lemma_branch_is_passed(t, i + 1, subs[n], depth);
        lemma_branches_are_passed(t, i + 1 + p.len(), subs, n + 1, depth);
    }
}

proof fn lemma_or_parts(t: Seq<char>, i: int, m: nat, x: Branch, n: nat, y: Branch)
    requires
        stands_at(t, i, notation(Branch::Or(m, Box::new(x), n, Box::new(y)))),
    ensures
        ({
            let (d, e) = (decimal(m), decimal(n));
            let (p, q) = (notation(x), notation(y));
            let j = i + 5 + d.len() + p.len();
            &&& notation(Branch::Or(m, Box::new(x), n, Box::new(y))).len() == 7 + d.len() + p.len()
                + e.len() + q.len()
            &&& stands_at(t, i, "or("@)
            &&& stands_at(t, i + 3, d)
            &&& t[i + 3 + d.len()] == '@'
            &&& stands_at(t, i + 4 + d.len(), p)
            &&& t[j - 1] == ','
            &&& stands_at(t, j, e)
            &&& t[j + e.len()] == '@'
            &&& stands_at(t, j + e.len() + 1, q)
            &&& t[j + e.len() + 1 + q.len()] == ')'
            &&& j + e.len() + 1 + q.len() < t.len()
        }),
{
    reveal_strlit("or(");
    reveal_strlit(",");
    reveal_strlit("@");
    reveal_strlit(")");
    let (d, e) = (decimal(m), decimal(n));
    let (p, q) = (notation(x), notation(y));
    let r = e + ("@"@ + (q + ")"@));
    assert(notation(Branch::Or(m, Box::new(x), n, Box::new(y))) == "or("@ + (d + ("@"@ + (p + (","@
        + r)))));
    lemma_split(t, i, "or("@, d + ("@"@ + (p + (","@ + r))));
    lemma_split(t, i + 3, d, "@"@ + (p + (","@ + r)));
    lemma_split(t, i + 3 + d.len(), "@"@, p + (","@ + r));
    lemma_char(t, i + 3 + d.len(), "@"@, 0);
    lemma_split(t, i + 4 + d.len(), p, ","@ + r);
    lemma_split(t, i + 4 + d.len() + p.len(), ","@, r);
    lemma_char(t, i + 4 + d.len() + p.len(), ","@, 0);
    let j = i + 5 + d.len() + p.len();
    lemma_split(t, j, e, "@"@ + (q + ")"@));
    lemma_split(t, j + e.len(), "@"@, q + ")"@);
    lemma_char(t, j + e.len(), "@"@, 0);
    lemma_split(t, j + e.len() + 1, q, ")"@);
    lemma_char(t, j + e.len() + 1 + q.len(), ")"@, 0);
}

/// Whether an argument ends at position `i` of `t`.
pub open spec fn ends_at(t: Seq<char>, i: int) -> bool {
    i == t.len() || (0 <= i < t.len() && (t[i] == ',' || t[i] == ')'))
}

proof fn lemma_no_other_start(t: Seq<char>, i: int, x: Seq<char>, p: Seq<char>)
    requires
        stands_at(t, i, x),
        ends_at(t, i + x.len()),
        !stands_at(x, 0, p),
        forall|k: int| 0 <= k < p.len() ==> #[trigger] p[k] != ',' && p[k] != ')',
    ensures
        !stands_at(t, i, p),
{
    if stands_at(t, i, p) {
        if x.len() < p.len() {
            lemma_char(t, i, p, x.len() as int);
            assert(p[x.len() as int] != ',');
        } else {
            assert(x.subrange(0, p.len() as int) =~= p) by {
                assert forall|k: int| 0 <= k < p.len() implies x[k] == p[k] by {
                    lemma_char(t, i, x, k);
                    lemma_char(t, i, p, k);
                }
            }
        }
    }
}

proof fn lemma_digits_run(t: Seq<char>, i: int, n: int)
    requires
        0 <= i,
        0 <= n,
        i + n < t.len(),
        forall|k: int| i <= k < i + n ==> '0' <= #[trigger] t[k] <= '9',
        t[i + n] == '@',
    ensures
        digits_end(t, i) == i + n,
    decreases n,
{
    if n > 0 {
        assert('0' <= t[i] <= '9');
        lemma_digits_run(t, i + 1, n - 1);
    }
}

proof fn lemma_odds(t: Seq<char>, i: int, n: nat)
    requires
        stands_at(t, i, decimal(n)),
        i + decimal(n).len() < t.len(),
        t[i + decimal(n).len()] == '@',
    ensures
        behind_odds(t, i) == i + decimal(n).len() + 1,
        stands_at(t, i, "0@"@) <==> n == 0,
{
    reveal_strlit("0@");
    law_decimals_read_back(n);
    let d = decimal(n);
    assert forall|k: int| i <= k < i + d.len() implies '0' <= #[trigger] t[k] <= '9' by {
        lemma_char(t, i, d, k - i);
        assert('0' <= d[k - i] <= '9');
    }
    lemma_digits_run(t, i, d.len() as int);
    lemma_char(t, i, d, 0);
    if n == 0 {
        assert(d =~= seq!['0']);
        assert(t.subrange(i, i + 2) =~= "0@"@);
    } else if stands_at(t, i, "0@"@) {
        lemma_char(t, i, "0@"@, 0);
        assert(d.len() == 1);
        assert(d.drop_last() =~= seq![]);
        reveal_with_fuel(number, 2);
        assert(number(d) == 0);
    }
}

proof fn lemma_first_characters(t: Seq<char>, i: int, b: Branch)
    requires
        stands_at(t, i, notation(b)),
        is_policy_branch(b),
        ends_at(t, i + notation(b).len()),
    ensures
        i < t.len(),
        stands_at(t, i, "UNSATISFIABLE"@) <==> b is Unsatisfiable,
        stands_at(t, i, "and("@) <==> b is And,
        stands_at(t, i, "thresh("@) <==> b is Threshold,
        stands_at(t, i, "or("@) <==> b is Or,
{
    reveal_strlit("UNSATISFIABLE");
    reveal_strlit("and(");
    reveal_strlit("thresh(");
    reveal_strlit("or(");
    if stands_at(t, i, "UNSATISFIABLE"@) {
        lemma_char(t, i, "UNSATISFIABLE"@, 0);
    }
    if stands_at(t, i, "and("@) {
        lemma_char(t, i, "and("@, 0);
    }
    if stands_at(t, i, "thresh("@) {
        lemma_char(t, i, "thresh("@, 0);
    }
    if stands_at(t, i, "or("@) {
        lemma_char(t, i, "or("@, 0);
    }
    match b {
        Branch::Leaf(x) => {
            lemma_no_other_start(t, i, x, "UNSATISFIABLE"@);
            lemma_no_other_start(t, i, x, "and("@);
            lemma_no_other_start(t, i, x, "thresh("@);
            lemma_no_other_start(t, i, x, "or("@);
        },
        Branch::Unsatisfiable => {},
        Branch::And(x, y) => {
            lemma_split(t, i, "and("@, notation(*x) + (","@ + (notation(*y) + ")"@)));
        },
        Branch::Or(m, x, n, y) => {
            lemma_or_parts(t, i, m, *x, n, *y);
        },
        Branch::Threshold(k, subs) => {
            lemma_split(t, i, "thresh("@, decimal(k) + (notations(subs, 0) + ")"@));
        },
    }
}

proof fn lemma_weighed(t: Seq<char>, i: int, b: Branch, blind: bool)
    requires
        stands_at(t, i, notation(b)),
        is_policy_branch(b),
        ends_at(t, i + notation(b).len()),
    ensures
        weighed(t, i, blind) == outcome(b, blind),
    decreases b, 0nat,
{
    reveal_strlit("and(");
    reveal_strlit("thresh(");
    reveal_strlit("or(");
    reveal_strlit(",");
    reveal_strlit(")");
    lemma_first_characters(t, i, b);
    match b {
        Branch::Leaf(_) => {},
        Branch::Unsatisfiable => {},
        Branch::And(x, y) => {
            let (p, q) = (notation(*x), notation(*y));
            lemma_split(t, i, "and("@, p + (","@ + (q + ")"@)));
            lemma_split(t, i + 4, p, ","@ + (q + ")"@));
            lemma_split(t, i + 4 + p.len(), ","@, q + ")"@);
            lemma_split(t, i + 5 + p.len(), q, ")"@);
            lemma_char(t, i + 4 + p.len(), ","@, 0);
            lemma_char(t, i + 5 + p.len() + q.len(), ")"@, 0);
            lemma_branch_is_passed(t, i + 4, *x, 0);
            lemma_branch_is_passed(t, i + 5 + p.len(), *y, 0);
            lemma_weighed(t, i + 4, *x, blind);
            lemma_weighed(t, i + 5 + p.len(), *y, blind);
            lemma_first_characters(t, i + 5 + p.len(), *y);
            assert(all_weighed(t, i + 5 + p.len(), blind) == outcome(*y, blind));
            assert(all_weighed(t, i + 4, blind) == outcome(b, blind));
            assert(weighed(t, i, blind) == outcome(b, blind));
        },
        Branch::Or(m, x, n, y) => {
            let (d, e) = (decimal(m), decimal(n));
            let (p, q) = (notation(*x), notation(*y));
            lemma_or_parts(t, i, m, *x, n, *y);
            let left = i + 3;
            let right = i + 5 + d.len() + p.len();
            lemma_digits_are_passed(t, left, m, 0);
            lemma_branch_is_passed(t, left + d.len() + 1, *x, 0);
            assert(argument_end(t, left, 0) == right - 1);
            assert(next_argument(t, left) == right);
            lemma_odds(t, left, m);
            lemma_odds(t, right, n);
            lemma_first_characters(t, left + d.len() + 1, *x);
            lemma_first_characters(t, right + e.len() + 1, *y);
            let both = blind || (m == 0 && n == 0);
            lemma_weighed(t, left + d.len() + 1, *x, both);
            lemma_weighed(t, right + e.len() + 1, *y, both);
            assert(behind_odds(t, left) == left + d.len() + 1);
            assert(behind_odds(t, right) == right + e.len() + 1);
            assert(weighed(t, i, blind) == outcome(b, blind));
        },
        Branch::Threshold(k, subs) => {
            let d = decimal(k);
            lemma_split(t, i, "thresh("@, d + (notations(subs, 0) + ")"@));
            lemma_split(t, i + 7, d, notations(subs, 0) + ")"@);
            lemma_split(t, i + 7 + d.len(), notations(subs, 0), ")"@);
            lemma_char(t, i + 7 + d.len() + notations(subs, 0).len(), ")"@, 0);
            lemma_split(t, i + 7 + d.len(), ","@, notation(subs[0]) + notations(subs, 1));
            lemma_char(t, i + 7 + d.len(), ","@, 0);
            lemma_digits_are_passed(t, i + 7, k, 0);
            assert(next_argument(t, i + 7) == i + 8 + d.len());
            lemma_all_weighed(t, i + 7 + d.len(), subs, 0, blind);
            assert(weighed(t, i, blind) == outcome(b, blind));
        },
    }
}

proof fn lemma_all_weighed(t: Seq<char>, i: int, subs: Seq<Branch>, n: int, blind: bool)
    requires
        0 <= n < subs.len(),
        stands_at(t, i, notations(subs, n)),
        i + notations(subs, n).len() < t.len(),
        t[i + notations(subs, n).len()] == ')',
        forall|k: int| 0 <= k < subs.len() ==> is_policy_branch(#[trigger] subs[k]),
    ensures
        all_weighed(t, i + 1, blind) == outcomes(subs, n, blind),
    decreases subs, subs.len() - n,
{
    reveal_strlit(",");
    let p = notation(subs[n]);
    lemma_split(t, i, ","@, p + notations(subs, n + 1));
    lemma_split(t, i + 1, p, notations(subs, n + 1));
    lemma_branch_is_passed(t, i + 1, subs[n], 0);
    let end = i + 1 + p.len();
    if n + 1 < subs.len() {
        lemma_split(t, end, ","@, notation(subs[n + 1]) + notations(subs, n + 2));
        lemma_char(t, end, ","@, 0);
        lemma_weighed(t, i + 1, subs[n], blind);
        lemma_first_characters(t, i + 1, subs[n]);
        assert(argument_end(t, i + 1, 0) == end);
        lemma_all_weighed(t, end, subs, n + 1, blind);
    } else {
        assert(notations(subs, n + 1).len() == 0);
        lemma_weighed(t, i + 1, subs[n], blind);
        lemma_first_characters(t, i + 1, subs[n]);
        assert(argument_end(t, i + 1, 0) == end);
        assert(outcomes(subs, n + 1, blind) == Weighing::Done);
    }
}

/// How far the compiler comes with a policy goes by its branches, whatever these
/// are.
pub proof fn law_policies_are_weighed_by_their_branches(b: Branch)
    requires
        is_policy_branch(b),
    ensures
        weighed(notation(b), 0, false) == outcome(b, false),
        crate::weighing::gets_stuck(notation(b)) <==> outcome(b, false) == Weighing::Stuck,
        crate::weighing::gives_up(notation(b)) <==> outcome(b, false) == Weighing::Refused,
{
    assert(notation(b).subrange(0, notation(b).len() as int) =~= notation(b));
    lemma_weighed(notation(b), 0, b, false);
}

/// The compiler comes to an end on a policy unless it gets stuck at one that is valid
/// and safe, and refuses one that is not, or in which it comes to a branch that
/// nothing satisfies.
pub proof fn law_compilable_policies(t: Seq<char>)
    ensures
        crate::policy::is_compilable(t) <==> !(weighed(t, 0, false) == Weighing::Stuck
            && crate::policy::policy_validity(t) is Ok && crate::policy::policy_safety(t) == (
            true,
            true,
        )),
        crate::policy::is_refused(t) <==> crate::policy::policy_validity(t) is Err
            || crate::policy::policy_safety(t) != (true, true) || weighed(t, 0, false)
            == Weighing::Refused,
{
}

} // verus!
