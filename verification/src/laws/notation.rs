//! Laws of notation: numbers, names, and the policies and expressions of keys.
use vstd::prelude::*;
use crate::category::ContractType;
use crate::policy::threshold_policy;
use crate::text::{decimal, is_white_space, trimmed, trimmed_end, trimmed_start};

verus! {

/// The number that the decimal digits `t` stand for.
pub open spec fn number(t: Seq<char>) -> nat
    decreases t.len(),
{
    if t.len() == 0 {
        0
    } else {
        (10 * number(t.drop_last()) + (t.last() as int - '0' as int)) as nat
    }
}

/// The decimal notation of a number reads as the number. It is made of digits, of
/// which the first is zero only where there is no other.
pub proof fn law_decimals_read_back(n: nat)
    ensures
        number(decimal(n)) == n,
        decimal(n).len() > 0,
        forall|i: int| 0 <= i < decimal(n).len() ==> '0' <= #[trigger] decimal(n)[i] <= '9',
        decimal(n)[0] == '0' ==> decimal(n).len() == 1,
    decreases n,
{
    if n < 10 {
        assert(decimal(n).drop_last() =~= seq![]);
        reveal_with_fuel(number, 2);
    } else {
        law_decimals_read_back(n / 10);
        assert(decimal(n).drop_last() =~= decimal(n / 10));
        assert(decimal(n).last() as int - '0' as int == n % 10);
        assert(decimal(n)[0] == decimal(n / 10)[0]);
        if decimal(n)[0] == '0' {
            assert(decimal(n / 10).len() == 1);
            assert(decimal(n / 10).drop_last() =~= seq![]);
            reveal_with_fuel(number, 2);
            assert(number(decimal(n / 10)) == 0);
        }
    }
}

/// Different numbers have different notations.
pub proof fn law_decimals_tell_numbers_apart(m: nat, n: nat)
    requires
        decimal(m) == decimal(n),
    ensures
        m == n,
{
    law_decimals_read_back(m);
    law_decimals_read_back(n);
}

/// The policy of a multisig is the threshold followed by the keys, each after a comma
/// and within the brackets of `pk`, in the order in which they are given.
pub proof fn law_policy_of_a_multisig(threshold: nat, keys: Seq<Seq<char>>)
    ensures
        keys.len() == 0 ==> threshold_policy(threshold, keys) == "thresh("@ + decimal(threshold)
            + ")"@,
        keys.len() > 0 ==> threshold_policy(threshold, keys) == threshold_policy(
            threshold,
            keys.drop_last(),
        ).drop_last() + ",pk("@ + keys.last() + "))"@,
{
    reveal_strlit(")");
    reveal_strlit("))");
    if keys.len() == 0 {
        assert(threshold_policy(threshold, keys) =~= "thresh("@ + decimal(threshold) + ")"@);
    } else {
        assert(threshold_policy(threshold, keys) =~= threshold_policy(
            threshold,
            keys.drop_last(),
        ).drop_last() + ",pk("@ + keys.last() + "))"@);
    }
}

proof fn lemma_key_policies_apart(a: Seq<Seq<char>>, b: Seq<Seq<char>>)
    requires
        forall|i: int| 0 <= i < a.len() ==> crate::key::is_key_shaped(#[trigger] a[i]),
        forall|i: int| 0 <= i < b.len() ==> crate::key::is_key_shaped(#[trigger] b[i]),
        crate::policy::key_policies(a) == crate::policy::key_policies(b),
    ensures
        a == b,
    decreases a.len(),
{
    reveal_strlit(",pk(");
    reveal_strlit(")");
    let s = crate::policy::key_policies(a);
    if a.len() == 0 || b.len() == 0 {
        assert(a =~= b);
    } else {
        let x = a.last();
        let y = b.last();
        assert(crate::key::is_key_shaped(a[a.len() - 1]));
        assert(crate::key::is_key_shaped(b[b.len() - 1]));
        let p = crate::policy::key_policies(a.drop_last());
        let q = crate::policy::key_policies(b.drop_last());
        assert(s == p + ",pk("@ + x + ")"@);
        assert(s == q + ",pk("@ + y + ")"@);
        if x.len() < y.len() {
            assert(s[s.len() - 2 - x.len()] == '(');
            assert(s[s.len() - 2 - x.len()] == y[y.len() - 1 - x.len()]);
        }
        if y.len() < x.len() {
            assert(s[s.len() - 2 - y.len()] == '(');
            assert(s[s.len() - 2 - y.len()] == x[x.len() - 1 - y.len()]);
        }
        assert(x.len() == y.len());
        assert(p.len() == q.len());
        assert(p =~= s.subrange(0, p.len() as int));
        assert(q =~= s.subrange(0, p.len() as int));
        assert(x =~= s.subrange(4int + p.len(), s.len() - 1));
        assert(y =~= s.subrange(4int + p.len(), s.len() - 1));
        assert forall|i: int| 0 <= i < a.drop_last().len() implies crate::key::is_key_shaped(
            #[trigger] a.drop_last()[i],
        ) by {
            assert(a.drop_last()[i] == a[i]);
        }
        assert forall|i: int| 0 <= i < b.drop_last().len() implies crate::key::is_key_shaped(
            #[trigger] b.drop_last()[i],
        ) by {
            assert(b.drop_last()[i] == b[i]);
        }
        lemma_key_policies_apart(a.drop_last(), b.drop_last());
        assert(a =~= a.drop_last().push(x));
        assert(b =~= b.drop_last().push(y));
    }
}

proof fn lemma_key_policies_start(keys: Seq<Seq<char>>)
    ensures
        keys.len() > 0 ==> crate::policy::key_policies(keys).len() > 0
            && crate::policy::key_policies(keys)[0] == ',',
    decreases keys.len(),
{
    reveal_strlit(",pk(");
    if keys.len() > 0 {
        let before = crate::policy::key_policies(keys.drop_last());
        lemma_key_policies_start(keys.drop_last());
        if keys.len() == 1 {
            assert(before.len() == 0);
        }
        assert(crate::policy::key_policies(keys)[0] == if before.len() > 0 {
            before[0]
        } else {
            ",pk("@[0]
        });
    }
}

/// The policy of a multisig tells its threshold and its keys: multisigs that differ
/// in one of these have different policies.
pub proof fn law_policies_tell_multisigs_apart(
    k: nat,
    l: nat,
    a: Seq<Seq<char>>,
    b: Seq<Seq<char>>,
)
    requires
        forall|i: int| 0 <= i < a.len() ==> crate::key::is_key_shaped(#[trigger] a[i]),
        forall|i: int| 0 <= i < b.len() ==> crate::key::is_key_shaped(#[trigger] b[i]),
        threshold_policy(k, a) == threshold_policy(l, b),
    ensures
        k == l,
        a == b,
{
    reveal_strlit("thresh(");
    reveal_strlit(")");
    let s = threshold_policy(k, a);
    let x = decimal(k);
    let y = decimal(l);
    let p = crate::policy::key_policies(a);
    let q = crate::policy::key_policies(b);
    law_decimals_read_back(k);
    law_decimals_read_back(l);
    lemma_key_policies_start(a);
    lemma_key_policies_start(b);
    assert(s == "thresh("@ + x + p + ")"@);
    assert(s == "thresh("@ + y + q + ")"@);
    if x.len() < y.len() {
        assert(s[7int + x.len()] == y[x.len() as int]);
        assert(s[7int + x.len()] == (p + ")"@)[0]);
    }
    if y.len() < x.len() {
        assert(s[7int + y.len()] == x[y.len() as int]);
        assert(s[7int + y.len()] == (q + ")"@)[0]);
    }
    assert(x.len() == y.len());
    assert(x =~= s.subrange(7, 7int + x.len()));
    assert(y =~= s.subrange(7, 7int + x.len()));
    assert(p =~= s.subrange(7int + x.len(), s.len() - 1));
    assert(q =~= s.subrange(7int + x.len(), s.len() - 1));
    lemma_key_policies_apart(a, b);
}

/// The arguments of `multi` and `sortedmulti` are the keys, each after a comma, in
/// the order in which they are given, behind the threshold.
pub proof fn law_expressions_of_multisigs(threshold: usize, keys: Seq<Seq<char>>)
    ensures
        keys.len() == 0 ==> crate::descriptor::key_arguments(keys) == Seq::<char>::empty(),
        keys.len() > 0 ==> crate::descriptor::key_arguments(keys)
            == crate::descriptor::key_arguments(keys.drop_last()) + ","@ + keys.last(),
        crate::descriptor::multi(threshold, keys) == "multi("@ + decimal(threshold as nat)
            + crate::descriptor::key_arguments(keys) + ")"@,
        crate::descriptor::sortedmulti(threshold, keys) == "sortedmulti("@ + decimal(
            threshold as nat,
        ) + crate::descriptor::key_arguments(keys) + ")"@,
{
}

/// A text stands in another where each of its characters does, and starts it where it
/// stands at its beginning.
pub proof fn law_standing_in_a_text(t: Seq<char>, i: int, p: Seq<char>)
    ensures
        crate::text::stands_at(t, i, p) <==> {
            &&& 0 <= i
            &&& i + p.len() <= t.len()
            &&& forall|k: int| 0 <= k < p.len() ==> t[i + k] == #[trigger] p[k]
        },
        crate::text::starts_with(t, p) <==> crate::text::stands_at(t, 0, p),
{
    if 0 <= i && i + p.len() <= t.len() {
        let u = t.subrange(i, i + p.len());
        if forall|k: int| 0 <= k < p.len() ==> t[i + k] == #[trigger] p[k] {
            assert(u =~= p);
        } else if u == p {
            assert forall|k: int| 0 <= k < p.len() implies t[i + k] == #[trigger] p[k] by {
                assert(u[k] == t[i + k]);
            }
        }
    }
}

/// Nothing but the three names is recognized, and each names its own type.
pub proof fn law_only_names_are_recognized(name: Seq<char>)
    ensures
        match ContractType::named(name) {
            Some(ContractType::SingleSig) => name == "singlesig"@,
            Some(ContractType::MultiSig) => name == "multisig"@,
            Some(ContractType::Script) => name == "script"@,
            None => name != "singlesig"@ && name != "multisig"@ && name != "script"@,
        },
        ContractType::named(name) matches Some(t) ==> t.name() == name,
{
}

proof fn lemma_trimmed_end_range(s: Seq<char>) -> (j: int)
    ensures
        0 <= j <= s.len(),
        trimmed_end(s) == s.subrange(0, j),
        forall|k: int| j <= k < s.len() ==> is_white_space(#[trigger] s[k]),
        j > 0 ==> !is_white_space(s[j - 1]),
    decreases s.len(),
{
    if s.len() > 0 && is_white_space(s.last()) {
        let j = lemma_trimmed_end_range(s.drop_last());
        assert(s.drop_last().subrange(0, j) =~= s.subrange(0, j));
        assert forall|k: int| j <= k < s.len() implies is_white_space(#[trigger] s[k]) by {
            if k < s.len() - 1 {
                assert(s.drop_last()[k] == s[k]);
            }
        }
        j
    } else {
        assert(s.subrange(0, s.len() as int) =~= s);
        s.len() as int
    }
}

proof fn lemma_trimmed_start_range(s: Seq<char>) -> (i: int)
    ensures
        0 <= i <= s.len(),
        trimmed_start(s) == s.subrange(i, s.len() as int),
        forall|k: int| 0 <= k < i ==> is_white_space(#[trigger] s[k]),
        i < s.len() ==> !is_white_space(s[i]),
    decreases s.len(),
{
    if s.len() > 0 && is_white_space(s.first()) {
        let i = lemma_trimmed_start_range(s.drop_first());
        assert(s.drop_first().subrange(i, s.len() - 1) =~= s.subrange(i + 1, s.len() as int));
        assert forall|k: int| 0 <= k < i + 1 implies is_white_space(#[trigger] s[k]) by {
            if k > 0 {
                assert(s.drop_first()[k - 1] == s[k]);
            }
        }
        i + 1
    } else {
        assert(s.subrange(0, s.len() as int) =~= s);
        0
    }
}

/// A text without the white space around it is a part of the text: what stands
/// before it and behind it is white space, and what it starts and ends with is not.
pub proof fn law_trimming_takes_white_space_off(s: Seq<char>)
    ensures
        exists|i: int, j: int|
            {
                &&& 0 <= i <= j <= s.len()
                &&& trimmed(s) == #[trigger] s.subrange(i, j)
                &&& forall|k: int| 0 <= k < i ==> is_white_space(#[trigger] s[k])
                &&& forall|k: int| j <= k < s.len() ==> is_white_space(#[trigger] s[k])
                &&& i < j ==> !is_white_space(s[i]) && !is_white_space(s[j - 1])
            },
{
    let i = lemma_trimmed_start_range(s);
    let t = s.subrange(i, s.len() as int);
    let n = lemma_trimmed_end_range(t);
    let j = i + n;
    assert(t.subrange(0, n) =~= s.subrange(i, j));
    assert forall|k: int| j <= k < s.len() implies is_white_space(#[trigger] s[k]) by {
        assert(t[k - i] == s[k]);
    }
    if i < j {
        assert(t[n - 1] == s[j - 1]);
        assert(t[0] == s[i]);
    }
}

/// The white space among the ASCII characters: the blank, and the five characters
/// from the tabulator to the carriage return.
pub proof fn law_white_space_in_ascii(c: char)
    requires
        (c as int) < 0x80,
    ensures
        is_white_space(c) <==> c == ' ' || 9 <= c as int <= 13,
{
}

/// Lower case: the capital letters of ASCII become the small ones in the same place
/// of the alphabet, and nothing else changes.
pub proof fn law_lower_case(c: char)
    ensures
        'A' <= c <= 'Z' ==> crate::text::lower_ascii(c) as int - 'a' as int == c as int
            - 'A' as int,
        !('A' <= c <= 'Z') ==> crate::text::lower_ascii(c) == c,
{
}

} // verus!
