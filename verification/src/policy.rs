//! Policies, and their compilation to miniscripts.
use std::str::FromStr;
use miniscript::policy::Concrete;
use miniscript::{
    BareCtx as OutsideBare, Legacy as OutsideLegacy, Segwitv0 as OutsideSegwitv0,
};
use vstd::prelude::*;
use crate::category::OuterCategory;
use crate::error::{Error, ErrorOrigin};
use crate::key::Key;
use crate::script::{Miniscript, Rules, ScriptContext};
use crate::text::decimal_text;
use crate::weighing::{weigh_policy, Weighing};

verus! {

/// The rules for the scripts of a category.
pub open spec fn rules_of(category: OuterCategory) -> Rules {
    match category {
        OuterCategory::Bare => Rules::Bare,
        OuterCategory::Hashed => Rules::Legacy,
        OuterCategory::SegWit => Rules::Segwitv0,
        OuterCategory::Taproot => Rules::Segwitv0,
    }
}

/// What `miniscript::policy::Concrete` reads from the text `s`: the policy,
/// written as the crate writes it, or the reason why `s` is no policy.
pub uninterp spec fn read_policy(s: Seq<char>) -> Result<Seq<char>, Seq<char>>;

/// Whether `t` is a policy as `miniscript::policy::Concrete` writes it.
pub open spec fn is_policy(t: Seq<char>) -> bool {
    read_policy(t) == Ok::<Seq<char>, Seq<char>>(t)
}

/// `miniscript::policy::Concrete::from_str`, over keys of `bitcoin::PublicKey`,
/// followed by its `to_string`: the policy in the notation of the crate, which
/// reads as itself. The notation adds odds of one where the text tells none, so
/// the compiler does not get stuck at what is read from a text without odds.
#[verifier::external_body]
fn parse_policy(s: &str) -> (r: Result<String, String>)
    ensures
        crate::error::text_outcome(r) == read_policy(s@),
        r matches Ok(t) ==> is_policy(t@),
        r matches Ok(t) ==> (crate::text::without_odds(s@) ==> !crate::weighing::gets_stuck(t@)),
{
    Concrete::<bitcoin::PublicKey>::from_str(s)
        .map(|policy| policy.to_string())
        .map_err(|e| e.to_string())
}

/// What the policy that is read from `t` is found to break, if anything: mixed
/// timelocks, repeated keys, and numbers that are out of range.
pub uninterp spec fn policy_validity(t: Seq<char>) -> Result<(), Seq<char>>;

/// `miniscript::policy::Concrete::is_valid` on the policy that is read from `t`.
#[verifier::external_body]
fn check_validity(t: &str) -> (r: Result<(), String>)
    requires
        is_policy(t@),
    ensures
        validity_outcome(r) == policy_validity(t@),
{
    Concrete::<bitcoin::PublicKey>::from_str(t).unwrap().is_valid().map_err(|e| e.to_string())
}

/// Nothing or a reason, by its contents.
pub open spec fn validity_outcome(r: Result<(), String>) -> Result<(), Seq<char>> {
    match r {
        Ok(_) => Ok(()),
        Err(e) => Err(e@),
    }
}

/// Whether every way to satisfy the policy that is read from `t` needs a
/// signature, and whether none of them can be malleated.
pub uninterp spec fn policy_safety(t: Seq<char>) -> (bool, bool);

/// `miniscript::policy::Concrete::is_safe_nonmalleable` on the policy that is
/// read from `t`. It counts on thresholds that are within range, as those of valid
/// policies are.
#[verifier::external_body]
fn check_safety(t: &str) -> (r: (bool, bool))
    requires
        is_policy(t@),
        policy_validity(t@) is Ok,
    ensures
        r == policy_safety(t@),
{
    Concrete::<bitcoin::PublicKey>::from_str(t).unwrap().is_safe_nonmalleable()
}

/// Whether the policy compiler refuses the policy `t` before it weighs it, for
/// what it breaks or for want of safety.
pub open spec fn is_refused_unweighed(t: Seq<char>) -> bool {
    policy_validity(t) is Err || policy_safety(t) != (true, true)
}

/// Whether the policy compiler comes to an end on the policy `t`, as far as its
/// branches and their odds tell: it does not get stuck at these, or refuses the
/// policy before it weighs it.
pub open spec fn is_compilable(t: Seq<char>) -> bool {
    !crate::weighing::gets_stuck(t) || is_refused_unweighed(t)
}

/// Whether the policy compiler refuses the policy `t` whatever the rules: before
/// it weighs it, or for a branch that nothing satisfies.
pub open spec fn is_refused(t: Seq<char>) -> bool {
    is_refused_unweighed(t) || crate::weighing::gives_up(t)
}

/// What the compiler of `miniscript` makes of the policy that is read from `t`,
/// under `rules`: the miniscript that it finds cheapest, written as the crate
/// writes it, or the reason why there is none.
pub uninterp spec fn compiled(t: Seq<char>, rules: Rules) -> Result<Seq<char>, Seq<char>>;

/// `miniscript::policy::Concrete::compile` on the policy that is read from `t`,
/// under `rules`. A text that is no policy has no compilation, and neither has a
/// policy that is not valid or not safe, nor one in which the compiler comes to a
/// branch that nothing satisfies. What comes out is a miniscript under the same
/// rules.
///
/// The compiler divides the odds of a branch by those of its disjunction, and
/// panics as soon as it looks up a branch for which the quotient is no number. It
/// adds the two odds as `usize`, which holds the sum of any two where it has 64
/// bits.
#[verifier::external_body]
fn compile_text(t: &str, rules: Rules) -> (r: Result<String, String>)
    requires
        is_compilable(t@),
    ensures
        crate::error::text_outcome(r) == compiled(t@, rules),
        is_policy(t@) && is_refused(t@) ==> r is Err,
        r matches Ok(ms) ==> crate::script::is_miniscript(ms@, rules),
{
    let policy = Concrete::<bitcoin::PublicKey>::from_str(t).map_err(|e| e.to_string())?;
    match rules {
        Rules::Bare => policy.compile::<OutsideBare>().map(|ms| ms.to_string()),
        Rules::Legacy => policy.compile::<OutsideLegacy>().map(|ms| ms.to_string()),
        Rules::Segwitv0 => policy.compile::<OutsideSegwitv0>().map(|ms| ms.to_string()),
    }.map_err(|e| e.to_string())
}

/// A spending policy, held as the text that `miniscript::policy::Concrete`
/// writes for it.
#[derive(PartialEq, Eq, PartialOrd, Ord, Hash, Debug)]
pub struct Policy {
    text: String,
}

impl View for Policy {
    type V = Seq<char>;

    closed spec fn view(&self) -> Seq<char> {
        self.text@
    }
}

impl Clone for Policy {
    fn clone(&self) -> (r: Self)
        ensures
            r@ == self@,
    {
        proof {
            use_type_invariant(self);
        }
        Policy { text: self.text.clone() }
    }
}

impl Policy {
    #[verifier::type_invariant]
    spec fn well_formed(self) -> bool {
        is_policy(self.text@)
    }

    /// Reads a policy.
    pub fn from_str(s: &str) -> (r: Result<Policy, Error>)
        ensures
            match r {
                Ok(policy) => read_policy(s@) == Ok::<Seq<char>, Seq<char>>(policy@),
                Err(e) => e.origin == ErrorOrigin::Policy && read_policy(s@) == Err::<
                    Seq<char>,
                    Seq<char>,
                >(e.message@),
            },
            r matches Ok(policy) ==> is_policy(policy@) && (crate::text::without_odds(s@)
                ==> !crate::weighing::gets_stuck(policy@)),
    {
        match parse_policy(s) {
            Ok(text) => Ok(Policy { text }),
            Err(message) => Err(Error { origin: ErrorOrigin::Policy, message }),
        }
    }

    /// Gives the text of the policy.
    pub fn as_str(&self) -> (r: &str)
        ensures
            r@ == self@,
            is_policy(self@),
    {
        proof {
            use_type_invariant(self);
        }
        self.text.as_str()
    }

    /// Tests whether the policy compiler comes to an end on the policy, as far as the
    /// branches of the policy and their odds tell.
    pub fn is_compilable(&self) -> (r: bool)
        ensures
            r == is_compilable(self@),
            r <==> crate::weighing::weighed(self@, 0, false) != Weighing::Stuck || policy_validity(
                self@,
            ) is Err || policy_safety(self@) != (true, true),
    {
        proof {
            use_type_invariant(self);
        }
        match weigh_policy(self.text.as_str()) {
            Weighing::Stuck => {},
            _ => {
                return true;
            },
        }
        match check_validity(self.text.as_str()) {
            Err(_) => true,
            Ok(_) => {
                let (safe, nonmalleable) = check_safety(self.text.as_str());
                !(safe && nonmalleable)
            },
        }
    }

    /// Compiles the policy to the cheapest miniscript for a place.
    pub fn compile<Ctx: ScriptContext>(&self) -> (r: Result<Miniscript<Ctx>, Error>)
        requires
            is_compilable(self@),
        ensures
            compile_outcome(r) == miniscript_of(self@, Ctx::rules()),
            is_refused(self@) ==> r is Err,
            match r {
                Ok(ms) => compiled(self@, Ctx::rules()) == Ok::<Seq<char>, Seq<char>>(ms@),
                Err(e) => e.origin == ErrorOrigin::Compiler && compiled(self@, Ctx::rules())
                    == Err::<Seq<char>, Seq<char>>(e.message@),
            },
            policy_validity(self@) is Err ==> r is Err,
            policy_safety(self@) != (true, true) ==> r is Err,
    {
        proof {
            use_type_invariant(self);
        }
        compile_policy_text(self.text.as_str())
    }

    /// Compiles the policy to the cheapest miniscript for a place, if the policy
    /// compiler comes to an end on it.
    pub fn try_compile<Ctx: ScriptContext>(&self) -> (r: Option<Result<Miniscript<Ctx>, Error>>)
        ensures
            r is Some <==> is_compilable(self@),
            r matches Some(r) ==> compile_outcome(r) == miniscript_of(self@, Ctx::rules()),
            r matches Some(r) ==> (is_refused(self@) ==> r is Err),
            r matches Some(r) ==> match r {
                Ok(ms) => compiled(self@, Ctx::rules()) == Ok::<Seq<char>, Seq<char>>(ms@),
                Err(e) => e.origin == ErrorOrigin::Compiler && compiled(self@, Ctx::rules())
                    == Err::<Seq<char>, Seq<char>>(e.message@),
            },
    {
        if self.is_compilable() {
            Some(self.compile())
        } else {
            None
        }
    }
}

/// A miniscript or the reason why there is none, by their contents.
pub open spec fn compile_outcome<Ctx: ScriptContext>(r: Result<Miniscript<Ctx>, Error>) -> Result<
    Seq<char>,
    crate::error::ErrorView,
> {
    match r {
        Ok(ms) => Ok(ms@),
        Err(e) => Err(e@),
    }
}

/// The miniscript that the policy `t` compiles to, or the error of the compiler.
pub open spec fn miniscript_of(t: Seq<char>, rules: Rules) -> Result<
    Seq<char>,
    crate::error::ErrorView,
> {
    match compiled(t, rules) {
        Ok(ms) => Ok(ms),
        Err(e) => Err((ErrorOrigin::Compiler, e)),
    }
}

fn compile_policy_text<Ctx: ScriptContext>(t: &str) -> (r: Result<Miniscript<Ctx>, Error>)
    requires
        is_compilable(t@),
    ensures
        compile_outcome(r) == miniscript_of(t@, Ctx::rules()),
        is_policy(t@) && is_refused(t@) ==> r is Err,
        match r {
            Ok(ms) => compiled(t@, Ctx::rules()) == Ok::<Seq<char>, Seq<char>>(ms@),
            Err(e) => e.origin == ErrorOrigin::Compiler && compiled(t@, Ctx::rules()) == Err::<
                Seq<char>,
                Seq<char>,
            >(e.message@),
        },
{
    match compile_text(t, Ctx::get_rules()) {
        Ok(text) => Ok(Miniscript::from_checked(text)),
        Err(message) => Err(Error { origin: ErrorOrigin::Compiler, message }),
    }
}

/// The arguments that stand for `keys` in a policy, each with the comma before
/// it.
pub open spec fn key_policies(keys: Seq<Seq<char>>) -> Seq<char>
    decreases keys.len(),
{
    if keys.len() == 0 {
        seq![]
    } else {
        key_policies(keys.drop_last()) + ",pk("@ + keys.last() + ")"@
    }
}

/// The policy that asks for the signatures of `threshold` of `keys`.
pub open spec fn threshold_policy(threshold: nat, keys: Seq<Seq<char>>) -> Seq<char> {
    "thresh("@ + crate::text::decimal(threshold) + key_policies(keys) + ")"@
}

/// Writes the policy that asks for the signatures of `threshold` of `signers`.
pub fn threshold_policy_text(threshold: usize, signers: &Vec<Key>) -> (r: String)
    ensures
        r@ == threshold_policy(threshold as nat, crate::key::key_texts(signers@)),
        r@ == threshold_policy(
            threshold as nat,
            Seq::new(signers@.len(), |i: int| signers@[i]@),
        ),
{
    assert(crate::key::key_texts(signers@) =~= Seq::new(signers@.len(), |i: int| signers@[i]@));
    let ghost texts = crate::key::key_texts(signers@);
    let mut r = "thresh(".to_owned();
    r.append(decimal_text(threshold).as_str());
    let mut i: usize = 0;
    assert(texts.take(0) =~= seq![]);
    assert(r@ =~= "thresh("@ + crate::text::decimal(threshold as nat) + key_policies(
        texts.take(0),
    ));
    while i < signers.len()
        invariant
            i <= signers.len(),
            texts == crate::key::key_texts(signers@),
            r@ == "thresh("@ + crate::text::decimal(threshold as nat) + key_policies(
                texts.take(i as int),
            ),
        decreases signers.len() - i,
    {
        r.append(",pk(");
        r.append(signers[i].as_str());
        r.append(")");
        assert(texts.take(i + 1).drop_last() =~= texts.take(i as int));
        assert(texts.take(i + 1).last() == signers@[i as int]@);
        assert(r@ =~= "thresh("@ + crate::text::decimal(threshold as nat) + key_policies(
            texts.take(i + 1),
        ));
        i = i + 1;
    }
    assert(texts.take(i as int) =~= texts);
    r.append(")");
    r
}

proof fn lemma_decimal_without_odds(n: nat)
    ensures
        crate::text::without_odds(crate::text::decimal(n)),
    decreases n,
{
    if n >= 10 {
        lemma_decimal_without_odds(n / 10);
    }
}

proof fn lemma_key_policies_without_odds(keys: Seq<Seq<char>>)
    requires
        forall|i: int| 0 <= i < keys.len() ==> crate::key::is_key_shaped(#[trigger] keys[i]),
    ensures
        crate::text::without_odds(key_policies(keys)),
    decreases keys.len(),
{
    reveal_strlit(",pk(");
    reveal_strlit(")");
    if keys.len() > 0 {
        assert(crate::key::is_key_shaped(keys[keys.len() - 1]));
        assert forall|i: int| 0 <= i < keys.drop_last().len() implies crate::key::is_key_shaped(
            #[trigger] keys.drop_last()[i],
        ) by {
            assert(keys.drop_last()[i] == keys[i]);
        }
        lemma_key_policies_without_odds(keys.drop_last());
    }
}

/// The compiler does not get stuck at the policy that asks for the signatures of
/// some of a list of keys.
pub proof fn lemma_threshold_policy(threshold: nat, keys: Seq<Seq<char>>)
    requires
        forall|i: int| 0 <= i < keys.len() ==> crate::key::is_key_shaped(#[trigger] keys[i]),
    ensures
        !crate::weighing::gets_stuck(threshold_policy(threshold, keys)),
{
    reveal_strlit("thresh(");
    reveal_strlit(")");
    lemma_decimal_without_odds(threshold);
    lemma_key_policies_without_odds(keys);
    crate::weighing::lemma_without_odds(threshold_policy(threshold, keys));
}

/// The miniscript that asks for the signatures of `threshold` of `keys`, under
/// `rules`, or the error of the compiler.
pub open spec fn multisig(threshold: nat, keys: Seq<Seq<char>>, rules: Rules) -> Result<
    Seq<char>,
    crate::error::ErrorView,
> {
    miniscript_of(threshold_policy(threshold, keys), rules)
}

/// Makes the miniscript that asks for the signatures of `threshold` of
/// `signers`, for a place.
pub fn multisig_miniscript<Ctx: ScriptContext>(threshold: usize, signers: &Vec<Key>) -> (r: Result<
    Miniscript<Ctx>,
    Error,
>)
    ensures
        compile_outcome(r) == multisig(
            threshold as nat,
            crate::key::key_texts(signers@),
            Ctx::rules(),
        ),
        ({
            let keys = Seq::new(signers@.len(), |i: int| signers@[i]@);
            compiled(threshold_policy(threshold as nat, keys), Ctx::rules()) == match r {
                Ok(ms) => Ok::<Seq<char>, Seq<char>>(ms@),
                Err(e) => Err(e.message@),
            }
        }),
        r matches Err(e) ==> e.origin == ErrorOrigin::Compiler,
{
    assert(crate::key::key_texts(signers@) =~= Seq::new(signers@.len(), |i: int| signers@[i]@));
    crate::key::check_keys(signers);
    let text = threshold_policy_text(threshold, signers);
    proof {
        lemma_threshold_policy(
            threshold as nat,
            crate::key::key_texts(signers@),
        );
    }
    compile_policy_text(text.as_str())
}

} // verus!
