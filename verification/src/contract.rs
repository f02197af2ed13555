//! Contract descriptors.
use vstd::prelude::*;
use crate::category::{OuterCategory, OuterType};
use crate::compiled::{CompiledMiniscript, CompiledView};
use crate::descriptor::{Address, DescriptorType, DescriptorView, Network, OutputDescriptor};
use crate::error::{Error, ErrorOrigin};
use crate::key::{check_keys, clone_keys, Key};
use crate::parsed::{
    ParsedDescriptor, ParsedView, ShInner, ShInnerView, Terminal, TerminalView, WshInner,
    WshInnerView,
};
use crate::policy::{multisig_miniscript, Policy};
use crate::script::Rules;

verus! {

/// A contract that bitcoin outputs can be locked with.
///
/// Sorted bare multisigs are not supported: their descriptors are those of the
/// unsorted ones.
#[derive(PartialEq, Eq, PartialOrd, Ord, Hash, Debug)]
pub enum ContractDescriptor {
    /// A signature of one key.
    SingleSig { category: OuterCategory, pk: Key },
    /// Signatures of some of a list of keys, in lexicographic order if `sorted`.
    MultiSig {
        category: OuterCategory,
        threshold: usize,
        signers: Vec<Key>,
        sorted: bool,
    },
    /// Whatever a policy asks for. The policy is what counts, and `ms_cache` is
    /// what it was compiled to.
    Script { ms_cache: CompiledMiniscript, policy: Policy },
}

/// A contract, by its contents.
pub enum ContractView {
    SingleSig { category: OuterCategory, pk: Seq<char> },
    MultiSig {
        category: OuterCategory,
        threshold: usize,
        signers: Seq<Seq<char>>,
        sorted: bool,
    },
    Script { ms_cache: CompiledView, policy: Seq<char> },
}

impl View for ContractDescriptor {
    type V = ContractView;

    open spec fn view(&self) -> ContractView {
        match *self {
            ContractDescriptor::SingleSig { category, pk } => ContractView::SingleSig {
                category,
                pk: pk@,
            },
            ContractDescriptor::MultiSig { category, threshold, signers, sorted } =>
                ContractView::MultiSig {
                category,
                threshold,
                signers: crate::key::key_texts(signers@),
                sorted,
            },
            ContractDescriptor::Script { ms_cache, policy } => ContractView::Script {
                ms_cache: ms_cache@,
                policy: policy@,
            },
        }
    }
}

/// A contract or the reason why there is none, by their contents.
pub type ContractOutcome = Result<ContractView, crate::error::ErrorView>;

/// A contract or the reason why there is none, by their contents.
pub open spec fn contract_outcome(r: Result<ContractDescriptor, Error>) -> ContractOutcome {
    match r {
        Ok(d) => Ok(d@),
        Err(e) => Err(e@),
    }
}

impl ContractView {
    /// The outermost fragment of the descriptor of the contract.
    pub open spec fn outer_type(self) -> OuterType {
        match self {
            ContractView::SingleSig { category, .. } => category.outer_type(false),
            ContractView::MultiSig { category, .. } => category.outer_type(true),
            ContractView::Script { ms_cache, .. } => ms_cache.category.outer_type(true),
        }
    }

    /// The contract behind a script with the outermost fragment `node`: that of
    /// the key or the keys that it checks, or else that of the policy that
    /// `policy_source` states.
    pub open spec fn of_script(
        node: TerminalView,
        category: OuterCategory,
        policy_source: Seq<char>,
    ) -> ContractOutcome {
        match node {
            TerminalView::PkK(pk) => Ok(ContractView::SingleSig { category, pk }),
            TerminalView::Multi(threshold, signers) => Ok(
                ContractView::MultiSig { category, threshold, signers, sorted: false },
            ),
            TerminalView::Other => match crate::policy::read_policy(policy_source) {
                Err(e) => Err((ErrorOrigin::Policy, e)),
                Ok(policy) => match CompiledView::of_policy(policy, category) {
                    Err(e) => Err(e),
                    Ok(ms_cache) => Ok(ContractView::Script { ms_cache, policy }),
                },
            },
        }
    }

    /// The contract of the descriptor `parsed`, which was read from `s` and holds
    /// no other descriptor. A policy is looked for in `s`, between the brackets of
    /// the outermost fragment.
    pub open spec fn of_parsed(parsed: ParsedView, s: Seq<char>) -> ContractOutcome {
        match parsed {
            ParsedView::Pkh(pk) => Ok(
                ContractView::SingleSig { category: OuterCategory::Hashed, pk },
            ),
            ParsedView::Wpkh(pk) => Ok(
                ContractView::SingleSig { category: OuterCategory::SegWit, pk },
            ),
            ParsedView::Bare(node) => ContractView::of_script(
                node,
                OuterCategory::Bare,
                s.subrange(5, s.len() - 1),
            ),
            ParsedView::Wsh(WshInnerView::SortedMulti(threshold, signers)) => Ok(
                ContractView::MultiSig {
                    category: OuterCategory::SegWit,
                    threshold,
                    signers,
                    sorted: true,
                },
            ),
            ParsedView::Wsh(WshInnerView::Ms(node)) => ContractView::of_script(
                node,
                OuterCategory::SegWit,
                s.subrange(4, s.len() - 1),
            ),
            ParsedView::Sh(ShInnerView::SortedMulti(threshold, signers)) => Ok(
                ContractView::MultiSig {
                    category: OuterCategory::Hashed,
                    threshold,
                    signers,
                    sorted: true,
                },
            ),
            ParsedView::Sh(ShInnerView::Ms(node)) => ContractView::of_script(
                node,
                OuterCategory::Hashed,
                s.subrange(3, s.len() - 1),
            ),
            ParsedView::Sh(_) => arbitrary(),
        }
    }

    /// The contract of the descriptor that is read from the text `s`. A descriptor
    /// that is nested in a script hash is read by itself, from the text between the
    /// brackets of the hash, than which no such text is shorter.
    pub open spec fn of_text(s: Seq<char>) -> ContractOutcome
        decreases s.len(),
    {
        match crate::parsed::parsed(s) {
            Err(e) => Err((ErrorOrigin::Descriptor, e)),
            Ok(parsed) => if !parsed.is_nested() {
                ContractView::of_parsed(parsed, s)
            } else if s.len() >= 4 {
                ContractView::of_text(crate::parsed::inside_sh(s))
            } else {
                Err((ErrorOrigin::Descriptor, s))
            },
        }
    }

    /// The miniscript of an unsorted multisig of a category, or the error of the
    /// compiler.
    pub open spec fn multisig_of(
        category: OuterCategory,
        threshold: usize,
        signers: Seq<Seq<char>>,
    ) -> Result<Seq<char>, crate::error::ErrorView> {
        crate::policy::multisig(threshold as nat, signers, crate::policy::rules_of(category))
    }

    /// The descriptor of the contract, if there is one, with witness fragments in
    /// a script hash if `nested`.
    ///
    /// There is none for taproot outputs, nor for a witness key that is not
    /// compressed, nor for sorted keys that are not within the limits, nor where the
    /// policy compiler refuses an unsorted multisig or a bare script is not a standard
    /// one.
    pub open spec fn described(self, nested: bool) -> Option<DescriptorView> {
        match self {
            ContractView::SingleSig { category, pk } => match category {
                OuterCategory::Bare => Some(
                    crate::descriptor::of_keys(
                        DescriptorType::Pk,
                        crate::descriptor::pk_descriptor(pk),
                    ),
                ),
                OuterCategory::Hashed => Some(
                    crate::descriptor::of_keys(
                        DescriptorType::Pkh,
                        crate::descriptor::pkh_descriptor(pk),
                    ),
                ),
                OuterCategory::SegWit => if !crate::key::is_compressed(pk) {
                    None
                } else if nested {
                    Some(
                        crate::descriptor::of_keys(
                            DescriptorType::ShWpkh,
                            crate::descriptor::sh_wpkh_descriptor(pk),
                        ),
                    )
                } else {
                    Some(
                        crate::descriptor::of_keys(
                            DescriptorType::Wpkh,
                            crate::descriptor::wpkh_descriptor(pk),
                        ),
                    )
                },
                OuterCategory::Taproot => None,
            },
            ContractView::MultiSig { category, threshold, signers, sorted } => if sorted && category
                != OuterCategory::Bare {
                ContractView::sorted_described(category, threshold, signers, nested)
            } else {
                match ContractView::multisig_of(category, threshold, signers) {
                    Err(_) => None,
                    Ok(ms) => if nested && category == OuterCategory::SegWit {
                        Some(
                            crate::descriptor::of_script(
                                DescriptorType::ShWsh,
                                ms,
                                crate::descriptor::sh_wsh_descriptor(ms),
                            ),
                        )
                    } else {
                        (CompiledView { category, miniscript: ms }).described()
                    },
                }
            },
            ContractView::Script { ms_cache, .. } => ms_cache.described(),
        }
    }

    /// The descriptor of a sorted multisig of a category other than that of bare
    /// outputs, if there is one.
    pub open spec fn sorted_described(
        category: OuterCategory,
        threshold: usize,
        signers: Seq<Seq<char>>,
        nested: bool,
    ) -> Option<DescriptorView> {
        if category == OuterCategory::Hashed && crate::descriptor::fits_input(
            threshold,
            signers.len(),
        ) {
            Some(
                crate::descriptor::of_keys(
                    DescriptorType::ShSortedMulti,
                    crate::descriptor::sh_sortedmulti_descriptor(threshold, signers),
                ),
            )
        } else if category == OuterCategory::SegWit && crate::descriptor::fits_witness(
            threshold,
            signers.len(),
        ) {
            if nested {
                Some(
                    crate::descriptor::of_keys(
                        DescriptorType::ShWshSortedMulti,
                        crate::descriptor::sh_wsh_sortedmulti_descriptor(threshold, signers),
                    ),
                )
            } else {
                Some(
                    crate::descriptor::of_keys(
                        DescriptorType::WshSortedMulti,
                        crate::descriptor::wsh_sortedmulti_descriptor(threshold, signers),
                    ),
                )
            }
        } else {
            None
        }
    }

    /// The expression of the descriptor of the contract, not nested.
    pub open spec fn plain_expression(self) -> Seq<char> {
        match self {
            ContractView::SingleSig { category, pk } => match category {
                OuterCategory::Hashed => crate::parsed::pkh_of(pk),
                OuterCategory::SegWit => crate::parsed::wpkh_of(pk),
                _ => crate::descriptor::pk_of(pk),
            },
            ContractView::MultiSig { category, threshold, signers, sorted } => if sorted && category
                == OuterCategory::Hashed {
                crate::descriptor::sh_of(crate::descriptor::sortedmulti(threshold, signers))
            } else if sorted && category == OuterCategory::SegWit {
                crate::descriptor::wsh_of(crate::descriptor::sortedmulti(threshold, signers))
            } else {
                (CompiledView {
                    category,
                    miniscript: ContractView::multisig_of(category, threshold, signers)->Ok_0,
                }).expression()
            },
            ContractView::Script { ms_cache, .. } => ms_cache.expression(),
        }
    }

    /// Whether the contract is one of witness keys, which alone are nested.
    pub open spec fn is_nestable(self) -> bool {
        match self {
            ContractView::SingleSig { category, .. } => category == OuterCategory::SegWit,
            ContractView::MultiSig { category, .. } => category == OuterCategory::SegWit,
            ContractView::Script { .. } => false,
        }
    }

    /// The expression of the descriptor of the contract, with witness fragments in
    /// a script hash if `nested`.
    pub open spec fn expression(self, nested: bool) -> Seq<char> {
        if nested && self.is_nestable() {
            crate::descriptor::sh_of(self.plain_expression())
        } else {
            self.plain_expression()
        }
    }

    /// Whether `outcome` is a contract, and the text `s` reads as its descriptor,
    /// with witness fragments in a script hash if `nested`.
    pub open spec fn gives_back(outcome: ContractOutcome, nested: bool, s: Seq<char>) -> bool {
        &&& outcome matches Ok(contract)
        &&& contract.described(nested) matches Some(d)
        &&& crate::parsed::reads_as_text(s, d.text)
    }

    /// The text of the descriptor of the contract, not nested, where there is one.
    pub open spec fn plain_text(self) -> Seq<char> {
        self.described(false)->0.text
    }

    /// The script in the outputs of the contract, the script of which is `script`
    /// before any hashing: that script itself, or what commits to it by its hash.
    pub open spec fn output_of(self, script: Seq<u8>) -> Seq<u8> {
        match self.outer_type() {
            OuterType::Sh => crate::script::p2sh(script),
            OuterType::Wsh => crate::script::p2wsh(script),
            _ => script,
        }
    }

    /// Whether outputs of the contract hold its script, or that of its key, itself.
    pub open spec fn is_bare(self) -> bool {
        self.outer_type() == OuterType::Bare || self.outer_type() == OuterType::Pk
    }

    /// Whether `script` is what signatures for an output of the contract commit to,
    /// as far as that is the script in its outputs or the one before any hashing.
    pub open spec fn signs(self, script: Seq<u8>) -> bool {
        match self.outer_type() {
            OuterType::Sh => script == crate::descriptor::script_before_hashing(self.plain_text()),
            OuterType::Wsh => script == crate::descriptor::script_before_hashing(
                self.plain_text(),
            ),
            OuterType::Wpkh => true,
            _ => script == crate::descriptor::output_script(self.plain_text()),
        }
    }

    /// Whether the contract differs from `other` only in the order in which the
    /// signers of a sorted multisig, all compressed keys, are given.
    pub open spec fn is_reordering_of(self, other: ContractView) -> bool {
        match (self, other) {
            (
                ContractView::MultiSig { category: c, threshold: k, signers: a, sorted: s },
                ContractView::MultiSig { category: d, threshold: l, signers: b, sorted: t },
            ) => {
                &&& c == d
                &&& c == OuterCategory::Hashed || c == OuterCategory::SegWit
                &&& k == l
                &&& s && t
                &&& crate::descriptor::are_reordered(a, b)
            },
            _ => false,
        }
    }

    /// The text of the contract, if it has one: the policy of a script, and else
    /// the descriptor, with witness fragments in a script hash if `nested`.
    pub open spec fn written(self, nested: bool) -> Option<Seq<char>> {
        match self {
            ContractView::Script { policy, .. } => Some(policy),
            _ => match self.described(nested) {
                Some(d) => Some(d.text),
                None => None,
            },
        }
    }

    /// Whether the text of the contract tells all of it: not that of a script,
    /// which is a policy, nor that of a bare key, of which no policy is read, nor
    /// one that is nested, nor that of a bare multisig to be sorted. An unsorted
    /// multisig is told where the compiler makes a check of its keys out of it.
    pub open spec fn reads_back(self, nested: bool) -> bool {
        match self {
            ContractView::SingleSig { category, .. } => {
                ||| category == OuterCategory::Hashed
                ||| category == OuterCategory::SegWit && !nested
            },
            ContractView::MultiSig { category, threshold, signers, sorted } => {
                &&& category == OuterCategory::SegWit ==> !nested
                &&& if sorted {
                    category == OuterCategory::Hashed || category == OuterCategory::SegWit
                } else {
                    ContractView::multisig_of(category, threshold, signers) == Ok::<
                        Seq<char>,
                        crate::error::ErrorView,
                    >(crate::descriptor::multi(threshold, signers))
                }
            },
            ContractView::Script { .. } => false,
        }
    }
}

impl Clone for ContractDescriptor {
    fn clone(&self) -> (r: Self)
        ensures
            r@ == self@,
    {
        match self {
            ContractDescriptor::SingleSig { category, pk } => ContractDescriptor::SingleSig {
                category: *category,
                pk: pk.clone(),
            },
            ContractDescriptor::MultiSig { category, threshold, signers, sorted } =>
                ContractDescriptor::MultiSig {
                category: *category,
                threshold: *threshold,
                signers: clone_keys(signers),
                sorted: *sorted,
            },
            ContractDescriptor::Script { ms_cache, policy } => ContractDescriptor::Script {
                ms_cache: ms_cache.clone(),
                policy: policy.clone(),
            },
        }
    }
}

impl ContractDescriptor {
    /// Finds the contract behind a script with the outermost fragment `node`. The
    /// policy is read from `policy_source` if the fragment does not check keys.
    pub fn with(node: Terminal, category: OuterCategory, policy_source: &str) -> (r: Result<
        ContractDescriptor,
        Error,
    >)
        requires
            node is Other && crate::policy::read_policy(policy_source@) is Ok
                ==> crate::text::without_odds(policy_source@) || crate::policy::is_compilable(
                crate::policy::read_policy(policy_source@)->Ok_0,
            ),
        ensures
            contract_outcome(r) == ContractView::of_script(node@, category, policy_source@),
            node matches Terminal::PkK(key) ==> (r matches Ok(
                ContractDescriptor::SingleSig { category: place, pk },
            ) && place == category && pk@ == key@),
            node matches Terminal::Multi(k, keys) ==> (r matches Ok(
                ContractDescriptor::MultiSig { category: place, threshold, signers, sorted },
            ) && place == category && threshold == k && signers@ == keys@ && !sorted),
            node is Other ==> (r matches Ok(d) ==> {
                &&& d matches ContractDescriptor::Script { ms_cache, policy }
                &&& crate::policy::read_policy(policy_source@) == Ok::<Seq<char>, Seq<char>>(
                    policy@,
                )
                &&& match (category, ms_cache) {
                    (OuterCategory::Bare, CompiledMiniscript::Bare(ms)) => crate::policy::compiled(
                        policy@,
                        Rules::Bare,
                    ) == Ok::<Seq<char>, Seq<char>>(ms@),
                    (OuterCategory::Hashed, CompiledMiniscript::Hashed(ms)) =>
                        crate::policy::compiled(policy@, Rules::Legacy) == Ok::<
                        Seq<char>,
                        Seq<char>,
                    >(ms@),
                    (OuterCategory::SegWit, CompiledMiniscript::SegWit(ms)) =>
                        crate::policy::compiled(policy@, Rules::Segwitv0) == Ok::<
                        Seq<char>,
                        Seq<char>,
                    >(ms@),
                    (OuterCategory::Taproot, CompiledMiniscript::Taproot(ms)) =>
                        crate::policy::compiled(policy@, Rules::Segwitv0) == Ok::<
                        Seq<char>,
                        Seq<char>,
                    >(ms@),
                    _ => false,
                }
            }),
            node is Other ==> (r matches Err(e) ==> match crate::policy::read_policy(
                policy_source@,
            ) {
                Err(reason) => e.origin == ErrorOrigin::Policy && e.message@ == reason,
                Ok(p) => e.origin == ErrorOrigin::Compiler && (match category {
                    OuterCategory::Bare => crate::policy::compiled(p, Rules::Bare),
                    OuterCategory::Hashed => crate::policy::compiled(p, Rules::Legacy),
                    _ => crate::policy::compiled(p, Rules::Segwitv0),
                } == Err::<Seq<char>, Seq<char>>(e.message@)),
            }),
    {
        match node {
            Terminal::PkK(pk) => Ok(ContractDescriptor::SingleSig { category, pk }),
            Terminal::Multi(threshold, signers) => Ok(
                ContractDescriptor::MultiSig { category, threshold, signers, sorted: false },
            ),
            Terminal::Other => {
                let policy = match Policy::from_str(policy_source) {
                    Ok(policy) => policy,
                    Err(e) => {
                        return Err(e);
                    },
                };
                match CompiledMiniscript::with(&policy, category) {
                    Ok(ms_cache) => Ok(ContractDescriptor::Script { ms_cache, policy }),
                    Err(e) => Err(e),
                }
            },
        }
    }

    /// Finds the contract behind a script with the outermost fragment `node`, unless
    /// the policy compiler gets stuck at the policy that is read from
    /// `policy_source`.
    pub fn try_with(node: Terminal, category: OuterCategory, policy_source: &str) -> (r: Option<
        Result<ContractDescriptor, Error>,
    >)
        ensures
            r is None <==> node is Other && (crate::policy::read_policy(
                policy_source@,
            ) matches Ok(p) && !crate::policy::is_compilable(p)),
            r matches Some(v) ==> contract_outcome(v) == ContractView::of_script(
                node@,
                category,
                policy_source@,
            ),
            node matches Terminal::PkK(key) ==> (r matches Some(
                Ok(ContractDescriptor::SingleSig { category: place, pk }),
            ) && place == category && pk@ == key@),
            node matches Terminal::Multi(k, keys) ==> (r matches Some(
                Ok(ContractDescriptor::MultiSig { category: place, threshold, signers, sorted }),
            ) && place == category && threshold == k && signers@ == keys@ && !sorted),
            node is Other ==> (r matches Some(Ok(d)) ==> {
                &&& d matches ContractDescriptor::Script { ms_cache, policy }
                &&& crate::policy::read_policy(policy_source@) == Ok::<Seq<char>, Seq<char>>(
                    policy@,
                )
                &&& ms_cache@.category == category
                &&& match category {
                    OuterCategory::Bare => crate::policy::compiled(policy@, Rules::Bare),
                    OuterCategory::Hashed => crate::policy::compiled(policy@, Rules::Legacy),
                    _ => crate::policy::compiled(policy@, Rules::Segwitv0),
                } == Ok::<Seq<char>, Seq<char>>(ms_cache@.miniscript)
            }),
    {
        let stuck: bool = match &node {
            Terminal::Other => match Policy::from_str(policy_source) {
                Ok(policy) => !policy.is_compilable(),
                Err(_) => false,
            },
            _ => false,
        };
        if stuck {
            None
        } else {
            Some(ContractDescriptor::with(node, category, policy_source))
        }
    }

    /// Makes the descriptor of the contract, if there is one, with witness
    /// fragments in a script hash if `nested`.
    ///
    /// There is none for taproot outputs, nor for a witness key that is not
    /// compressed, nor for sorted keys that are not within the limits, nor where the
    /// policy compiler refuses an unsorted multisig or a bare script is not a standard
    /// one.
    pub fn checked_descriptor(&self, nested: bool) -> (r: Option<OutputDescriptor>)
        ensures
            crate::descriptor::descriptor_outcome(r) == self@.described(nested),
            self@ matches ContractView::MultiSig { category, threshold, signers, .. } ==> (category
                == OuterCategory::Bare && ContractView::multisig_of(category, threshold, signers)
                == Ok::<Seq<char>, crate::error::ErrorView>(
                crate::descriptor::multi(threshold, signers),
            ) ==> (r is Some <==> signers.len() <= 3)),
            r matches Some(d) ==> crate::descriptor::is_checksummed(
                d@.text,
                self@.expression(nested),
            ),
            r matches Some(d) ==> (self@.reads_back(nested) ==> ContractView::of_text(d@.text)
                == Ok::<ContractView, crate::error::ErrorView>(self@)),
            *self matches ContractDescriptor::SingleSig { category, pk } ==> match category {
                OuterCategory::Bare => (r matches Some(d) && d@.desc_type == DescriptorType::Pk
                    && d@.text == crate::descriptor::pk_descriptor(pk@)),
                OuterCategory::Hashed => (r matches Some(d) && d@.desc_type == DescriptorType::Pkh
                    && d@.text == crate::descriptor::pkh_descriptor(pk@)),
                OuterCategory::SegWit => {
                    &&& r is Some <==> pk@.len() == 66
                    &&& r matches Some(d) ==> if nested {
                        &&& d@.desc_type == DescriptorType::ShWpkh
                        &&& d@.text == crate::descriptor::sh_wpkh_descriptor(pk@)
                    } else {
                        &&& d@.desc_type == DescriptorType::Wpkh
                        &&& d@.text == crate::descriptor::wpkh_descriptor(pk@)
                    }
                },
                OuterCategory::Taproot => r is None,
            },
            *self matches ContractDescriptor::MultiSig { category, threshold, signers, sorted }
                ==> {
                let keys = Seq::new(signers@.len(), |i: int| signers@[i]@);
                let policy = crate::policy::threshold_policy(threshold as nat, keys);
                let compressed = 3 + 34 * keys.len();
                match category {
                    OuterCategory::Bare => match crate::policy::compiled(policy, Rules::Bare) {
                        Err(_) => r is None,
                        Ok(ms) => match crate::descriptor::bare_descriptor(ms) {
                            Some(text) => (r matches Some(d) && d@.text == text && d@.script == ms
                                && d@.desc_type == DescriptorType::Bare),
                            None => r is None,
                        },
                    },
                    OuterCategory::Hashed => if sorted {
                        &&& r is Some <==> 0 < threshold <= keys.len() && compressed <= 520
                        &&& r matches Some(d) ==> d@.desc_type == DescriptorType::ShSortedMulti
                            && d@.text == crate::descriptor::sh_sortedmulti_descriptor(
                            threshold,
                            keys,
                        )
                    } else {
                        match crate::policy::compiled(policy, Rules::Legacy) {
                            Err(_) => r is None,
                            Ok(ms) => (r matches Some(d) && d@.script == ms && d@.desc_type
                                == DescriptorType::Sh && d@.text
                                == crate::descriptor::sh_descriptor(ms)),
                        }
                    },
                    OuterCategory::SegWit => if sorted {
                        &&& r is Some <==> 0 < threshold <= keys.len() && compressed <= 3600
                            && threshold + 2 <= 100
                        &&& r matches Some(d) ==> if nested {
                            &&& d@.desc_type == DescriptorType::ShWshSortedMulti
                            &&& d@.text == crate::descriptor::sh_wsh_sortedmulti_descriptor(
                                threshold,
                                keys,
                            )
                        } else {
                            &&& d@.desc_type == DescriptorType::WshSortedMulti
                            &&& d@.text == crate::descriptor::wsh_sortedmulti_descriptor(
                                threshold,
                                keys,
                            )
                        }
                    } else {
                        match crate::policy::compiled(policy, Rules::Segwitv0) {
                            Err(_) => r is None,
                            Ok(ms) => (r matches Some(d) && d@.script == ms && if nested {
                                &&& d@.desc_type == DescriptorType::ShWsh
                                &&& d@.text == crate::descriptor::sh_wsh_descriptor(ms)
                            } else {
                                &&& d@.desc_type == DescriptorType::Wsh
                                &&& d@.text == crate::descriptor::wsh_descriptor(ms)
                            }),
                        }
                    },
                    OuterCategory::Taproot => r is None,
                }
            },
            *self matches ContractDescriptor::Script { ms_cache, .. } ==> match ms_cache {
                CompiledMiniscript::Bare(ms) => match crate::descriptor::bare_descriptor(ms@) {
                    Some(text) => (r matches Some(d) && d@.text == text && d@.script == ms@
                        && d@.desc_type == DescriptorType::Bare),
                    None => r is None,
                },
                CompiledMiniscript::Hashed(ms) => (r matches Some(d) && d@.text
                    == crate::descriptor::sh_descriptor(ms@) && d@.script == ms@ && d@.desc_type
                    == DescriptorType::Sh),
                CompiledMiniscript::SegWit(ms) => (r matches Some(d) && d@.text
                    == crate::descriptor::wsh_descriptor(ms@) && d@.script == ms@ && d@.desc_type
                    == DescriptorType::Wsh),
                CompiledMiniscript::Taproot(_) => r is None,
            },
    {
        match self {
            ContractDescriptor::SingleSig { category, pk } => match category {
                OuterCategory::Bare => Some(OutputDescriptor::new_pk(pk)),
                OuterCategory::Hashed => Some(OutputDescriptor::new_pkh(pk)),
                OuterCategory::SegWit => {
                    if nested {
                        OutputDescriptor::new_sh_wpkh(pk)
                    } else {
                        OutputDescriptor::new_wpkh(pk)
                    }
                },
                OuterCategory::Taproot => None,
            },
            ContractDescriptor::MultiSig { category, threshold, signers, sorted } => {
                assert(crate::key::key_texts(signers@) =~= Seq::new(
                    signers@.len(),
                    |i: int| signers@[i]@,
                ));
                check_keys(signers);
                match category {
                    OuterCategory::Bare => {
                        match multisig_miniscript(*threshold, signers) {
                            Ok(ms) => OutputDescriptor::new_bare(&ms),
                            Err(_) => None,
                        }
                    },
                    OuterCategory::Hashed => {
                        if *sorted {
                            OutputDescriptor::new_sh_sortedmulti(*threshold, signers)
                        } else {
                            match multisig_miniscript(*threshold, signers) {
                                Ok(ms) => Some(OutputDescriptor::new_sh(&ms)),
                                Err(_) => None,
                            }
                        }
                    },
                    OuterCategory::SegWit => {
                        if *sorted {
                            if nested {
                                OutputDescriptor::new_sh_wsh_sortedmulti(*threshold, signers)
                            } else {
                                OutputDescriptor::new_wsh_sortedmulti(*threshold, signers)
                            }
                        } else {
                            match multisig_miniscript(*threshold, signers) {
                                Ok(ms) => {
                                    if nested {
                                        Some(OutputDescriptor::new_sh_wsh(&ms))
                                    } else {
                                        Some(OutputDescriptor::new_wsh(&ms))
                                    }
                                },
                                Err(_) => None,
                            }
                        }
                    },
                    OuterCategory::Taproot => None,
                }
            },
            ContractDescriptor::Script { ms_cache, .. } => ms_cache.checked_descriptor(),
        }
    }

    /// Makes the descriptor of the contract, with witness fragments in a script
    /// hash if `nested`.
    pub fn to_descriptor(&self, nested: bool) -> (r: OutputDescriptor)
        requires
            self@.described(nested) is Some,
        ensures
            self@.described(nested) == Some(r@),
            crate::descriptor::is_checksummed(r@.text, self@.expression(nested)),
            self@.reads_back(nested) ==> ContractView::of_text(r@.text) == Ok::<
                ContractView,
                crate::error::ErrorView,
            >(self@),
    {
        match self {
            ContractDescriptor::Script { ms_cache, .. } => ms_cache.to_descriptor(),
            _ => match self.checked_descriptor(nested) {
                Some(d) => d,
                None => vstd::pervasive::unreached(),
            },
        }
    }

    /// Gives the outermost fragment of the descriptor of the contract.
    pub fn outer_descriptor_type(&self) -> (r: OuterType)
        ensures
            r == self@.outer_type(),
            r == match *self {
                ContractDescriptor::SingleSig { category: OuterCategory::Bare, .. } =>
                    OuterType::Pk,
                ContractDescriptor::SingleSig { category: OuterCategory::Hashed, .. } =>
                    OuterType::Pkh,
                ContractDescriptor::SingleSig { category: OuterCategory::SegWit, .. } =>
                    OuterType::Wpkh,
                ContractDescriptor::MultiSig { category: OuterCategory::Bare, .. } =>
                    OuterType::Bare,
                ContractDescriptor::MultiSig { category: OuterCategory::Hashed, .. } =>
                    OuterType::Sh,
                ContractDescriptor::MultiSig { category: OuterCategory::SegWit, .. } =>
                    OuterType::Wsh,
                ContractDescriptor::Script { ms_cache: CompiledMiniscript::Bare(_), .. } =>
                    OuterType::Bare,
                ContractDescriptor::Script { ms_cache: CompiledMiniscript::Hashed(_), .. } =>
                    OuterType::Sh,
                ContractDescriptor::Script { ms_cache: CompiledMiniscript::SegWit(_), .. } =>
                    OuterType::Wsh,
                _ => OuterType::Tr,
            },
    {
        match self {
            ContractDescriptor::SingleSig { category, .. } => category.into_outer_type(false),
            ContractDescriptor::MultiSig { category, .. } => category.into_outer_type(true),
            ContractDescriptor::Script { ms_cache, .. } => ms_cache.outer_descriptor_type(),
        }
    }

    /// Finds the contract of the descriptor `parsed`, which was read from `s`.
    pub fn from_parsed(parsed: ParsedDescriptor, s: &str) -> (r: Result<ContractDescriptor, Error>)
        requires
            !parsed@.is_nested(),
            s.is_ascii(),
            s@.len() >= crate::parsed::least_length(parsed@.kind()),
            parsed@.holds_script() ==> crate::text::without_odds(s@),
        ensures
            contract_outcome(r) == ContractView::of_parsed(parsed@, s@),
            parsed matches ParsedDescriptor::Pkh(key) ==> (r matches Ok(
                ContractDescriptor::SingleSig { category, pk },
            ) && category == OuterCategory::Hashed && pk@ == key@),
            parsed matches ParsedDescriptor::Wpkh(key) ==> (r matches Ok(
                ContractDescriptor::SingleSig { category, pk },
            ) && category == OuterCategory::SegWit && pk@ == key@),
            parsed matches ParsedDescriptor::Sh(ShInner::SortedMulti(k, keys)) ==> (r matches Ok(
                ContractDescriptor::MultiSig { category, threshold, signers, sorted },
            ) && category == OuterCategory::Hashed && threshold == k && signers@ == keys@
                && sorted),
            parsed matches ParsedDescriptor::Wsh(WshInner::SortedMulti(k, keys)) ==> (r matches Ok(
                ContractDescriptor::MultiSig { category, threshold, signers, sorted },
            ) && category == OuterCategory::SegWit && threshold == k && signers@ == keys@
                && sorted),
            parsed matches ParsedDescriptor::Bare(Terminal::Multi(k, keys)) ==> (r matches Ok(
                ContractDescriptor::MultiSig { category, threshold, signers, sorted },
            ) && category == OuterCategory::Bare && threshold == k && signers@ == keys@
                && !sorted),
            parsed matches ParsedDescriptor::Sh(ShInner::Ms(Terminal::Multi(k, keys))) ==> (
            r matches Ok(ContractDescriptor::MultiSig { category, threshold, signers, sorted })
                && category == OuterCategory::Hashed && threshold == k && signers@ == keys@
                && !sorted),
            parsed matches ParsedDescriptor::Wsh(WshInner::Ms(Terminal::Multi(k, keys))) ==> (
            r matches Ok(ContractDescriptor::MultiSig { category, threshold, signers, sorted })
                && category == OuterCategory::SegWit && threshold == k && signers@ == keys@
                && !sorted),
            parsed matches ParsedDescriptor::Bare(Terminal::PkK(key)) ==> (r matches Ok(
                ContractDescriptor::SingleSig { category, pk },
            ) && category == OuterCategory::Bare && pk@ == key@),
            parsed matches ParsedDescriptor::Sh(ShInner::Ms(Terminal::PkK(key))) ==> (r matches Ok(
                ContractDescriptor::SingleSig { category, pk },
            ) && category == OuterCategory::Hashed && pk@ == key@),
            parsed matches ParsedDescriptor::Wsh(WshInner::Ms(Terminal::PkK(key))) ==> (
            r matches Ok(ContractDescriptor::SingleSig { category, pk }) && category
                == OuterCategory::SegWit && pk@ == key@),
            r matches Err(e) ==> {
                let place = match parsed {
                    ParsedDescriptor::Bare(Terminal::Other) => Some((5int, Rules::Bare)),
                    ParsedDescriptor::Sh(ShInner::Ms(Terminal::Other)) => Some(
                        (3int, Rules::Legacy),
                    ),
                    ParsedDescriptor::Wsh(WshInner::Ms(Terminal::Other)) => Some(
                        (4int, Rules::Segwitv0),
                    ),
                    _ => None,
                };
                &&& place matches Some(place)
                &&& match crate::policy::read_policy(s@.subrange(place.0, s@.len() - 1)) {
                    Err(reason) => e.origin == ErrorOrigin::Policy && e.message@ == reason,
                    Ok(policy) => e.origin == ErrorOrigin::Compiler && crate::policy::compiled(
                        policy,
                        place.1,
                    ) == Err::<Seq<char>, Seq<char>>(e.message@),
                }
            },
            r matches Ok(ContractDescriptor::Script { policy, ms_cache }) ==> {
                &&& crate::policy::read_policy(
                    s@.subrange(
                        match parsed {
                            ParsedDescriptor::Bare(_) => 5,
                            ParsedDescriptor::Wsh(_) => 4,
                            _ => 3,
                        },
                        s@.len() - 1,
                    ),
                ) == Ok::<Seq<char>, Seq<char>>(policy@)
                &&& match (parsed, ms_cache) {
                    (
                        ParsedDescriptor::Bare(Terminal::Other),
                        CompiledMiniscript::Bare(ms),
                    ) => crate::policy::compiled(policy@, Rules::Bare) == Ok::<
                        Seq<char>,
                        Seq<char>,
                    >(ms@),
                    (
                        ParsedDescriptor::Sh(ShInner::Ms(Terminal::Other)),
                        CompiledMiniscript::Hashed(ms),
                    ) => crate::policy::compiled(policy@, Rules::Legacy) == Ok::<
                        Seq<char>,
                        Seq<char>,
                    >(ms@),
                    (
                        ParsedDescriptor::Wsh(WshInner::Ms(Terminal::Other)),
                        CompiledMiniscript::SegWit(ms),
                    ) => crate::policy::compiled(policy@, Rules::Segwitv0) == Ok::<
                        Seq<char>,
                        Seq<char>,
                    >(ms@),
                    _ => false,
                }
            },
    {
        let n: usize = s.unicode_len();
        match parsed {
            ParsedDescriptor::Pkh(pk) => Ok(
                ContractDescriptor::SingleSig { category: OuterCategory::Hashed, pk },
            ),
            ParsedDescriptor::Wpkh(pk) => Ok(
                ContractDescriptor::SingleSig { category: OuterCategory::SegWit, pk },
            ),
            ParsedDescriptor::Bare(node) => {
                let source = s.substring_ascii(5, n - 1);
                ContractDescriptor::with(node, OuterCategory::Bare, source)
            },
            ParsedDescriptor::Wsh(WshInner::SortedMulti(threshold, signers)) => Ok(
                ContractDescriptor::MultiSig {
                    category: OuterCategory::SegWit,
                    threshold,
                    signers,
                    sorted: true,
                },
            ),
            ParsedDescriptor::Wsh(WshInner::Ms(node)) => {
                let source = s.substring_ascii(4, n - 1);
                ContractDescriptor::with(node, OuterCategory::SegWit, source)
            },
            ParsedDescriptor::Sh(ShInner::SortedMulti(threshold, signers)) => Ok(
                ContractDescriptor::MultiSig {
                    category: OuterCategory::Hashed,
                    threshold,
                    signers,
                    sorted: true,
                },
            ),
            ParsedDescriptor::Sh(ShInner::Ms(node)) => {
                let source = s.substring_ascii(3, n - 1);
                ContractDescriptor::with(node, OuterCategory::Hashed, source)
            },
            ParsedDescriptor::Sh(_) => vstd::pervasive::unreached(),
        }
    }

    /// Reads the contract of a descriptor.
    ///
    /// A descriptor of one key's hash or of sorted keys gives a contract that it
    /// describes. A witness descriptor within the brackets of `sh` gives the same as
    /// by itself; if no checksum stands within the brackets it reads by itself, and if
    /// it is one of a key or of sorted keys, the contract is one that the whole text
    /// describes.
    pub fn from_str(s: &str) -> (r: Result<ContractDescriptor, Error>)
        ensures
            contract_outcome(r) == ContractView::of_text(s@),
            crate::parsed::is_in_form(s@),
            crate::parsed::read_descriptor(s@) matches Err(reason) ==> (r matches Err(e) && e.origin
                == ErrorOrigin::Descriptor && e.message@ == reason),
            crate::parsed::read_descriptor(s@) is Ok && !crate::text::starts_with(s@, "sh(w"@) ==> (
            r matches Ok(ContractDescriptor::MultiSig { sorted, .. }) ==> (sorted
                <==> crate::text::starts_with(s@, "wsh(sortedmulti("@)
                || crate::text::starts_with(s@, "sh(sortedmulti("@))),
            crate::parsed::read_descriptor(s@) is Ok && crate::parsed::has_keys_form(s@)
                ==> ContractView::gives_back(contract_outcome(r), false, s@),
            forall|t: Seq<char>|
                s@ == #[trigger] crate::descriptor::sh_of(t) && crate::parsed::has_witness_form(t)
                    && crate::parsed::read_descriptor(s@) is Ok ==> {
                    &&& contract_outcome(r) == ContractView::of_text(t)
                    &&& r matches Ok(ContractDescriptor::MultiSig { sorted, .. }) ==> (sorted
                        <==> crate::text::starts_with(t, "wsh(sortedmulti("@))
                    &&& !t.contains('#') ==> crate::parsed::reads_as_witness(t)
                    &&& !t.contains('#') && crate::parsed::has_keys_form(t)
                        ==> ContractView::gives_back(contract_outcome(r), true, s@)
                },
        decreases s@.len(),
    {
        match ParsedDescriptor::from_str(s) {
            Err(message) => Err(Error { origin: ErrorOrigin::Descriptor, message }),
            Ok(ParsedDescriptor::Sh(ShInner::Wsh)) | Ok(ParsedDescriptor::Sh(ShInner::Wpkh)) => {
                let n: usize = s.unicode_len();
                let inside = s.substring_ascii(3, n - 1);
                let r = ContractDescriptor::from_str(inside);
                proof {
                    crate::parsed::lemma_sorted_form(s@);
                    if crate::parsed::has_keys_form(s@) {
                        crate::parsed::lemma_keys_form(s@);
                    }
                    assert forall|t: Seq<char>|
                        s@ == #[trigger] crate::descriptor::sh_of(t)
                            && crate::parsed::has_witness_form(t) implies {
                        &&& inside@ == t
                        &&& r matches Ok(ContractDescriptor::MultiSig { sorted, .. }) ==> (sorted
                            <==> crate::text::starts_with(t, "wsh(sortedmulti("@))
                        &&& !t.contains('#') ==> crate::parsed::reads_as_witness(t)
                        &&& !t.contains('#') && crate::parsed::has_keys_form(t)
                            ==> ContractView::gives_back(contract_outcome(r), true, s@)
                    } by {
                        crate::parsed::lemma_nested_form(t);
                        if !t.contains('#') {
                            assert(crate::parsed::parsed(t) is Ok);
                            if crate::parsed::has_keys_form(t) {
                                crate::parsed::lemma_keys_form(t);
                            }
                        }
                    }
                }
                r
            },
            Ok(parsed) => {
                proof {
                    crate::parsed::lemma_sorted_form(s@);
                    if crate::parsed::has_keys_form(s@) {
                        crate::parsed::lemma_keys_form(s@);
                    }
                    assert forall|t: Seq<char>|
                        s@ == #[trigger] crate::descriptor::sh_of(
                            t,
                        ) implies !crate::parsed::has_witness_form(t) by {
                        if crate::parsed::has_witness_form(t) {
                            crate::parsed::lemma_nested_form(t);
                        }
                    }
                }
                ContractDescriptor::from_parsed(parsed, s)
            },
        }
    }

    /// Writes the contract: the policy of a script, and else the descriptor, with
    /// witness fragments in a script hash if `nested`.
    pub fn to_text(&self, nested: bool) -> (r: String)
        requires
            self@.written(nested) is Some,
        ensures
            self@.written(nested) == Some(r@),
            self@ is Script ==> crate::policy::is_policy(r@),
            *self matches ContractDescriptor::Script { policy, .. } ==> r@ == policy@,
            !(*self is Script) ==> (self@.described(nested) matches Some(d) && r@ == d.text),
            self@.reads_back(nested) ==> ContractView::of_text(r@) == Ok::<
                ContractView,
                crate::error::ErrorView,
            >(self@),
    {
        match self {
            ContractDescriptor::Script { policy, .. } => policy.as_str().to_owned(),
            _ => self.to_descriptor(nested).as_str().to_owned(),
        }
    }

    /// Writes the contract, if it has a text.
    pub fn try_to_text(&self, nested: bool) -> (r: Option<String>)
        ensures
            match r {
                Some(t) => self@.written(nested) == Some(t@),
                None => self@.written(nested) is None,
            },
            r matches Some(t) ==> (self@ is Script ==> crate::policy::is_policy(t@)),
            *self matches ContractDescriptor::Script { policy, .. } ==> (r matches Some(t) && t@
                == policy@),
            !(*self is Script) ==> match self@.described(nested) {
                Some(d) => r matches Some(t) && t@ == d.text,
                None => r is None,
            },
            r matches Some(t) ==> (self@.reads_back(nested) ==> ContractView::of_text(t@) == Ok::<
                ContractView,
                crate::error::ErrorView,
            >(self@)),
    {
        let written: bool = match self {
            ContractDescriptor::Script { .. } => true,
            _ => self.checked_descriptor(nested).is_some(),
        };
        if written {
            Some(self.to_text(nested))
        } else {
            None
        }
    }

    /// Checks that every way to spend an output of the contract is possible, needs a
    /// signature and cannot be malleated.
    pub fn sanity_check(&self) -> (r: Result<(), Error>)
        requires
            self@.described(false) is Some,
        ensures
            crate::descriptor::outcome(r) == crate::descriptor::analysed(
                crate::descriptor::sanity(self@.plain_text()),
            ),
            self@ is SingleSig && !self@.is_bare() ==> r is Ok,
            self@.described(false) matches Some(d) && match r {
                Ok(_) => crate::descriptor::sanity(d.text) is Ok,
                Err(e) => e.origin == ErrorOrigin::Analysis && crate::descriptor::sanity(d.text)
                    == Err::<(), Seq<char>>(e.message@),
            },
    {
        self.to_descriptor(false).sanity_check()
    }

    /// As `sanity_check`, for the contracts that have a descriptor.
    pub fn try_sanity_check(&self) -> (r: Option<Result<(), Error>>)
        ensures
            r is Some <==> self@.described(false) is Some,
            r matches Some(v) ==> {
                &&& crate::descriptor::outcome(v) == crate::descriptor::analysed(
                    crate::descriptor::sanity(self@.plain_text()),
                )
                &&& self@ is SingleSig && !self@.is_bare() ==> v is Ok
                &&& self@.described(false) matches Some(d) && match v {
                    Ok(_) => crate::descriptor::sanity(d.text) is Ok,
                    Err(e) => e.origin == ErrorOrigin::Analysis && crate::descriptor::sanity(
                        d.text,
                    ) == Err::<(), Seq<char>>(e.message@),
                }
            },
    {
        if self.checked_descriptor(false).is_some() {
            Some(self.sanity_check())
        } else {
            None
        }
    }

    /// Computes the address of the contract on `network`, which pays to the script in
    /// its outputs. Bare outputs have none.
    pub fn address(&self, network: Network) -> (r: Result<Address, Error>)
        requires
            self@.described(false) is Some,
        ensures
            crate::descriptor::address_outcome(r) == crate::descriptor::analysed(
                crate::descriptor::address_of(
                    self@.plain_text(),
                    crate::descriptor::network_name(network),
                ),
            ),
            r is Err <==> self@.is_bare(),
            r matches Ok(a) ==> a@.1 == crate::descriptor::output_script(
                self@.plain_text(),
            ),
            self@.described(false) matches Some(d) && crate::descriptor::address_of(
                d.text,
                match network {
                    Network::Bitcoin => "bitcoin"@,
                    Network::Testnet => "testnet"@,
                    Network::Signet => "signet"@,
                    Network::Regtest => "regtest"@,
                },
            ) == match r {
                Ok(a) => Ok::<(Seq<char>, Seq<u8>), Seq<char>>((a.text@, a.script_pubkey@)),
                Err(e) => Err(e.message@),
            },
            r matches Err(e) ==> e.origin == ErrorOrigin::Analysis,
    {
        self.to_descriptor(false).address(network)
    }

    /// As `address`, for the contracts that have a descriptor.
    pub fn try_address(&self, network: Network) -> (r: Option<Result<Address, Error>>)
        ensures
            r is Some <==> self@.described(false) is Some,
            r matches Some(v) ==> {
                &&& crate::descriptor::address_outcome(v) == crate::descriptor::analysed(
                    crate::descriptor::address_of(
                        self@.plain_text(),
                        crate::descriptor::network_name(network),
                    ),
                )
                &&& v is Err <==> self@.is_bare()
                &&& v matches Ok(a) ==> a@.1 == crate::descriptor::output_script(
                    self@.plain_text(),
                )
                &&& self@.described(false) matches Some(d) && crate::descriptor::address_of(
                    d.text,
                    match network {
                        Network::Bitcoin => "bitcoin"@,
                        Network::Testnet => "testnet"@,
                        Network::Signet => "signet"@,
                        Network::Regtest => "regtest"@,
                    },
                ) == match v {
                    Ok(a) => Ok::<(Seq<char>, Seq<u8>), Seq<char>>((a.text@, a.script_pubkey@)),
                    Err(e) => Err(e.message@),
                }
                &&& v matches Err(e) ==> e.origin == ErrorOrigin::Analysis
            },
    {
        if self.checked_descriptor(false).is_some() {
            Some(self.address(network))
        } else {
            None
        }
    }

    /// Computes the script in the outputs of the contract. That of a sorted multisig
    /// does not depend on the order in which its signers are given.
    pub fn script_pubkey(&self) -> (r: Vec<u8>)
        requires
            self@.described(false) is Some,
        ensures
            r@ == crate::descriptor::output_script(self@.plain_text()),
            self@.described(false) matches Some(d) && r@
                == crate::descriptor::output_script(d.text),
            forall|other: ContractView| #[trigger]
                self@.is_reordering_of(other) ==> (other.described(false) matches Some(d) && r@
                    == crate::descriptor::output_script(d.text)),
    {
        let r = self.to_descriptor(false).script_pubkey();
        proof {
            assert forall|other: ContractView| #[trigger]
                self@.is_reordering_of(other) implies other.described(false) matches Some(d) && r@
                == crate::descriptor::output_script(d.text) by {
                let a = self@->signers;
                let b = other->signers;
                a.to_multiset_ensures();
                b.to_multiset_ensures();
                assert(a.len() == b.len());
            }
        }
        r
    }

    /// As `script_pubkey`, for the contracts that have a descriptor.
    pub fn try_script_pubkey(&self) -> (r: Option<Vec<u8>>)
        ensures
            r is Some <==> self@.described(false) is Some,
            r matches Some(v) ==> {
                &&& v@ == crate::descriptor::output_script(self@.plain_text())
                &&& self@.described(false) matches Some(d) && v@
                    == crate::descriptor::output_script(d.text)
                &&& forall|other: ContractView| #[trigger]
                    self@.is_reordering_of(other) ==> (other.described(false) matches Some(d) && v@
                        == crate::descriptor::output_script(d.text))
            },
    {
        if self.checked_descriptor(false).is_some() {
            Some(self.script_pubkey())
        } else {
            None
        }
    }

    /// Computes the script in an input that spends an output of the contract, before
    /// it is signed. It is empty, since the descriptor is not nested.
    pub fn unsigned_script_sig(&self) -> (r: Vec<u8>)
        requires
            self@.described(false) is Some,
        ensures
            r@ == crate::descriptor::unsigned_input_script(self@.plain_text()),
            self@.described(false) matches Some(d) && r@
                == crate::descriptor::unsigned_input_script(d.text),
            r@ == Seq::<u8>::empty(),
    {
        self.to_descriptor(false).unsigned_script_sig()
    }

    /// As `unsigned_script_sig`, for the contracts that have a descriptor.
    pub fn try_unsigned_script_sig(&self) -> (r: Option<Vec<u8>>)
        ensures
            r is Some <==> self@.described(false) is Some,
            r matches Some(v) ==> {
                &&& v@ == crate::descriptor::unsigned_input_script(self@.plain_text())
                &&& self@.described(false) matches Some(d) && v@
                    == crate::descriptor::unsigned_input_script(d.text)
                &&& v@ == Seq::<u8>::empty()
            },
    {
        if self.checked_descriptor(false).is_some() {
            Some(self.unsigned_script_sig())
        } else {
            None
        }
    }

    /// Computes the script of the contract before any hashing. The outputs of the
    /// contract hold this script, or commit to it by its hash.
    pub fn explicit_script(&self) -> (r: Vec<u8>)
        requires
            self@.described(false) is Some,
        ensures
            r@ == crate::descriptor::script_before_hashing(self@.plain_text()),
            self@.described(false) matches Some(d) && r@
                == crate::descriptor::script_before_hashing(d.text),
            crate::descriptor::output_script(self@.plain_text()) == self@.output_of(r@),
    {
        self.to_descriptor(false).explicit_script()
    }

    /// As `explicit_script`, for the contracts that have a descriptor.
    pub fn try_explicit_script(&self) -> (r: Option<Vec<u8>>)
        ensures
            r is Some <==> self@.described(false) is Some,
            r matches Some(v) ==> {
                &&& v@ == crate::descriptor::script_before_hashing(self@.plain_text())
                &&& self@.described(false) matches Some(d) && v@
                    == crate::descriptor::script_before_hashing(d.text)
                &&& crate::descriptor::output_script(self@.plain_text()) == self@.output_of(v@)
            },
    {
        if self.checked_descriptor(false).is_some() {
            Some(self.explicit_script())
        } else {
            None
        }
    }

    /// Computes a bound on the weight of what satisfies the contract.
    pub fn max_satisfaction_weight(&self) -> (r: Result<usize, Error>)
        requires
            self@.described(false) is Some,
        ensures
            crate::descriptor::outcome(r) == crate::descriptor::analysed(
                crate::descriptor::satisfaction_weight(self@.plain_text()),
            ),
            self@.described(false) matches Some(d) && match r {
                Ok(w) => crate::descriptor::satisfaction_weight(d.text) == Ok::<
                    usize,
                    Seq<char>,
                >(w),
                Err(e) => e.origin == ErrorOrigin::Analysis
                    && crate::descriptor::satisfaction_weight(d.text) == Err::<usize, Seq<char>>(
                    e.message@,
                ),
            },
    {
        self.to_descriptor(false).max_satisfaction_weight()
    }

    /// As `max_satisfaction_weight`, for the contracts that have a descriptor.
    pub fn try_max_satisfaction_weight(&self) -> (r: Option<Result<usize, Error>>)
        ensures
            r is Some <==> self@.described(false) is Some,
            r matches Some(v) ==> {
                &&& crate::descriptor::outcome(v) == crate::descriptor::analysed(
                    crate::descriptor::satisfaction_weight(self@.plain_text()),
                )
                &&& self@.described(false) matches Some(d) && match v {
                    Ok(w) => crate::descriptor::satisfaction_weight(d.text) == Ok::<
                        usize,
                        Seq<char>,
                    >(w),
                    Err(e) => e.origin == ErrorOrigin::Analysis
                        && crate::descriptor::satisfaction_weight(d.text) == Err::<
                        usize,
                        Seq<char>,
                    >(e.message@),
                }
            },
    {
        if self.checked_descriptor(false).is_some() {
            Some(self.max_satisfaction_weight())
        } else {
            None
        }
    }

    /// Computes the script that signatures for an output of the contract commit to.
    pub fn script_code(&self) -> (r: Vec<u8>)
        requires
            self@.described(false) is Some,
        ensures
            r@ == crate::descriptor::signed_script(self@.plain_text()),
            self@.described(false) matches Some(d) && r@
                == crate::descriptor::signed_script(d.text),
            self@.signs(r@),
    {
        self.to_descriptor(false).script_code()
    }

    /// As `script_code`, for the contracts that have a descriptor.
    pub fn try_script_code(&self) -> (r: Option<Vec<u8>>)
        ensures
            r is Some <==> self@.described(false) is Some,
            r matches Some(v) ==> {
                &&& v@ == crate::descriptor::signed_script(self@.plain_text())
                &&& self@.described(false) matches Some(d) && v@
                    == crate::descriptor::signed_script(d.text)
                &&& self@.signs(v@)
            },
    {
        if self.checked_descriptor(false).is_some() {
            Some(self.script_code())
        } else {
            None
        }
    }
}

} // verus!
