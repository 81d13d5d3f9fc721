//! Accounts and the address sequences below them.
//!
//! An address is what the key derivation makes of an account, a chain and an
//! index. The derivation is not part of this library. What is: which index is
//! asked for next, that an index the derivation rejects leaves no gap, and
//! that the sequence ends after the number of indices that was asked for.
//!
//! A generator is driven from outside: ask it for the pending query, derive,
//! hand the answer back, and go on until nothing is pending.

use crate::chain::{Addressing, ChainType};
use vstd::prelude::*;

verus! {

/// What a key derivation answers to a query: the address in its text form,
/// or `None` where it rejects the index.
pub type Derivation = spec_fn(Addressing) -> Option<Seq<char>>;

/// The addresses that `derive` yields for the `n` indices from `start` on,
/// in the order of the indices, with every rejected index left out.
pub open spec fn generated(
    derive: Derivation,
    account: u32,
    chain: ChainType,
    start: u32,
    n: nat,
) -> Seq<Seq<char>>
    decreases n,
{
    if n == 0 {
        Seq::empty()
    } else {
        let before = generated(derive, account, chain, start, (n - 1) as nat);
        match derive(Addressing { account, chain, index: (start + n - 1) as u32 }) {
            Some(address) => before.push(address),
            None => before,
        }
    }
}

/// The text of an answer, if there is one.
pub open spec fn answer_text(answer: Option<String>) -> Option<Seq<char>> {
    match answer {
        Some(address) => Some(address@),
        None => None,
    }
}

/// A generator, as a mathematical value.
pub struct GeneratorView {
    /// The index of the account.
    pub account: u32,
    /// The chain of the account that is walked.
    pub chain: ChainType,
    /// The first index.
    pub start: u32,
    /// How many indices were asked for.
    pub count: nat,
    /// How many indices have been answered.
    pub position: nat,
    /// The addresses of the indices answered so far, rejected ones left out.
    pub addresses: Seq<Seq<char>>,
}

impl GeneratorView {
    /// How many indices the generator walks: as many as were asked for, or
    /// as many as there are from `start` up to the largest index.
    pub open spec fn span(self) -> nat {
        if self.count <= 0x1_0000_0000 - self.start {
            self.count
        } else {
            (0x1_0000_0000 - self.start) as nat
        }
    }

    /// The query that is to be answered next: index `start + position`, as
    /// long as the walk is not over.
    pub open spec fn pending(self) -> Option<Addressing> {
        if self.position < self.span() {
            Some(
                Addressing {
                    account: self.account,
                    chain: self.chain,
                    index: (self.start + self.position) as u32,
                },
            )
        } else {
            None
        }
    }

    /// Whether every index of the walk has been answered.
    pub open spec fn finished(self) -> bool {
        self.pending() is None
    }

    /// Whether the addresses so far are those that `derive` yields.
    pub open spec fn follows(self, derive: Derivation) -> bool {
        self.addresses == generated(derive, self.account, self.chain, self.start, self.position)
    }

    /// What holds of every generator: it has not walked past its span, and
    /// it holds at most one address for each index answered.
    pub open spec fn well_formed(self) -> bool {
        &&& self.position <= self.span()
        &&& self.addresses.len() <= self.position
    }

    /// The generator after the pending query was answered with `answer`; the
    /// generator itself where nothing is pending.
    pub open spec fn answered(self, answer: Option<Seq<char>>) -> GeneratorView {
        if self.pending() is Some {
            GeneratorView {
                position: self.position + 1,
                addresses: match answer {
                    Some(address) => self.addresses.push(address),
                    None => self.addresses,
                },
                ..self
            }
        } else {
            self
        }
    }

    /// Whether two generators were made with the same arguments.
    pub open spec fn same_arguments(self, other: GeneratorView) -> bool {
        &&& self.account == other.account
        &&& self.chain == other.chain
        &&& self.start == other.start
        &&& self.count == other.count
    }
}

/// A generator that has followed a derivation so far still follows it after
/// the pending query was answered as that derivation answers it.
pub proof fn lemma_answer_keeps_following(
    generator: GeneratorView,
    derive: Derivation,
    answer: Option<Seq<char>>,
)
    requires
        generator.follows(derive),
        generator.pending() matches Some(query) ==> derive(query) == answer,
    ensures
        generator.answered(answer).follows(derive),
{
}

/// A walk that has followed a derivation to its end holds the addresses of
/// all indices of its span, and with them at most as many addresses as were
/// asked for.
pub proof fn lemma_finished_walk(generator: GeneratorView, derive: Derivation)
    requires
        generator.well_formed(),
        generator.finished(),
        generator.follows(derive),
    ensures
        generator.addresses == generated(
            derive,
            generator.account,
            generator.chain,
            generator.start,
            generator.span(),
        ),
        generator.addresses.len() <= generator.count,
{
}

/// Generation can be started again: two walks with the same arguments that
/// follow the same derivation to the end hold the same addresses.
pub proof fn lemma_generation_is_restartable(
    first: GeneratorView,
    second: GeneratorView,
    derive: Derivation,
)
    requires
        first.well_formed(),
        second.well_formed(),
        first.same_arguments(second),
        first.finished(),
        second.finished(),
        first.follows(derive),
        second.follows(derive),
    ensures
        first.addresses == second.addresses,
{
    lemma_finished_walk(first, derive);
    lemma_finished_walk(second, derive);
}

/// No index yields more than one address, and where the derivation rejects
/// none of the `n` indices there are exactly `n` addresses.
pub proof fn lemma_generated_length(
    derive: Derivation,
    account: u32,
    chain: ChainType,
    start: u32,
    n: nat,
)
    ensures
        generated(derive, account, chain, start, n).len() <= n,
        (forall|k: int|
            0 <= k < n ==> (#[trigger] derive(
                Addressing { account, chain, index: (start + k) as u32 },
            )) is Some) ==> generated(derive, account, chain, start, n).len() == n,
    decreases n,
{
    if n > 0 {
        lemma_generated_length(derive, account, chain, start, (n - 1) as nat);
        if forall|k: int|
            0 <= k < n ==> (#[trigger] derive(
                Addressing { account, chain, index: (start + k) as u32 },
            )) is Some {
            assert(derive(Addressing { account, chain, index: (start + (n - 1)) as u32 }) is Some);
        }
    }
}

/// The texts of `addresses`.
pub open spec fn texts(addresses: Seq<String>) -> Seq<Seq<char>> {
    addresses.map_values(|address: String| address@)
}

/// A lazy, finite sequence of addresses: `count` indices from `start` on, on
/// one chain of one account.
#[derive(Debug)]
pub struct AddressGenerator {
    account: u32,
    chain: ChainType,
    start: u32,
    count: usize,
    position: usize,
    addresses: Vec<String>,
}

impl View for AddressGenerator {
    type V = GeneratorView;

    closed spec fn view(&self) -> GeneratorView {
        GeneratorView {
            account: self.account,
            chain: self.chain,
            start: self.start,
            count: self.count as nat,
            position: self.position as nat,
            addresses: texts(self.addresses@),
        }
    }
}

impl AddressGenerator {
    #[verifier::type_invariant]
    spec fn holds_together(self) -> bool {
        self@.well_formed()
    }

    /// A generator for `count` indices from `start` on. Nothing is derived
    /// yet, and no counter is kept anywhere else: a second generator with the
    /// same arguments starts the same walk again.
    pub fn new(account: u32, chain: ChainType, start: u32, count: usize) -> (generator:
        AddressGenerator)
        ensures
            generator@ == (GeneratorView {
                account,
                chain,
                start,
                count: count as nat,
                position: 0,
                addresses: Seq::empty(),
            }),
            generator@.well_formed(),
    {
        let generator = AddressGenerator {
            account,
            chain,
            start,
            count,
            position: 0,
            addresses: Vec::new(),
        };
        assert(texts(generator.addresses@) =~= Seq::empty());
        generator
    }

    /// The query that is to be answered next, or `None` when the walk is
    /// over.
    pub fn pending(&self) -> (query: Option<Addressing>)
        ensures
            query == self@.pending(),
            self@.well_formed(),
    {
        proof {
            use_type_invariant(self);
        }
        if self.position < self.count && self.position as u64 <= (0xFFFF_FFFFu32 - self.start) as u64 {
            Some(
                Addressing {
                    account: self.account,
                    chain: self.chain,
                    index: self.start + self.position as u32,
                },
            )
        } else {
            None
        }
    }

    /// Takes the answer to the pending query: an address is appended, a
    /// rejected index is passed over. Where nothing is pending, the answer is
    /// dropped and the generator stays as it is.
    pub fn supply(self, answer: Option<String>) -> (next: AddressGenerator)
        ensures
            next@ == self@.answered(answer_text(answer)),
            next@.well_formed(),
    {
        proof {
            use_type_invariant(&self);
        }
        if self.position < self.count && self.position as u64 <= (0xFFFF_FFFFu32 - self.start) as u64 {
            let mut addresses = self.addresses;
            if let Some(address) = answer {
                assert(texts(addresses@.push(address)) =~= texts(addresses@).push(address@));
                addresses.push(address);
            }
            AddressGenerator {
                account: self.account,
                chain: self.chain,
                start: self.start,
                count: self.count,
                position: self.position + 1,
                addresses,
            }
        } else {
            self
        }
    }

    /// How many addresses have been generated so far.
    pub fn written(&self) -> (n: usize)
        ensures
            n == self@.addresses.len(),
            n <= self@.position <= self@.count,
    {
        proof {
            use_type_invariant(self);
        }
        self.addresses.len()
    }

    /// How many indices the derivation has rejected so far.
    pub fn rejected(&self) -> (n: usize)
        ensures
            n == self@.position - self@.addresses.len(),
    {
        proof {
            use_type_invariant(self);
        }
        self.position - self.addresses.len()
    }

    /// The addresses generated so far, in the order of their indices.
    pub fn into_addresses(self) -> (addresses: Vec<String>)
        ensures
            texts(addresses@) == self@.addresses,
            addresses@.len() == self@.addresses.len(),
            forall|i: int| 0 <= i < addresses@.len() ==> (#[trigger] addresses@[i])@ == self@.addresses[i],
            addresses@.len() <= self@.position <= self@.count,
    {
        proof {
            use_type_invariant(&self);
        }
        self.addresses
    }
}

/// An account, as a mathematical value.
pub struct AccountView {
    /// The label. Metadata only.
    pub alias: Seq<char>,
    /// The derivation index.
    pub index: u32,
}

/// A point in the hierarchy below the root: a label and a derivation index.
/// Two accounts may carry the same index; they then stand for the same
/// subtree.
#[derive(Debug)]
pub struct Account {
    alias: String,
    index: u32,
}

impl View for Account {
    type V = AccountView;

    closed spec fn view(&self) -> AccountView {
        AccountView { alias: self.alias@, index: self.index }
    }
}

impl Account {
    /// The account with the label `alias` at the derivation index `index`.
    pub fn new(alias: &str, index: u32) -> (account: Account)
        ensures
            account@ == (AccountView { alias: alias@, index }),
    {
        Account { alias: alias.to_owned(), index }
    }

    /// The label.
    pub fn alias(&self) -> (alias: &String)
        ensures
            alias@ == self@.alias,
    {
        &self.alias
    }

    /// The derivation index.
    pub fn index(&self) -> (index: u32)
        ensures
            index == self@.index,
    {
        self.index
    }
}

/// Starts the generation of `num_indices` addresses of `account` from
/// `from_index` on, on the internal or the external chain.
///
/// Nothing is derived yet: the generator that comes back states the queries
/// one by one and takes the answers. The label of the account plays no part,
/// and no counter is kept anywhere: a second call with the same arguments
/// starts the same walk again.
pub fn cardano_account_generate_addresses(
    account: &Account,
    internal: bool,
    from_index: u32,
    num_indices: usize,
) -> (generator: AddressGenerator)
    ensures
        generator@ == (GeneratorView {
            account: account@.index,
            chain: ChainType::of_flag(internal),
            start: from_index,
            count: num_indices as nat,
            position: 0,
            addresses: Seq::empty(),
        }),
        generator@.well_formed(),
{
    AddressGenerator::new(account.index, ChainType::from_internal(internal), from_index, num_indices)
}

} // verus!
