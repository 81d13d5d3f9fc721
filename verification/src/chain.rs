//! Where a key lives in the derivation hierarchy.

use vstd::prelude::*;

verus! {

/// The two address subtrees of an account.
#[derive(Clone, Copy, Debug, PartialEq, Eq, Structural)]
pub enum ChainType {
    /// Change addresses.
    Internal,
    /// Receiving addresses.
    External,
}

impl ChainType {
    /// The chain selected by the boundary's `internal` flag.
    pub open spec fn of_flag(internal: bool) -> ChainType {
        if internal {
            ChainType::Internal
        } else {
            ChainType::External
        }
    }

    /// Chooses the chain from the boundary's `internal` flag.
    pub fn from_internal(internal: bool) -> (chain: ChainType)
        ensures
            chain == Self::of_flag(internal),
    {
        if internal {
            ChainType::Internal
        } else {
            ChainType::External
        }
    }

    /// Whether this is the change chain.
    pub fn is_internal(&self) -> (internal: bool)
        ensures
            internal == (*self == ChainType::Internal),
            Self::of_flag(internal) == *self,
    {
        match self {
            ChainType::Internal => true,
            ChainType::External => false,
        }
    }
}

/// The derivation-path tuple that says which key redeems an output.
#[derive(Clone, Copy, Debug, PartialEq, Eq, Structural)]
pub struct Addressing {
    pub account: u32,
    pub chain: ChainType,
    pub index: u32,
}

impl Addressing {
    /// The path of `index` on `chain` below `account`.
    pub fn new(account: u32, chain: ChainType, index: u32) -> (addressing: Addressing)
        ensures
            addressing == (Addressing { account, chain, index }),
    {
        Addressing { account, chain, index }
    }

    /// The addressing that every input of a built transaction carries:
    /// account 0, external chain, index 0.
    pub open spec fn spec_of_inputs() -> Addressing {
        Addressing { account: 0, chain: ChainType::External, index: 0 }
    }

    /// See [`Addressing::spec_of_inputs`].
    #[verifier::when_used_as_spec(spec_of_inputs)]
    pub fn of_inputs() -> (addressing: Addressing)
        ensures
            addressing == Self::spec_of_inputs(),
    {
        Addressing { account: 0, chain: ChainType::External, index: 0 }
    }
}

/// The internal and the external chain of an account never share a path:
/// at every index the two derivation queries differ.
pub proof fn lemma_chains_have_distinct_paths(account: u32, index: u32)
    ensures
        (Addressing { account, chain: ChainType::Internal, index }) != (Addressing {
            account,
            chain: ChainType::External,
            index,
        }),
{
}

} // verus!
