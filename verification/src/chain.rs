//! The two chains of a swap and the roles a transaction can play in it.
use vstd::prelude::*;

verus! {

/// The chain a task or a threshold belongs to.
#[derive(Debug, Clone, Copy, PartialEq, Eq, Structural, Hash)]
pub enum Blockchain {
    /// The arbitrating chain.
    Bitcoin,
    /// The accordant chain.
    Monero,
}

/// The network a swap runs on.
#[derive(Debug, Clone, Copy, PartialEq, Eq, Structural, Hash)]
pub enum Network {
    Mainnet,
    Testnet,
    Local,
}

/// The purpose of a transaction within a swap, independent of its hash.
#[derive(Debug, Clone, Copy, PartialEq, Eq, Structural, Hash)]
pub enum TxLabel {
    Funding,
    Lock,
    Buy,
    Cancel,
    Refund,
    Punish,
    AccLock,
}

impl TxLabel {
    /// The number under which a label is kept in the registry's tables.
    pub open spec fn spec_code(self) -> u8 {
        match self {
            TxLabel::Funding => 1,
            TxLabel::Lock => 2,
            TxLabel::Buy => 3,
            TxLabel::Cancel => 4,
            TxLabel::Refund => 5,
            TxLabel::Punish => 6,
            TxLabel::AccLock => 7,
        }
    }

    /// The label's number: 1 for `Funding` up to 7 for `AccLock`.
    #[verifier::when_used_as_spec(spec_code)]
    pub fn code(self) -> (c: u8)
        ensures
            c == self.spec_code(),
            1 <= c <= 7,
    {
        match self {
            TxLabel::Funding => 1,
            TxLabel::Lock => 2,
            TxLabel::Buy => 3,
            TxLabel::Cancel => 4,
            TxLabel::Refund => 5,
            TxLabel::Punish => 6,
            TxLabel::AccLock => 7,
        }
    }

    /// The label that a number stands for, if any.
    pub fn from_code(c: u8) -> (label: Option<TxLabel>)
        ensures
            match label {
                Some(l) => l.spec_code() == c,
                None => c < 1 || c > 7,
            },
    {
        match c {
            1 => Some(TxLabel::Funding),
            2 => Some(TxLabel::Lock),
            3 => Some(TxLabel::Buy),
            4 => Some(TxLabel::Cancel),
            5 => Some(TxLabel::Refund),
            6 => Some(TxLabel::Punish),
            7 => Some(TxLabel::AccLock),
            _ => None,
        }
    }
}

/// Two labels with the same number are the same label.
pub proof fn lemma_code_injective(a: TxLabel, b: TxLabel)
    ensures
        a.spec_code() == b.spec_code() <==> a == b,
{
}

} // verus!
