//! The closed set of transaction kinds the engine understands.

use vstd::prelude::*;

verus! {

/// Possible transaction types, used for the `kind` field in the `Transaction` type.
///
/// Deposit and Withdrawal are transfer kinds: they carry an amount and are
/// recorded into the engine's history when applied. Dispute, Resolve and
/// Chargeback are claim kinds: they carry no amount and reference a prior
/// transfer by its transaction id.
#[derive(Clone, Copy, Debug, PartialEq, Eq, Structural)]
pub enum TransactionKind {
    Deposit,
    Withdrawal,
    Dispute,
    Resolve,
    Chargeback,
}

impl TransactionKind {
    /// Whether this kind is a transfer (deposit or withdrawal): the kinds
    /// that carry an amount and may be recorded into history.
    pub open spec fn is_transfer(self) -> bool {
        self is Deposit || self is Withdrawal
    }

    /// Whether this kind is a claim (dispute, resolve or chargeback): the
    /// kinds that reference a prior transfer by its id.
    pub open spec fn is_claim(self) -> bool {
        self is Dispute || self is Resolve || self is Chargeback
    }
}

} // verus!
