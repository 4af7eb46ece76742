//! A single requested operation on a client account.

use vstd::prelude::*;

use crate::transaction_kind::TransactionKind;

verus! {

/// Represents a single transaction, as handed to the engine one at a time by
/// whatever reads the input, except for the `disputed` field, which the
/// engine itself maintains on the copies it retains in history.
#[derive(Clone, Copy, Debug)]
pub struct Transaction {
    pub kind: TransactionKind,
    pub client_id: u16,
    pub id: u32,
    pub amount: Option<u64>,
    pub disputed: bool,
}

impl Transaction {
    /// A fresh, not-yet-disputed transaction.
    #[must_use]
    pub fn new(kind: TransactionKind, client_id: u16, id: u32, amount: Option<u64>) -> (tx:
        Transaction)
        ensures
            tx == (Transaction { kind, client_id, id, amount, disputed: false }),
    {
        Transaction { kind, client_id, id, amount, disputed: false }
    }
}

} // verus!
