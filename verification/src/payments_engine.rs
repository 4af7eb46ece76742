//! The payments engine: owns the account table and the history of accepted
//! transfers, and dispatches each incoming transaction to the correct state
//! transition while enforcing the dispute-protocol legality rules.

use std::collections::HashMap;

use vstd::prelude::*;

use crate::account::Account;
use crate::transaction::Transaction;
use crate::transaction_kind::TransactionKind;

verus! {

/// The mathematical state of the engine: the account table keyed by client
/// id, and the history of accepted transfer transactions keyed by
/// transaction id.
pub struct EngineState {
    pub accounts: Map<u16, Account>,
    pub history: Map<u32, Transaction>,
}

impl EngineState {
    /// The account a transaction aims at: the one already on file for its
    /// client id, or a fresh zeroed account when that client is new.
    pub open spec fn target_account(self, client_id: u16) -> Account {
        if self.accounts.contains_key(client_id) {
            self.accounts[client_id]
        } else {
            Account { id: client_id, available: 0, held: 0, total: 0, locked: false }
        }
    }

    /// The engine invariant: every account on file is keyed by its own
    /// client id and satisfies `total == available + held`; every history
    /// entry is keyed by its own transaction id, is a transfer, carries an
    /// amount, and its client already has an account on file.
    pub open spec fn inv(self) -> bool {
        &&& forall|client: u16| #[trigger]
            self.accounts.contains_key(client) ==> self.accounts[client].id == client
                && self.accounts[client].well_formed()
        &&& forall|id: u32| #[trigger]
            self.history.contains_key(id) ==> {
                &&& self.history[id].id == id
                &&& self.history[id].kind.is_transfer()
                &&& self.history[id].amount is Some
                &&& self.accounts.contains_key(self.history[id].client_id)
            }
    }

    /// What a state asks of a transaction before the engine can take it: a
    /// transfer must carry an amount, a deposit must fit the machine bound
    /// of its target account, and a claim on a recorded transfer must name a
    /// client that has an account on file.
    pub open spec fn admits(self, tx: Transaction) -> bool {
        if tx.kind.is_transfer() {
            &&& tx.amount is Some
            &&& (tx.kind is Deposit ==> self.target_account(tx.client_id).total
                + tx.amount->Some_0 <= u64::MAX)
        } else {
            self.history.contains_key(tx.id) ==> self.accounts.contains_key(tx.client_id)
        }
    }

    /// The state after a transfer (deposit or withdrawal): the target
    /// account is put on file with the operation applied, and the
    /// transaction enters history exactly when the operation was applied.
    pub open spec fn step_transfer(self, tx: Transaction) -> EngineState {
        let before = self.target_account(tx.client_id);
        let amount = tx.amount->Some_0;
        let after = if tx.kind is Deposit {
            before.after_deposit(amount)
        } else {
            before.after_withdraw(amount)
        };
        let applied = tx.kind is Deposit || amount <= before.available;
        EngineState {
            accounts: self.accounts.insert(tx.client_id, after),
            history: if applied {
                self.history.insert(tx.id, tx)
            } else {
                self.history
            },
        }
    }

    /// The state after a permitted claim: the referenced history record gets
    /// `flag` as its new disputed mark, and the claimed account operation is
    /// applied, with the recorded transfer's amount, to the account of the
    /// claim's client.
    pub open spec fn apply_claim(self, tx: Transaction, record: Transaction, flag: bool) -> EngineState {
        let updated = Transaction {
            kind: record.kind,
            client_id: record.client_id,
            id: record.id,
            amount: record.amount,
            disputed: flag,
        };
        let amount = record.amount->Some_0;
        let before = self.accounts[tx.client_id];
        let after = if tx.kind is Dispute {
            before.after_dispute(amount)
        } else if tx.kind is Resolve {
            before.after_resolve(amount)
        } else {
            before.after_chargeback(amount)
        };
        EngineState {
            accounts: self.accounts.insert(tx.client_id, after),
            history: self.history.insert(tx.id, updated),
        }
    }

    /// The state after a claim (dispute, resolve or chargeback): a claim on
    /// an id absent from history is ignored entirely; a dispute marks the
    /// record disputed and applies the hold; a resolve or chargeback
    /// proceeds, clearing the mark first, only when the record is currently
    /// disputed, and is ignored entirely otherwise.
    pub open spec fn step_claim(self, tx: Transaction) -> EngineState {
        if !self.history.contains_key(tx.id) {
            self
        } else {
            let record = self.history[tx.id];
            if tx.kind is Dispute {
                self.apply_claim(tx, record, true)
            } else if !record.disputed {
                self
            } else {
                self.apply_claim(tx, record, false)
            }
        }
    }

    /// The engine's transition relation: one incoming transaction takes the
    /// state to the next one.
    pub open spec fn step(self, tx: Transaction) -> EngineState {
        if tx.kind.is_transfer() {
            self.step_transfer(tx)
        } else {
            self.step_claim(tx)
        }
    }

    /// The state after a whole stream of transactions, processed strictly in
    /// order.
    pub open spec fn run(self, txs: Seq<Transaction>) -> EngineState
        decreases txs.len(),
    {
        if txs.len() == 0 {
            self
        } else {
            self.step(txs[0]).run(txs.drop_first())
        }
    }

    /// Whether a state admits a whole stream of transactions, each one in
    /// the state the ones before it produced.
    pub open spec fn admits_all(self, txs: Seq<Transaction>) -> bool
        decreases txs.len(),
    {
        txs.len() == 0 || (self.admits(txs[0]) && self.step(txs[0]).admits_all(txs.drop_first()))
    }
}

/// Law (invariant preservation): one admissible transaction takes a state
/// satisfying the engine invariant to another such state; in particular
/// every account still satisfies `total == available + held`.
pub proof fn lemma_step_preserves_inv(s: EngineState, tx: Transaction)
    requires
        s.inv(),
        s.admits(tx),
    ensures
        s.step(tx).inv(),
{
}

/// Law: after processing any prefix of an admissible transaction stream the
/// engine invariant holds, so every account on file satisfies
/// `total == available + held` at every observable point.
pub proof fn lemma_prefix_preserves_inv(s: EngineState, txs: Seq<Transaction>, n: int)
    requires
        s.inv(),
        s.admits_all(txs),
        0 <= n <= txs.len(),
    ensures
        s.run(txs.take(n)).inv(),
        forall|client: u16| #[trigger]
            s.run(txs.take(n)).accounts.contains_key(client) ==> s.run(
                txs.take(n),
            ).accounts[client].total == s.run(txs.take(n)).accounts[client].available + s.run(
                txs.take(n),
            ).accounts[client].held,
    decreases n,
{
    if n == 0 {
        assert(txs.take(0) =~= Seq::<Transaction>::empty());
    } else {
        lemma_step_preserves_inv(s, txs[0]);
        assert(txs.take(n)[0] == txs[0]);
        assert(txs.take(n).drop_first() =~= txs.drop_first().take(n - 1));
        lemma_prefix_preserves_inv(s.step(txs[0]), txs.drop_first(), n - 1);
    }
}

/// Law (history gating): a claim referencing a transaction id that was never
/// recorded as a successful transfer leaves the whole engine state — every
/// account and the history — exactly as it was.
pub proof fn lemma_unknown_claim_is_noop(s: EngineState, tx: Transaction)
    requires
        tx.kind.is_claim(),
        !s.history.contains_key(tx.id),
    ensures
        s.step(tx) == s,
{
}

/// Law: a resolve or chargeback referencing a transaction that is not
/// currently disputed — whether unknown or merely never disputed — leaves
/// the whole engine state exactly as it was.
pub proof fn lemma_undisputed_claim_is_noop(s: EngineState, tx: Transaction)
    requires
        tx.kind is Resolve || tx.kind is Chargeback,
        s.history.contains_key(tx.id) ==> !s.history[tx.id].disputed,
    ensures
        s.step(tx) == s,
{
}

/// The payments engine: the account table, public as the engine's read-only
/// snapshot once processing is done, and the history of accepted transfers.
pub struct PaymentsEngine {
    pub accounts: HashMap<u16, Account>,
    history: HashMap<u32, Transaction>,
}

impl PaymentsEngine {
    /// The mathematical state this engine holds.
    pub closed spec fn state(&self) -> EngineState {
        EngineState { accounts: self.accounts@, history: self.history@ }
    }

    /// A fresh engine with no accounts and an empty history.
    #[must_use]
    pub fn new() -> (engine: PaymentsEngine)
        ensures
            engine.state() == (EngineState {
                accounts: Map::<u16, Account>::empty(),
                history: Map::<u32, Transaction>::empty(),
            }),
            engine.state().inv(),
    {
        PaymentsEngine { accounts: HashMap::new(), history: HashMap::new() }
    }

    /// Whether a transfer with this transaction id has been recorded into
    /// history, and so could be the subject of a claim.
    pub fn transfer_recorded(&self, id: u32) -> (recorded: bool)
        ensures
            recorded == self.state().history.contains_key(id),
    {
        self.history.contains_key(&id)
    }

    /// Feed one transaction to the engine: the single entry point. The new
    /// state is exactly the transition relation applied to the old one.
    pub fn execute(&mut self, tx: Transaction)
        requires
            old(self).state().inv(),
            old(self).state().admits(tx),
        ensures
            final(self).state() == old(self).state().step(tx),
            final(self).state().inv(),
    {
        match tx.kind {
            TransactionKind::Deposit | TransactionKind::Withdrawal => {
                // Find the account, start a fresh one if missing
                let mut account = match self.accounts.get(&tx.client_id) {
                    Some(existing) => *existing,
                    None => Account::new(tx.client_id),
                };

                // Perform the transaction
                let applied = handle_transfer(&tx.kind, &mut account, tx.amount.unwrap());
                self.accounts.insert(tx.client_id, account);
                if applied {
                    // Transaction succeeded, add it to the history
                    self.history.insert(tx.id, tx);
                }

                proof {
                    lemma_step_preserves_inv(old(self).state(), tx);
                }
            },
            _ => {
                // If the claimed tx was never recorded ignore this tx
                let found = self.history.get(&tx.id);
                if found.is_none() {
                    return;
                }
                let mut record: Transaction = *found.unwrap();

                // Set/check the disputed flag on the claimed tx
                if tx.kind == TransactionKind::Dispute {
                    record.disputed = true;
                } else {
                    // If the claimed tx was never disputed ignore this tx
                    if !record.disputed {
                        return;
                    }
                    record.disputed = false;
                }
                self.history.insert(tx.id, record);

                // Apply the claim with the recorded transfer's own amount
                let mut account: Account = *self.accounts.get(&tx.client_id).unwrap();
                handle_claim(&tx.kind, &mut account, record.amount.unwrap());
                self.accounts.insert(tx.client_id, account);

                proof {
                    lemma_step_preserves_inv(old(self).state(), tx);
                }
            },
        }
    }
}

/// Apply a transfer to its target account: a deposit always applies, a
/// withdrawal applies only when the funds are available. Returns whether the
/// operation was applied.
fn handle_transfer(kind: &TransactionKind, account: &mut Account, amount: u64) -> (applied: bool)
    requires
        kind.is_transfer(),
        old(account).well_formed(),
        *kind is Deposit ==> old(account).total + amount <= u64::MAX,
    ensures
        applied == (*kind is Deposit || amount <= old(account).available),
        *final(account) == (if *kind is Deposit {
            old(account).after_deposit(amount)
        } else {
            old(account).after_withdraw(amount)
        }),
        final(account).well_formed(),
{
    if *kind == TransactionKind::Deposit {
        account.deposit(amount);
        return true;
    }

    account.withdraw(amount)
}

/// Apply a permitted claim to the client's account: a dispute withholds the
/// amount, a resolve releases it, a chargeback removes it and locks the
/// account.
fn handle_claim(kind: &TransactionKind, client: &mut Account, amount: u64)
    requires
        kind.is_claim(),
        old(client).well_formed(),
    ensures
        *final(client) == (if *kind is Dispute {
            old(client).after_dispute(amount)
        } else if *kind is Resolve {
            old(client).after_resolve(amount)
        } else {
            old(client).after_chargeback(amount)
        }),
        final(client).well_formed(),
{
    match kind {
        TransactionKind::Dispute => client.dispute(amount),
        TransactionKind::Resolve => client.resolve(amount),
        TransactionKind::Chargeback => client.chargeback(amount),
        _ => {},
    }
}

} // verus!
