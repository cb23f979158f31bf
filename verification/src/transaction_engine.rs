//! The transaction engine: applies transactions to accounts, enforcing the
//! dispute lifecycle and the fund invariants, with a typed error taxonomy
//! for every rejection.

use vstd::prelude::*;

use crate::account::{Account, AccountV, DepositRecord, DisputeStatus, RecordV};
use crate::account_store::AccountStore;
use crate::transaction::{Transaction, TransactionInfo};

verus! {

use vstd::string::StringExecFns;

broadcast use vstd::std_specs::hash::group_hash_axioms;

/// Why a transaction was not applied.
///
/// Some reasons are valid business rejections (a frozen account, not enough
/// funds); the others indicate a system-level anomaly. The caller should use
/// [`TransactionNotApplied::is_failure`] to tell them apart.
#[derive(Debug, Clone, PartialEq)]
pub enum TransactionNotApplied {
    /// The account is locked, so the transaction could not be applied.
    AccountLocked,
    /// A deposit with this transaction id was already applied.
    RepeatTransaction(u32),
    /// The account could not be debited: not enough available funds.
    InsufficientFunds,
    /// A dispute-family message referenced an unknown transaction.
    DisputedTransactionNotFound(u32),
    /// A dispute-family message violated the dispute state machine.
    InvalidDisputeState(String),
    /// An internal invariant would have been violated.
    UnexpectedError(String),
}

impl TransactionNotApplied {
    /// Whether this variant is a system-level anomaly (`true`), to be routed
    /// to a dead-letter path, or a valid business rejection (`false`).
    pub open spec fn spec_is_failure(&self) -> bool {
        match self {
            TransactionNotApplied::AccountLocked => false,
            TransactionNotApplied::InsufficientFunds => false,
            TransactionNotApplied::RepeatTransaction(_) => true,
            TransactionNotApplied::DisputedTransactionNotFound(_) => true,
            TransactionNotApplied::InvalidDisputeState(_) => true,
            TransactionNotApplied::UnexpectedError(_) => true,
        }
    }

    /// Checks whether `self` represents a system failure (`true`) or a valid
    /// rejection of a transaction (`false`).
    pub fn is_failure(&self) -> (r: bool)
        ensures
            r == self.spec_is_failure(),
    {
        match self {
            TransactionNotApplied::AccountLocked => false,
            TransactionNotApplied::InsufficientFunds => false,
            TransactionNotApplied::RepeatTransaction(_) => true,
            TransactionNotApplied::DisputedTransactionNotFound(_) => true,
            TransactionNotApplied::InvalidDisputeState(_) => true,
            TransactionNotApplied::UnexpectedError(_) => true,
        }
    }

    /// The characters of `describe`.
    pub open spec fn spec_describe(&self) -> Seq<char> {
        match self {
            TransactionNotApplied::AccountLocked => "account locked"@,
            TransactionNotApplied::InsufficientFunds => "insufficient funds"@,
            TransactionNotApplied::RepeatTransaction(_) => "repeat transaction"@,
            TransactionNotApplied::DisputedTransactionNotFound(_) => "disputed transaction not found"@,
            TransactionNotApplied::InvalidDisputeState(detail) => "invalid dispute state: "@ + detail@,
            TransactionNotApplied::UnexpectedError(detail) => "unexpected error: "@ + detail@,
        }
    }

    /// A human-readable description of the rejection.
    pub fn describe(&self) -> (r: String)
        ensures
            r@ == self.spec_describe(),
    {
        match self {
            TransactionNotApplied::AccountLocked => String::from_str("account locked"),
            TransactionNotApplied::InsufficientFunds => String::from_str("insufficient funds"),
            TransactionNotApplied::RepeatTransaction(_) => String::from_str("repeat transaction"),
            TransactionNotApplied::DisputedTransactionNotFound(_) => String::from_str(
                "disputed transaction not found",
            ),
            TransactionNotApplied::InvalidDisputeState(detail) => String::from_str(
                "invalid dispute state: ",
            ).concat(detail.as_str()),
            TransactionNotApplied::UnexpectedError(detail) => String::from_str(
                "unexpected error: ",
            ).concat(detail.as_str()),
        }
    }
}

/// The abstract outcome of applying one transaction to one account.
pub ghost enum Outcome {
    /// The transaction was applied and the account mutated.
    Applied,
    /// Rejected: the account is locked.
    Locked,
    /// Rejected: a deposit reused an already-recorded transaction id.
    Repeat,
    /// Rejected: a withdrawal exceeded the available funds.
    Insufficient,
    /// Rejected: a dispute-family message referenced an unknown transaction.
    NotFound,
    /// Rejected: the referenced record's status forbids the transition.
    BadState,
    /// Rejected: the mutation would overflow a balance.
    Overflow,
}

/// The account stored for `client`, or a fresh zero-balance account if the
/// client was never seen.
pub open spec fn account_or_initial(accounts: Map<u16, AccountV>, client: u16) -> AccountV {
    if accounts.contains_key(client) {
        accounts[client]
    } else {
        AccountV::initial(client)
    }
}

/// What one transaction does to its target account: the account afterwards,
/// and the outcome. On every outcome but `Applied` the account is unchanged.
pub open spec fn apply_tx(a: AccountV, tx: Transaction) -> (AccountV, Outcome) {
    if a.locked {
        (a, Outcome::Locked)
    } else {
        match tx.info {
            TransactionInfo::Deposit(amount) => {
                if a.transactions.contains_key(tx.transaction_id) {
                    (a, Outcome::Repeat)
                } else if a.total_funds + amount > i64::MAX {
                    (a, Outcome::Overflow)
                } else {
                    (
                        AccountV {
                            total_funds: (a.total_funds + amount) as i64,
                            transactions: a.transactions.insert(
                                tx.transaction_id,
                                RecordV { amount, status: DisputeStatus::NotDisputed },
                            ),
                            ..a
                        },
                        Outcome::Applied,
                    )
                }
            },
            TransactionInfo::Withdrawal(amount) => {
                if a.available() < amount {
                    (a, Outcome::Insufficient)
                } else {
                    (
                        AccountV { total_funds: (a.total_funds - amount) as i64, ..a },
                        Outcome::Applied,
                    )
                }
            },
            TransactionInfo::Dispute => {
                if !a.transactions.contains_key(tx.transaction_id) {
                    (a, Outcome::NotFound)
                } else {
                    let rec = a.transactions[tx.transaction_id];
                    if !rec.can_dispute() {
                        (a, Outcome::BadState)
                    } else if a.active_dispute_total + rec.amount > i64::MAX {
                        (a, Outcome::Overflow)
                    } else {
                        (
                            AccountV {
                                active_dispute_total: (a.active_dispute_total + rec.amount) as i64,
                                transactions: a.transactions.insert(
                                    tx.transaction_id,
                                    rec.with_status(DisputeStatus::Disputed),
                                ),
                                ..a
                            },
                            Outcome::Applied,
                        )
                    }
                }
            },
            TransactionInfo::Resolve => {
                if !a.transactions.contains_key(tx.transaction_id) {
                    (a, Outcome::NotFound)
                } else {
                    let rec = a.transactions[tx.transaction_id];
                    if !rec.can_resolve() {
                        (a, Outcome::BadState)
                    } else {
                        (
                            AccountV {
                                transactions: a.transactions.insert(
                                    tx.transaction_id,
                                    rec.with_status(DisputeStatus::Resolved),
                                ),
                                ..a
                            }.free_disputed(rec.amount),
                            Outcome::Applied,
                        )
                    }
                }
            },
            TransactionInfo::Chargeback => {
                if !a.transactions.contains_key(tx.transaction_id) {
                    (a, Outcome::NotFound)
                } else {
                    let rec = a.transactions[tx.transaction_id];
                    if !rec.can_chargeback() {
                        (a, Outcome::BadState)
                    } else if a.total_funds - rec.amount < i64::MIN {
                        (a, Outcome::Overflow)
                    } else {
                        (
                            AccountV {
                                total_funds: (a.total_funds - rec.amount) as i64,
                                locked: true,
                                transactions: a.transactions.insert(
                                    tx.transaction_id,
                                    rec.with_status(DisputeStatus::Refunded),
                                ),
                                ..a
                            }.free_disputed(rec.amount),
                            Outcome::Applied,
                        )
                    }
                }
            },
        }
    }
}

/// How the engine reports each abstract outcome.
pub open spec fn outcome_matches(
    r: Result<(), TransactionNotApplied>,
    oc: Outcome,
    tx_id: u32,
) -> bool {
    match oc {
        Outcome::Applied => r == Result::<(), TransactionNotApplied>::Ok(()),
        Outcome::Locked => r == Result::<(), TransactionNotApplied>::Err(
            TransactionNotApplied::AccountLocked,
        ),
        Outcome::Repeat => r == Result::<(), TransactionNotApplied>::Err(
            TransactionNotApplied::RepeatTransaction(tx_id),
        ),
        Outcome::Insufficient => r == Result::<(), TransactionNotApplied>::Err(
            TransactionNotApplied::InsufficientFunds,
        ),
        Outcome::NotFound => r == Result::<(), TransactionNotApplied>::Err(
            TransactionNotApplied::DisputedTransactionNotFound(tx_id),
        ),
        Outcome::BadState => r matches Err(TransactionNotApplied::InvalidDisputeState(_)),
        Outcome::Overflow => r matches Err(TransactionNotApplied::UnexpectedError(_)),
    }
}

/// Applies one transaction to one account, in place.
///
/// The mutation is all-or-nothing: on every rejection the account is exactly
/// as it was before the call.
fn apply_to_account(account: &mut Account, tx: &Transaction) -> (r: Result<
    (),
    TransactionNotApplied,
>)
    requires
        old(account)@.wf(),
        tx.info.amounts_positive(),
    ensures
        final(account)@ == apply_tx(old(account)@, *tx).0,
        final(account)@.wf(),
        final(account)@.client == old(account)@.client,
        outcome_matches(r, apply_tx(old(account)@, *tx).1, tx.transaction_id),
{
    if account.locked {
        return Err(TransactionNotApplied::AccountLocked);
    }
    match tx.info {
        TransactionInfo::Deposit(amount) => {
            if account.transactions.contains_key(&tx.transaction_id) {
                proof {
                    assert(old(account)@.transactions.contains_key(tx.transaction_id));
                }
                return Err(TransactionNotApplied::RepeatTransaction(tx.transaction_id));
            }
            if account.total_funds > 0 && amount > i64::MAX - account.total_funds {
                return Err(
                    TransactionNotApplied::UnexpectedError(
                        String::from_str("deposit would overflow the balance"),
                    ),
                );
            }
            account.total_funds = account.total_funds + amount;
            account.transactions.insert(tx.transaction_id, DepositRecord::new(amount));
            proof {
                assert(account@.transactions =~= apply_tx(old(account)@, *tx).0.transactions);
                assert(account@ =~= apply_tx(old(account)@, *tx).0);
            }
            Ok(())
        },
        TransactionInfo::Withdrawal(amount) => {
            let available = account.available_funds();
            if available < amount {
                return Err(TransactionNotApplied::InsufficientFunds);
            }
            account.total_funds = account.total_funds - amount;
            proof {
                assert(account@ =~= apply_tx(old(account)@, *tx).0);
            }
            Ok(())
        },
        TransactionInfo::Dispute => {
            let mut rec = match account.transactions.remove(&tx.transaction_id) {
                None => {
                    proof {
                        assert(account@.transactions =~= old(account)@.transactions);
                        assert(account@ =~= old(account)@);
                    }
                    return Err(
                        TransactionNotApplied::DisputedTransactionNotFound(tx.transaction_id),
                    );
                },
                Some(rec) => rec,
            };
            let amt = rec.amount();
            proof {
                assert(old(account)@.transactions.contains_key(tx.transaction_id));
                assert(old(account)@.transactions[tx.transaction_id] == rec@);
            }
            let transition_allowed = matches!(
                rec.dispute_status(),
                DisputeStatus::NotDisputed | DisputeStatus::Resolved
            );
            if transition_allowed && account.active_dispute_total > i64::MAX - amt {
                account.transactions.insert(tx.transaction_id, rec);
                proof {
                    assert(account@.transactions =~= old(account)@.transactions);
                    assert(account@ =~= old(account)@);
                }
                return Err(
                    TransactionNotApplied::UnexpectedError(
                        String::from_str("dispute would overflow the disputed total"),
                    ),
                );
            }
            match rec.disputed() {
                Err(detail) => {
                    account.transactions.insert(tx.transaction_id, rec);
                    proof {
                        assert(account@.transactions =~= old(account)@.transactions);
                        assert(account@ =~= old(account)@);
                    }
                    return Err(TransactionNotApplied::InvalidDisputeState(detail));
                },
                Ok(_) => {},
            }
            account.transactions.insert(tx.transaction_id, rec);
            account.active_dispute_total = account.active_dispute_total + amt;
            proof {
                assert(account@.transactions =~= apply_tx(old(account)@, *tx).0.transactions);
                assert(account@ =~= apply_tx(old(account)@, *tx).0);
            }
            Ok(())
        },
        TransactionInfo::Resolve => {
            let mut rec = match account.transactions.remove(&tx.transaction_id) {
                None => {
                    proof {
                        assert(account@.transactions =~= old(account)@.transactions);
                        assert(account@ =~= old(account)@);
                    }
                    return Err(
                        TransactionNotApplied::DisputedTransactionNotFound(tx.transaction_id),
                    );
                },
                Some(rec) => rec,
            };
            let amt = rec.amount();
            proof {
                assert(old(account)@.transactions.contains_key(tx.transaction_id));
                assert(old(account)@.transactions[tx.transaction_id] == rec@);
            }
            match rec.resolved() {
                Err(detail) => {
                    account.transactions.insert(tx.transaction_id, rec);
                    proof {
                        assert(account@.transactions =~= old(account)@.transactions);
                        assert(account@ =~= old(account)@);
                    }
                    return Err(TransactionNotApplied::InvalidDisputeState(detail));
                },
                Ok(_) => {},
            }
            account.transactions.insert(tx.transaction_id, rec);
            // The clamp signal marks bookkeeping drift; deliberately not an
            // error, so that a legitimate resolve always completes.
            let _ = account.free_disputed_amount(amt);
            proof {
                assert(account@.transactions =~= apply_tx(old(account)@, *tx).0.transactions);
                assert(account@ =~= apply_tx(old(account)@, *tx).0);
            }
            Ok(())
        },
        TransactionInfo::Chargeback => {
            let mut rec = match account.transactions.remove(&tx.transaction_id) {
                None => {
                    proof {
                        assert(account@.transactions =~= old(account)@.transactions);
                        assert(account@ =~= old(account)@);
                    }
                    return Err(
                        TransactionNotApplied::DisputedTransactionNotFound(tx.transaction_id),
                    );
                },
                Some(rec) => rec,
            };
            let amt = rec.amount();
            proof {
                assert(old(account)@.transactions.contains_key(tx.transaction_id));
                assert(old(account)@.transactions[tx.transaction_id] == rec@);
            }
            let transition_allowed = matches!(rec.dispute_status(), DisputeStatus::Disputed);
            if transition_allowed && account.total_funds < i64::MIN + amt {
                account.transactions.insert(tx.transaction_id, rec);
                proof {
                    assert(account@.transactions =~= old(account)@.transactions);
                    assert(account@ =~= old(account)@);
                }
                return Err(
                    TransactionNotApplied::UnexpectedError(
                        String::from_str("chargeback would overflow the balance"),
                    ),
                );
            }
            match rec.refunded() {
                Err(detail) => {
                    account.transactions.insert(tx.transaction_id, rec);
                    proof {
                        assert(account@.transactions =~= old(account)@.transactions);
                        assert(account@ =~= old(account)@);
                    }
                    return Err(TransactionNotApplied::InvalidDisputeState(detail));
                },
                Ok(_) => {},
            }
            account.transactions.insert(tx.transaction_id, rec);
            // The clamp signal marks bookkeeping drift; deliberately not an
            // error, so that a legitimate chargeback always completes.
            let _ = account.free_disputed_amount(amt);
            account.total_funds = account.total_funds - amt;
            account.locked = true;
            proof {
                assert(account@.transactions =~= apply_tx(old(account)@, *tx).0.transactions);
                assert(account@ =~= apply_tx(old(account)@, *tx).0);
            }
            Ok(())
        },
    }
}

/// The transaction engine: applies transactions to the accounts of the store
/// it owns.
pub struct TxEngine<T> {
    state: T,
}

impl<T: AccountStore> TxEngine<T> {
    /// The engine's accounts, as a map from client id to account model.
    pub closed spec fn accounts(&self) -> Map<u16, AccountV> {
        self.state.accounts()
    }

    /// Client ids in statement order.
    pub closed spec fn order(&self) -> Seq<u16> {
        self.state.order()
    }

    /// The engine's invariant: the store's own invariant, and an account
    /// stored for every client in the statement order.
    pub closed spec fn wf(&self) -> bool {
        &&& self.state.inv()
        &&& forall|i: int|
            0 <= i < self.state.order().len() ==> self.state.accounts().contains_key(
                #[trigger] self.state.order()[i],
            )
    }

    /// A new engine wrapping the provided account store.
    pub fn new(state: T) -> (r: Self)
        requires
            state.inv(),
            forall|i: int|
                0 <= i < state.order().len() ==> state.accounts().contains_key(
                    #[trigger] state.order()[i],
                ),
        ensures
            r.wf(),
            r.accounts() == state.accounts(),
            r.order() == state.order(),
    {
        Self { state }
    }

    /// Accesses the underlying account store directly.
    pub fn store(&self) -> (r: &T)
        ensures
            r.accounts() == self.accounts(),
            r.order() == self.order(),
            self.wf() ==> r.inv() && (forall|i: int|
                0 <= i < r.order().len() ==> r.accounts().contains_key(#[trigger] r.order()[i])),
    {
        &self.state
    }

    /// Accesses the underlying account store for mutation.
    pub fn store_mut(&mut self) -> (r: &mut T)
        ensures
            (*r).accounts() == old(self).accounts(),
            (*r).order() == old(self).order(),
            old(self).wf() ==> (*r).inv(),
            final(self).accounts() == final(r).accounts(),
            final(self).order() == final(r).order(),
            (final(r).inv() && (forall|i: int|
                0 <= i < final(r).order().len() ==> final(r).accounts().contains_key(
                    #[trigger] final(r).order()[i],
                ))) ==> final(self).wf(),
    {
        &mut self.state
    }

    /// Applies a transaction to the account store.
    ///
    /// The target account is created on first reference. The call returns an
    /// error for every case where the transaction was not applied; some of
    /// those are valid rejections needing no further handling (see
    /// [`TransactionNotApplied`]). Mutation is all-or-nothing: on every
    /// error the target account keeps its pre-call state.
    pub fn handle(&mut self, tx: &Transaction) -> (r: Result<(), TransactionNotApplied>)
        requires
            old(self).wf(),
            tx.info.amounts_positive(),
        ensures
            final(self).wf(),
            final(self).accounts() == old(self).accounts().insert(
                tx.client_id,
                apply_tx(account_or_initial(old(self).accounts(), tx.client_id), *tx).0,
            ),
            final(self).order() == if old(self).order().contains(tx.client_id) {
                old(self).order()
            } else {
                old(self).order().push(tx.client_id)
            },
            outcome_matches(
                r,
                apply_tx(account_or_initial(old(self).accounts(), tx.client_id), *tx).1,
                tx.transaction_id,
            ),
    {
        proof {
            self.state.inv_properties();
        }
        let mut account = self.state.take_account(tx.client_id);
        let r = apply_to_account(&mut account, tx);
        self.state.put_account(account);
        proof {
            assert(self.state.accounts() =~= old(self).accounts().insert(
                tx.client_id,
                apply_tx(account_or_initial(old(self).accounts(), tx.client_id), *tx).0,
            ));
            self.state.inv_properties();
            assert forall|i: int|
                0 <= i < self.state.order().len() implies self.state.accounts().contains_key(
                #[trigger] self.state.order()[i],
            ) by {
                let c = self.state.order()[i];
                if c != tx.client_id {
                    assert(old(self).state.order().contains(c) ==> old(
                        self,
                    ).state.accounts().contains_key(c));
                }
            }
        }
        r
    }
}

} // verus!
