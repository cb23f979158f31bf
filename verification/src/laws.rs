//! Laws of the engine: properties of applying transactions, stated over the
//! account model and proved once and for all.

use vstd::prelude::*;

use crate::account::{AccountV, DisputeStatus};
use crate::transaction::{Transaction, TransactionInfo};
use crate::transaction_engine::{apply_tx, Outcome};

verus! {

/// Fund bounds: a well-formed account never shows negative available funds,
/// and never holds more than the non-negative part of its balance.
pub proof fn lemma_funds_bounds(a: AccountV)
    requires
        a.wf(),
    ensures
        a.available() >= 0,
        a.held() <= (if a.total_funds >= 0 {
            a.total_funds as int
        } else {
            0
        }),
{
}

/// Applying any transaction with positive amounts preserves an account's
/// well-formedness; together with `lemma_funds_bounds` this keeps the fund
/// bounds holding at every point of a run.
pub proof fn lemma_apply_tx_preserves_wf(a: AccountV, tx: Transaction)
    requires
        a.wf(),
        tx.info.amounts_positive(),
    ensures
        apply_tx(a, tx).0.wf(),
{
}

/// Depositing `amount` and immediately reading the available funds shows an
/// increase of exactly `amount`, when no disputes are active and the account
/// is not overdrawn.
pub proof fn lemma_deposit_adds_available(a: AccountV, client: u16, id: u32, amount: i64)
    requires
        a.wf(),
        !a.locked,
        a.total_funds >= 0,
        a.active_dispute_total == 0,
        !a.transactions.contains_key(id),
        amount > 0,
        a.total_funds + amount <= i64::MAX,
    ensures
        ({
            let (a1, oc) = apply_tx(
                a,
                Transaction {
                    client_id: client,
                    transaction_id: id,
                    info: TransactionInfo::Deposit(amount),
                },
            );
            oc == Outcome::Applied && a1.available() == a.available() + amount
        }),
{
}

/// A transaction id used for one deposit can never be applied as a second
/// deposit: the replay is rejected as a repeat and the account is unchanged.
pub proof fn lemma_deposit_replay_rejected(
    a: AccountV,
    client: u16,
    id: u32,
    amount1: i64,
    amount2: i64,
)
    requires
        apply_tx(
            a,
            Transaction {
                client_id: client,
                transaction_id: id,
                info: TransactionInfo::Deposit(amount1),
            },
        ).1 == Outcome::Applied,
    ensures
        ({
            let a1 = apply_tx(
                a,
                Transaction {
                    client_id: client,
                    transaction_id: id,
                    info: TransactionInfo::Deposit(amount1),
                },
            ).0;
            let (a2, oc2) = apply_tx(
                a1,
                Transaction {
                    client_id: client,
                    transaction_id: id,
                    info: TransactionInfo::Deposit(amount2),
                },
            );
            oc2 == Outcome::Repeat && a2 == a1
        }),
{
}

/// Dispute then resolve is a valid cycle: both transitions apply, the
/// pre-dispute available/held split is restored, and the deposit may then be
/// disputed again.
pub proof fn lemma_dispute_resolve_cycle(a: AccountV, client: u16, id: u32)
    requires
        a.wf(),
        !a.locked,
        a.transactions.contains_key(id),
        a.transactions[id].can_dispute(),
        a.active_dispute_total + a.transactions[id].amount <= i64::MAX,
    ensures
        ({
            let dispute = Transaction {
                client_id: client,
                transaction_id: id,
                info: TransactionInfo::Dispute,
            };
            let resolve = Transaction {
                client_id: client,
                transaction_id: id,
                info: TransactionInfo::Resolve,
            };
            let (a1, o1) = apply_tx(a, dispute);
            let (a2, o2) = apply_tx(a1, resolve);
            let (a3, o3) = apply_tx(a2, dispute);
            &&& o1 == Outcome::Applied
            &&& o2 == Outcome::Applied
            &&& o3 == Outcome::Applied
            &&& a2.available() == a.available()
            &&& a2.held() == a.held()
            &&& a2.total_funds == a.total_funds
            &&& a2.active_dispute_total == a.active_dispute_total
        }),
{
}

/// Dispute, resolve, dispute again, chargeback: the chargeback applies,
/// permanently locks the account, leaves the record refunded, and no further
/// dispute is accepted.
pub proof fn lemma_redispute_chargeback_locks(a: AccountV, client: u16, id: u32)
    requires
        a.wf(),
        !a.locked,
        a.transactions.contains_key(id),
        a.transactions[id].can_dispute(),
        a.active_dispute_total + a.transactions[id].amount <= i64::MAX,
        a.total_funds - a.transactions[id].amount >= i64::MIN,
    ensures
        ({
            let dispute = Transaction {
                client_id: client,
                transaction_id: id,
                info: TransactionInfo::Dispute,
            };
            let resolve = Transaction {
                client_id: client,
                transaction_id: id,
                info: TransactionInfo::Resolve,
            };
            let chargeback = Transaction {
                client_id: client,
                transaction_id: id,
                info: TransactionInfo::Chargeback,
            };
            let (a1, o1) = apply_tx(a, dispute);
            let (a2, o2) = apply_tx(a1, resolve);
            let (a3, o3) = apply_tx(a2, dispute);
            let (a4, o4) = apply_tx(a3, chargeback);
            &&& o4 == Outcome::Applied
            &&& a4.locked
            &&& a4.transactions[id].status == DisputeStatus::Refunded
            &&& apply_tx(a4, dispute).1 == Outcome::Locked
        }),
{
}

/// A chargeback on a disputed deposit whose funds were partially withdrawn
/// drives the balance negative while the available funds stay clamped at
/// zero, and the account ends locked.
pub proof fn lemma_chargeback_overdraws(a: AccountV, client: u16, id: u32)
    requires
        a.wf(),
        !a.locked,
        a.transactions.contains_key(id),
        a.transactions[id].status == DisputeStatus::Disputed,
        a.active_dispute_total == a.transactions[id].amount,
        a.total_funds < a.transactions[id].amount,
        a.total_funds - a.transactions[id].amount >= i64::MIN,
    ensures
        ({
            let (a1, oc) = apply_tx(
                a,
                Transaction {
                    client_id: client,
                    transaction_id: id,
                    info: TransactionInfo::Chargeback,
                },
            );
            &&& oc == Outcome::Applied
            &&& a1.total_funds < 0
            &&& a1.available() == 0
            &&& a1.locked
        }),
{
}

/// A withdrawal strictly greater than the available funds never mutates the
/// account: on an unlocked account it is rejected for insufficient funds, on
/// a locked account for the lock.
pub proof fn lemma_overdraw_never_mutates(a: AccountV, client: u16, id: u32, amount: i64)
    requires
        amount > a.available(),
    ensures
        ({
            let (a1, oc) = apply_tx(
                a,
                Transaction {
                    client_id: client,
                    transaction_id: id,
                    info: TransactionInfo::Withdrawal(amount),
                },
            );
            &&& a1 == a
            &&& !a.locked ==> oc == Outcome::Insufficient
            &&& a.locked ==> oc == Outcome::Locked
        }),
{
}

} // verus!

