//! A sequential payments engine.
//!
//! The engine ingests an ordered stream of transactions (deposit, withdrawal,
//! dispute, resolve, chargeback), keeps per-client accounts with exact
//! fixed-point balances, enforces the dispute lifecycle, and produces a final
//! statement for every account that was ever referenced.
//!
//! All monetary values are held as `i64` counts of ten-thousandths of a unit,
//! so every amount is exact at four decimal places and arithmetic never
//! drifts. Converting an external decimal notation to and from this
//! representation is the caller's concern.

use vstd::prelude::*;

pub mod account;
pub mod account_store;
pub mod laws;
pub mod transaction;
pub mod transaction_engine;

verus! {

use vstd::string::StringExecFns;

use crate::account::AccountV;
use crate::account_store::AccountStore;
use crate::transaction::{Transaction, TransactionRaw, parse_raw};
use crate::transaction_engine::{Outcome, TxEngine, account_or_initial, apply_tx};

/// Transactions rejected for valid business reasons or as malformed input:
/// transaction id plus a description of the rejection cause.
pub type RejectedTransactions = Vec<(u32, String)>;

/// Valid transactions that could not be applied because of a system-level
/// anomaly, kept so they are not lost: the transaction plus a description of
/// the failure cause.
pub type FailedTransactions = Vec<(Transaction, String)>;

/// The accumulated outcome of a run: the accounts, the statement order, the
/// rejected transaction ids, and the dead-lettered transactions.
pub ghost struct RunModel {
    pub accounts: Map<u16, AccountV>,
    pub order: Seq<u16>,
    pub rejected: Seq<u32>,
    pub failed: Seq<Transaction>,
}

/// One input row's effect on the run: a malformed row is rejected; an
/// applied transaction mutates its account; a business rejection is noted
/// under the row's transaction id; an anomaly dead-letters the transaction.
pub open spec fn step_model(m: RunModel, raw: TransactionRaw) -> RunModel {
    match parse_raw(raw) {
        Option::None => RunModel { rejected: m.rejected.push(raw.tx), ..m },
        Option::Some(tx) => {
            let a0 = account_or_initial(m.accounts, tx.client_id);
            let (a1, oc) = apply_tx(a0, tx);
            let accounts = m.accounts.insert(tx.client_id, a1);
            let order = if m.order.contains(tx.client_id) {
                m.order
            } else {
                m.order.push(tx.client_id)
            };
            match oc {
                Outcome::Applied => RunModel { accounts, order, ..m },
                Outcome::Locked => RunModel {
                    accounts,
                    order,
                    rejected: m.rejected.push(tx.transaction_id),
                    ..m
                },
                Outcome::Insufficient => RunModel {
                    accounts,
                    order,
                    rejected: m.rejected.push(tx.transaction_id),
                    ..m
                },
                _ => RunModel { accounts, order, failed: m.failed.push(tx), ..m },
            }
        },
    }
}

/// A whole run: rows applied strictly in input order, front to back.
pub open spec fn run_model(m: RunModel, raws: Seq<TransactionRaw>) -> RunModel
    decreases raws.len(),
{
    if raws.len() == 0 {
        m
    } else {
        run_model(step_model(m, raws[0]), raws.drop_first())
    }
}

/// Running one more row steps the model once at the end.
pub proof fn lemma_run_model_push(m: RunModel, raws: Seq<TransactionRaw>, raw: TransactionRaw)
    ensures
        run_model(m, raws.push(raw)) == step_model(run_model(m, raws), raw),
    decreases raws.len(),
{
    if raws.len() == 0 {
        assert(raws.push(raw)[0] == raw);
        assert(raws.push(raw).drop_first() =~= Seq::<TransactionRaw>::empty());
        assert(run_model(m, raws.push(raw)) == run_model(
            step_model(m, raw),
            raws.push(raw).drop_first(),
        ));
        assert(run_model(step_model(m, raw), Seq::<TransactionRaw>::empty()) == step_model(m, raw));
        assert(run_model(m, raws) == m);
    } else {
        assert(raws.push(raw)[0] == raws[0]);
        assert(raws.push(raw).drop_first() =~= raws.drop_first().push(raw));
        assert(run_model(m, raws.push(raw)) == run_model(
            step_model(m, raws[0]),
            raws.drop_first().push(raw),
        ));
        assert(run_model(m, raws) == run_model(step_model(m, raws[0]), raws.drop_first()));
        lemma_run_model_push(step_model(m, raws[0]), raws.drop_first(), raw);
    }
}

/// Applies every row, in order, to the engine's accounts.
///
/// Returns the rejected transactions (business rejections and malformed
/// rows, each under its transaction id) and the dead-letter queue of typed
/// transactions whose failure signals a system-level anomaly.
pub fn run_transactions<T: AccountStore>(engine: &mut TxEngine<T>, raws: Vec<TransactionRaw>) -> (r:
    (RejectedTransactions, FailedTransactions))
    requires
        old(engine).wf(),
    ensures
        final(engine).wf(),
        ({
            let m = run_model(
                RunModel {
                    accounts: old(engine).accounts(),
                    order: old(engine).order(),
                    rejected: Seq::empty(),
                    failed: Seq::empty(),
                },
                raws@,
            );
            &&& final(engine).accounts() == m.accounts
            &&& final(engine).order() == m.order
            &&& r.0@.len() == m.rejected.len()
            &&& forall|i: int| 0 <= i < r.0@.len() ==> (#[trigger] r.0@[i]).0 == m.rejected[i]
            &&& r.1@.len() == m.failed.len()
            &&& forall|i: int| 0 <= i < r.1@.len() ==> (#[trigger] r.1@[i]).0 == m.failed[i]
        }),
{
    let ghost all = raws@;
    let ghost m0 = RunModel {
        accounts: engine.accounts(),
        order: engine.order(),
        rejected: Seq::empty(),
        failed: Seq::empty(),
    };
    let mut raws = raws;
    let mut rejected: RejectedTransactions = Vec::new();
    let mut failed: FailedTransactions = Vec::new();
    while raws.len() > 0
        invariant
            engine.wf(),
            raws@.len() <= all.len(),
            raws@ == all.skip(all.len() - raws@.len()),
            ({
                let m = run_model(m0, all.take(all.len() - raws@.len()));
                &&& engine.accounts() == m.accounts
                &&& engine.order() == m.order
                &&& rejected@.len() == m.rejected.len()
                &&& forall|i: int|
                    0 <= i < rejected@.len() ==> (#[trigger] rejected@[i]).0 == m.rejected[i]
                &&& failed@.len() == m.failed.len()
                &&& forall|i: int| 0 <= i < failed@.len() ==> (#[trigger] failed@[i]).0 == m.failed[i]
            }),
        decreases raws@.len(),
    {
        let ghost k = all.len() - raws@.len();
        let raw = raws.remove(0);
        proof {
            assert(raw == all[k]);
            assert(raws@ =~= all.skip(k + 1));
            assert(all.take(k + 1) =~= all.take(k).push(raw));
            lemma_run_model_push(m0, all.take(k), raw);
        }
        let tx_id = raw.tx;
        let tx = match Transaction::try_from(raw) {
            Ok(tx) => tx,
            Err(_e) => {
                rejected.push((tx_id, String::from_str("Malformed Transaction")));
                continue;
            },
        };
        let res = engine.handle(&tx);
        match res {
            Ok(_) => {},
            Err(err) => {
                let msg = err.describe();
                if err.is_failure() {
                    failed.push((tx, msg));
                } else {
                    rejected.push((tx_id, msg));
                }
            },
        }
    }
    proof {
        assert(all.take(all.len() as int) =~= all);
    }
    (rejected, failed)
}

} // verus!
