use payments_engine::account::{Account, DisputeStatus};
use payments_engine::account_store::{AccountStore, InMemoryStore};
use payments_engine::transaction::{Transaction, TransactionInfo};
use payments_engine::transaction_engine::{TransactionNotApplied, TxEngine};

// Amounts count ten-thousandths of a unit: 1 unit is 10_000.

const CLIENT_ID_DEFAULT: u16 = 123;
const TX_ID_DEFAULT: u32 = 1;

fn engine_with_def_account() -> TxEngine<InMemoryStore> {
    let mut acc = Account::new(CLIENT_ID_DEFAULT);
    acc.locked = false;
    let stub_store = InMemoryStore::new_with_data(vec![acc]);
    TxEngine::new(stub_store)
}

fn deposit_tx(amount: i64, tx_id: u32) -> Transaction {
    Transaction {
        client_id: CLIENT_ID_DEFAULT,
        transaction_id: tx_id,
        info: TransactionInfo::Deposit(amount),
    }
}

fn withdrawal_tx(amount: i64, tx_id: u32) -> Transaction {
    Transaction {
        client_id: CLIENT_ID_DEFAULT,
        transaction_id: tx_id,
        info: TransactionInfo::Withdrawal(amount),
    }
}

fn dispute_tx(tx_id: u32) -> Transaction {
    Transaction {
        client_id: CLIENT_ID_DEFAULT,
        transaction_id: tx_id,
        info: TransactionInfo::Dispute,
    }
}

fn resolve_tx(tx_id: u32) -> Transaction {
    Transaction {
        client_id: CLIENT_ID_DEFAULT,
        transaction_id: tx_id,
        info: TransactionInfo::Resolve,
    }
}

fn chargeback_tx(tx_id: u32) -> Transaction {
    Transaction {
        client_id: CLIENT_ID_DEFAULT,
        transaction_id: tx_id,
        info: TransactionInfo::Chargeback,
    }
}

#[test]
fn locked_account_transactions_not_applied() {
    let mut acc = Account::new(123);
    acc.locked = true;
    let mut engine = TxEngine::new(InMemoryStore::new_with_data(vec![acc]));

    let resp = engine.handle(&deposit_tx(10_000, TX_ID_DEFAULT)).unwrap_err();
    assert_eq!(resp, TransactionNotApplied::AccountLocked);

    // Nothing changed since not applied.
    let acc = engine.store().get_account(123).unwrap();
    assert_eq!(acc.available_funds(), 0);
    assert_eq!(acc.held_funds(), 0);
    assert!(!acc.transactions.contains_key(&1));
}

#[test]
fn deposit() {
    let mut engine = engine_with_def_account();
    engine.handle(&deposit_tx(10_000, TX_ID_DEFAULT)).unwrap();

    let acc = engine.store().get_account(123).unwrap();
    assert_eq!(acc.available_funds(), 10_000);
    assert_eq!(acc.held_funds(), 0);
    assert!(acc.transactions.contains_key(&1));
}

#[test]
fn withdrawal() {
    let mut engine = engine_with_def_account();
    engine.handle(&deposit_tx(1_000_000, TX_ID_DEFAULT)).unwrap();
    engine.handle(&withdrawal_tx(500_000, 2)).unwrap();

    let acc = engine.store().get_account(123).unwrap();
    assert_eq!(acc.available_funds(), 500_000);
    assert_eq!(acc.held_funds(), 0);
    assert!(!acc.transactions.contains_key(&2));
}

#[test]
fn withdraw_overdrawn() {
    let mut engine = engine_with_def_account();
    engine.handle(&deposit_tx(1_000_000, TX_ID_DEFAULT)).unwrap();
    let resp = engine.handle(&withdrawal_tx(1_500_000, 2)).unwrap_err();
    assert_eq!(resp, TransactionNotApplied::InsufficientFunds);

    let acc = engine.store().get_account(123).unwrap();
    assert_eq!(acc.available_funds(), 1_000_000);
    assert_eq!(acc.held_funds(), 0);
    assert!(!acc.transactions.contains_key(&2));
}

#[test]
fn repeat_transaction_id() {
    let mut engine = engine_with_def_account();
    engine.handle(&deposit_tx(1_000_000, 1)).unwrap();
    let resp = engine.handle(&deposit_tx(1_500_000, 1)).unwrap_err();
    assert!(matches!(resp, TransactionNotApplied::RepeatTransaction(_)));
}

#[test]
fn dispute_phases_invalid_tx_id() {
    // Checks dispute-phase transactions are rejected if they reference a
    // transaction that doesn't exist, doesn't belong to that client, or
    // isn't a deposit.
    let mut engine = engine_with_def_account();
    engine.handle(&deposit_tx(1_000_000, TX_ID_DEFAULT)).unwrap();
    let resp = engine.handle(&dispute_tx(2)).unwrap_err();
    assert!(matches!(
        resp,
        TransactionNotApplied::DisputedTransactionNotFound(_)
    ));
}

#[test]
fn dispute_bad_tx_state() {
    // Dispute gets rejected if the referenced transaction is not in a valid
    // state to start the dispute process.
    let mut engine = engine_with_def_account();
    engine.handle(&deposit_tx(1_000_000, 1)).unwrap();
    // Start dispute
    engine.handle(&dispute_tx(1)).unwrap();
    // Repeat
    let resp = engine.handle(&dispute_tx(1)).unwrap_err();
    assert!(matches!(resp, TransactionNotApplied::InvalidDisputeState(_)));
}

#[test]
fn resolve_bad_tx_state() {
    // Resolve gets rejected if the referenced transaction is not in a valid
    // state to progress the dispute process.
    let mut engine = engine_with_def_account();
    engine.handle(&deposit_tx(1_000_000, 1)).unwrap();
    let resp = engine.handle(&resolve_tx(1)).unwrap_err();
    assert!(matches!(resp, TransactionNotApplied::InvalidDisputeState(_)));
}

#[test]
fn chargeback_bad_tx_state() {
    // Chargeback gets rejected if the referenced transaction is not in a
    // valid state to progress the dispute process.
    let mut engine = engine_with_def_account();
    engine.handle(&deposit_tx(1_000_000, 1)).unwrap();
    let resp = engine.handle(&chargeback_tx(1)).unwrap_err();
    assert!(matches!(resp, TransactionNotApplied::InvalidDisputeState(_)));
}

#[test]
fn dispute_transitions_success() {
    let mut engine = engine_with_def_account();
    engine.handle(&deposit_tx(1_000_000, 1)).unwrap();
    engine.handle(&deposit_tx(500_000, 2)).unwrap();

    // Initial dispute
    engine.handle(&dispute_tx(1)).unwrap();
    {
        let acc = engine.store().get_account(123).unwrap();
        assert_eq!(acc.available_funds(), 500_000);
        assert_eq!(acc.held_funds(), 1_000_000);
        assert!(acc.transactions.get(&1).unwrap().dispute_status() == DisputeStatus::Disputed);
    }

    // Resolve it
    engine.handle(&resolve_tx(1)).unwrap();
    {
        let acc = engine.store().get_account(123).unwrap();
        assert_eq!(acc.available_funds(), 1_500_000);
        assert_eq!(acc.held_funds(), 0);
        assert!(acc.transactions.get(&1).unwrap().dispute_status() == DisputeStatus::Resolved);
    }

    // Re-initialize the dispute.
    engine.handle(&dispute_tx(1)).unwrap();
    {
        let acc = engine.store().get_account(123).unwrap();
        assert_eq!(acc.available_funds(), 500_000);
        assert_eq!(acc.held_funds(), 1_000_000);
        assert!(acc.transactions.get(&1).unwrap().dispute_status() == DisputeStatus::Disputed);
    }

    // Now chargeback.
    engine.handle(&chargeback_tx(1)).unwrap();
    let acc = engine.store().get_account(123).unwrap();
    assert_eq!(acc.available_funds(), 500_000);
    assert_eq!(acc.held_funds(), 0);
    assert!(acc.transactions.get(&1).unwrap().dispute_status() == DisputeStatus::Refunded);
    assert!(acc.locked);
}

#[test]
fn deposit_overflow_is_an_anomaly() {
    let mut engine = engine_with_def_account();
    engine.handle(&deposit_tx(i64::MAX, 1)).unwrap();
    let resp = engine.handle(&deposit_tx(10_000, 2)).unwrap_err();
    assert!(matches!(resp, TransactionNotApplied::UnexpectedError(_)));
    assert!(resp.is_failure());
    // The account is unchanged: the second deposit was not recorded.
    let acc = engine.store().get_account(123).unwrap();
    assert_eq!(acc.total_funds, i64::MAX);
    assert!(!acc.transactions.contains_key(&2));
}

#[test]
fn error_taxonomy_split() {
    assert!(!TransactionNotApplied::AccountLocked.is_failure());
    assert!(!TransactionNotApplied::InsufficientFunds.is_failure());
    assert!(TransactionNotApplied::RepeatTransaction(1).is_failure());
    assert!(TransactionNotApplied::DisputedTransactionNotFound(1).is_failure());
    assert!(TransactionNotApplied::InvalidDisputeState("state".to_string()).is_failure());
    assert!(TransactionNotApplied::UnexpectedError("oops".to_string()).is_failure());
}

#[test]
fn error_descriptions() {
    assert_eq!(
        TransactionNotApplied::AccountLocked.describe(),
        "account locked"
    );
    assert_eq!(
        TransactionNotApplied::InsufficientFunds.describe(),
        "insufficient funds"
    );
    assert_eq!(
        TransactionNotApplied::RepeatTransaction(7).describe(),
        "repeat transaction"
    );
    assert_eq!(
        TransactionNotApplied::DisputedTransactionNotFound(7).describe(),
        "disputed transaction not found"
    );
    assert_eq!(
        TransactionNotApplied::InvalidDisputeState("refunded".to_string()).describe(),
        "invalid dispute state: refunded"
    );
    assert_eq!(
        TransactionNotApplied::UnexpectedError("boom".to_string()).describe(),
        "unexpected error: boom"
    );
}
