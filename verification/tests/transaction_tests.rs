use payments_engine::transaction::{Transaction, TransactionInfo, TransactionRaw};

// Amounts count ten-thousandths of a unit: 1 unit is 10_000.

fn tx_raw(typ: &str, amount: Option<i64>) -> TransactionRaw {
    TransactionRaw {
        transaction_type: typ.to_string(),
        client: 1,
        tx: 1,
        amount,
    }
}

#[test]
fn parse_transaction_raw_ok_cases() {
    assert_eq!(
        Transaction::try_from(tx_raw("deposit", Some(10_000))).unwrap(),
        Transaction {
            client_id: 1,
            transaction_id: 1,
            info: TransactionInfo::Deposit(10_000),
        }
    );
    assert_eq!(
        Transaction::try_from(tx_raw("withdrawal", Some(10_000))).unwrap(),
        Transaction {
            client_id: 1,
            transaction_id: 1,
            info: TransactionInfo::Withdrawal(10_000),
        }
    );
    assert_eq!(
        Transaction::try_from(tx_raw("dispute", None)).unwrap(),
        Transaction {
            client_id: 1,
            transaction_id: 1,
            info: TransactionInfo::Dispute,
        }
    );
    assert_eq!(
        Transaction::try_from(tx_raw("resolve", None)).unwrap(),
        Transaction {
            client_id: 1,
            transaction_id: 1,
            info: TransactionInfo::Resolve,
        }
    );
    assert_eq!(
        Transaction::try_from(tx_raw("chargeback", None)).unwrap(),
        Transaction {
            client_id: 1,
            transaction_id: 1,
            info: TransactionInfo::Chargeback,
        }
    );
}

#[test]
fn parse_transaction_raw_error_cases() {
    // Transactions missing amounts
    assert!(Transaction::try_from(tx_raw("deposit", None)).is_err());
    assert!(Transaction::try_from(tx_raw("withdrawal", None)).is_err());
    // Transactions that shouldn't have amounts
    assert!(Transaction::try_from(tx_raw("dispute", Some(10_000))).is_err());
    assert!(Transaction::try_from(tx_raw("resolve", Some(10_000))).is_err());
    assert!(Transaction::try_from(tx_raw("chargeback", Some(10_000))).is_err());
    // Unrecognized transaction type
    assert!(Transaction::try_from(tx_raw("not a real type", None)).is_err());
    assert!(Transaction::try_from(tx_raw("not a real type", Some(10_000))).is_err());

    // Invalid transaction amount
    assert!(Transaction::try_from(tx_raw("deposit", Some(0))).is_err());
    assert!(Transaction::try_from(tx_raw("deposit", Some(-10_000))).is_err());
}

#[test]
fn parse_error_carries_transaction_id() {
    let raw = TransactionRaw {
        transaction_type: "deposit".to_string(),
        client: 7,
        tx: 42,
        amount: None,
    };
    let err = Transaction::try_from(raw).unwrap_err();
    assert_eq!(err.0, 42);
}
