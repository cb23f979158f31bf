//! Transaction values: the raw tabular row shape and the validated,
//! strongly-typed transaction the engine consumes.

use vstd::prelude::*;

verus! {

use vstd::string::StringExecFns;

/// One flat input row, as read from an external tabular source.
///
/// `amount` is already converted to ten-thousandths of a unit, rounded to
/// four decimal places by the reading layer; it is `None` where the row had
/// no amount column.
#[derive(Debug, PartialEq)]
pub struct TransactionRaw {
    /// Transaction kind, as spelled in the input (`deposit`, `withdrawal`,
    /// `dispute`, `resolve`, `chargeback`).
    pub transaction_type: String,
    /// Client identifier.
    pub client: u16,
    /// Transaction identifier.
    pub tx: u32,
    /// Amount in ten-thousandths of a unit, where the row carries one.
    pub amount: Option<i64>,
}

/// A validated transaction.
#[derive(Debug, PartialEq, Eq, Structural, Clone, Copy)]
pub struct Transaction {
    /// The account this transaction targets.
    pub client_id: u16,
    /// This transaction's own id for deposits and withdrawals; the id of the
    /// referenced deposit for the dispute family.
    pub transaction_id: u32,
    /// Transaction kind and, where relevant, the amount.
    pub info: TransactionInfo,
}

/// Transaction kind and, where relevant, the associated amount in
/// ten-thousandths of a unit.
#[derive(Debug, PartialEq, Eq, Structural, Clone, Copy)]
pub enum TransactionInfo {
    Deposit(i64),
    Withdrawal(i64),
    Dispute,
    Resolve,
    Chargeback,
}

impl TransactionInfo {
    /// Deposits and withdrawals carry a strictly positive amount; the
    /// dispute family carries none.
    pub open spec fn amounts_positive(self) -> bool {
        match self {
            TransactionInfo::Deposit(amount) => amount > 0,
            TransactionInfo::Withdrawal(amount) => amount > 0,
            _ => true,
        }
    }
}

/// What a raw row validates to: `Some` exactly when the kind is known, an
/// amount is present if and only if the kind needs one, and that amount is
/// strictly positive.
pub open spec fn parse_raw(value: TransactionRaw) -> Option<Transaction> {
    let info: Option<TransactionInfo> = if value.transaction_type@ == "deposit"@ {
        match value.amount {
            Some(amount) => if amount > 0 {
                Some(TransactionInfo::Deposit(amount))
            } else {
                None
            },
            None => None,
        }
    } else if value.transaction_type@ == "withdrawal"@ {
        match value.amount {
            Some(amount) => if amount > 0 {
                Some(TransactionInfo::Withdrawal(amount))
            } else {
                None
            },
            None => None,
        }
    } else if value.transaction_type@ == "dispute"@ {
        match value.amount {
            Some(_) => None,
            None => Some(TransactionInfo::Dispute),
        }
    } else if value.transaction_type@ == "resolve"@ {
        match value.amount {
            Some(_) => None,
            None => Some(TransactionInfo::Resolve),
        }
    } else if value.transaction_type@ == "chargeback"@ {
        match value.amount {
            Some(_) => None,
            None => Some(TransactionInfo::Chargeback),
        }
    } else {
        None
    };
    match info {
        Some(info) => Some(
            Transaction { client_id: value.client, transaction_id: value.tx, info },
        ),
        None => None,
    }
}

impl Transaction {
    /// Validates a raw row into a typed transaction.
    ///
    /// Fails, carrying the row's transaction id and a description, exactly
    /// when the row has an unknown kind, is missing a required amount,
    /// carries an amount on a kind that takes none, or carries a
    /// non-positive amount.
    pub fn try_from(value: TransactionRaw) -> (r: Result<Transaction, (u32, String)>)
        ensures
            match r {
                Ok(t) => parse_raw(value) == Some(t),
                Err(e) => parse_raw(value) is None && e.0 == value.tx,
            },
    {
        let kind_deposit = value.transaction_type == String::from_str("deposit");
        let kind_withdrawal = value.transaction_type == String::from_str("withdrawal");
        let kind_dispute = value.transaction_type == String::from_str("dispute");
        let kind_resolve = value.transaction_type == String::from_str("resolve");
        let kind_chargeback = value.transaction_type == String::from_str("chargeback");
        let info: Option<TransactionInfo> = if kind_deposit {
            match value.amount {
                Some(amount) => if amount > 0 {
                    Some(TransactionInfo::Deposit(amount))
                } else {
                    None
                },
                None => None,
            }
        } else if kind_withdrawal {
            match value.amount {
                Some(amount) => if amount > 0 {
                    Some(TransactionInfo::Withdrawal(amount))
                } else {
                    None
                },
                None => None,
            }
        } else if kind_dispute {
            match value.amount {
                Some(_) => None,
                None => Some(TransactionInfo::Dispute),
            }
        } else if kind_resolve {
            match value.amount {
                Some(_) => None,
                None => Some(TransactionInfo::Resolve),
            }
        } else if kind_chargeback {
            match value.amount {
                Some(_) => None,
                None => Some(TransactionInfo::Chargeback),
            }
        } else {
            None
        };
        match info {
            Some(info) => Ok(
                Transaction { client_id: value.client, transaction_id: value.tx, info },
            ),
            None => Err(
                (value.tx, String::from_str("failed to validate raw transaction")),
            ),
        }
    }
}

} // verus!
