//! Accounts, deposit records, and the dispute-status state machine.
//!
//! All monetary fields count ten-thousandths of a unit in an `i64`, so every
//! value is exact at four decimal places.

use vstd::prelude::*;

use std::collections::HashMap;

verus! {

use vstd::string::StringExecFns;

broadcast use vstd::std_specs::hash::group_hash_axioms;

/// A deposit's position in the dispute process.
///
/// Valid transitions are:
/// `NotDisputed -> Disputed`,
/// `Disputed -> Resolved`,
/// `Disputed -> Refunded`,
/// `Resolved -> Disputed`.
/// `Refunded` is terminal.
#[derive(Debug, PartialEq, Eq, Structural, Clone, Copy)]
pub enum DisputeStatus {
    NotDisputed,
    Disputed,
    Resolved,
    Refunded,
}

impl DisputeStatus {
    /// A short human-readable label, used in diagnostic messages.
    pub fn label(&self) -> (r: String)
        ensures
            r@ == self.spec_label(),
    {
        match self {
            DisputeStatus::NotDisputed => String::from_str("not disputed"),
            DisputeStatus::Disputed => String::from_str("disputed"),
            DisputeStatus::Resolved => String::from_str("resolved"),
            DisputeStatus::Refunded => String::from_str("refunded"),
        }
    }

    /// The characters of `label`.
    pub open spec fn spec_label(self) -> Seq<char> {
        match self {
            DisputeStatus::NotDisputed => "not disputed"@,
            DisputeStatus::Disputed => "disputed"@,
            DisputeStatus::Resolved => "resolved"@,
            DisputeStatus::Refunded => "refunded"@,
        }
    }
}

/// Mathematical model of a [`DepositRecord`].
pub ghost struct RecordV {
    /// Deposited amount, in ten-thousandths of a unit.
    pub amount: i64,
    /// Position in the dispute process.
    pub status: DisputeStatus,
}

impl RecordV {
    /// A dispute may open from `NotDisputed` or re-open from `Resolved`.
    pub open spec fn can_dispute(self) -> bool {
        self.status == DisputeStatus::NotDisputed || self.status == DisputeStatus::Resolved
    }

    /// Only an open dispute can be resolved.
    pub open spec fn can_resolve(self) -> bool {
        self.status == DisputeStatus::Disputed
    }

    /// Only an open dispute can be charged back.
    pub open spec fn can_chargeback(self) -> bool {
        self.status == DisputeStatus::Disputed
    }

    /// The same record with a new dispute status.
    pub open spec fn with_status(self, status: DisputeStatus) -> RecordV {
        RecordV { amount: self.amount, status }
    }
}

/// A deposit that was successfully applied to an account.
///
/// The dispute status is private so that it can only move along the valid
/// transitions, through the three guarded operations below.
#[derive(Debug)]
pub struct DepositRecord {
    /// Deposited amount, in ten-thousandths of a unit.
    pub amount: i64,
    dispute_status: DisputeStatus,
}

impl View for DepositRecord {
    type V = RecordV;

    closed spec fn view(&self) -> RecordV {
        RecordV { amount: self.amount, status: self.dispute_status }
    }
}

impl DepositRecord {
    /// The deposited amount, in ten-thousandths of a unit.
    pub fn amount(&self) -> (r: i64)
        ensures
            r == self@.amount,
    {
        self.amount
    }

    /// A fresh record for a just-applied deposit, not yet disputed.
    pub fn new(amount: i64) -> (r: Self)
        ensures
            r@ == (RecordV { amount, status: DisputeStatus::NotDisputed }),
    {
        Self { dispute_status: DisputeStatus::NotDisputed, amount }
    }

    /// The record's current dispute status.
    pub fn dispute_status(&self) -> (r: DisputeStatus)
        ensures
            r == self@.status,
    {
        self.dispute_status
    }

    /// Opens (or re-opens) a dispute on this deposit.
    ///
    /// Rejected, leaving the record unchanged, unless the current status
    /// allows the transition.
    pub fn disputed(&mut self) -> (r: Result<(), String>)
        ensures
            old(self)@.can_dispute() ==> r is Ok && final(self)@ == old(self)@.with_status(
                DisputeStatus::Disputed,
            ),
            !old(self)@.can_dispute() ==> r is Err && final(self)@ == old(self)@,
            r matches Err(detail) ==> detail@ == "cannot begin dispute from record status "@
                + old(self)@.status.spec_label(),
    {
        if matches!(self.dispute_status, DisputeStatus::Disputed | DisputeStatus::Refunded) {
            let mut detail = String::from_str("cannot begin dispute from record status ");
            detail.append(self.dispute_status.label().as_str());
            return Err(detail);
        }
        self.dispute_status = DisputeStatus::Disputed;
        Ok(())
    }

    /// Resolves an open dispute, releasing the deposit back to the account.
    ///
    /// Rejected, leaving the record unchanged, unless the record is currently
    /// disputed.
    pub fn resolved(&mut self) -> (r: Result<(), String>)
        ensures
            old(self)@.can_resolve() ==> r is Ok && final(self)@ == old(self)@.with_status(
                DisputeStatus::Resolved,
            ),
            !old(self)@.can_resolve() ==> r is Err && final(self)@ == old(self)@,
            r matches Err(detail) ==> detail@ == "cannot resolve dispute from record status "@
                + old(self)@.status.spec_label(),
    {
        if !matches!(self.dispute_status, DisputeStatus::Disputed) {
            let mut detail = String::from_str("cannot resolve dispute from record status ");
            detail.append(self.dispute_status.label().as_str());
            return Err(detail);
        }
        self.dispute_status = DisputeStatus::Resolved;
        Ok(())
    }

    /// Charges back an open dispute; the record's terminal state.
    ///
    /// Rejected, leaving the record unchanged, unless the record is currently
    /// disputed.
    pub fn refunded(&mut self) -> (r: Result<(), String>)
        ensures
            old(self)@.can_chargeback() ==> r is Ok && final(self)@ == old(self)@.with_status(
                DisputeStatus::Refunded,
            ),
            !old(self)@.can_chargeback() ==> r is Err && final(self)@ == old(self)@,
            r matches Err(detail) ==> detail@ == "cannot chargeback from record status "@
                + old(self)@.status.spec_label(),
    {
        if !matches!(self.dispute_status, DisputeStatus::Disputed) {
            let mut detail = String::from_str("cannot chargeback from record status ");
            detail.append(self.dispute_status.label().as_str());
            return Err(detail);
        }
        self.dispute_status = DisputeStatus::Refunded;
        Ok(())
    }
}

/// Mathematical model of an [`Account`].
#[verifier::ext_equal]
pub ghost struct AccountV {
    /// Client identifier.
    pub client: u16,
    /// Raw balance in ten-thousandths of a unit; negative when overdrawn.
    pub total_funds: i64,
    /// Sum of all currently disputed amounts, in ten-thousandths of a unit.
    pub active_dispute_total: i64,
    /// Whether the account is permanently frozen.
    pub locked: bool,
    /// Every deposit ever applied, keyed by transaction id.
    pub transactions: Map<u32, RecordV>,
}

impl AccountV {
    /// The model of a just-created, zero-balance account.
    pub open spec fn initial(client: u16) -> AccountV {
        AccountV {
            client,
            total_funds: 0,
            active_dispute_total: 0,
            locked: false,
            transactions: Map::empty(),
        }
    }

    /// Well-formedness: the disputed total is never negative, and every
    /// recorded deposit has a strictly positive amount.
    pub open spec fn wf(self) -> bool {
        &&& self.active_dispute_total >= 0
        &&& forall|id: u32|
            #[trigger] self.transactions.contains_key(id) ==> self.transactions[id].amount > 0
    }

    /// Funds available for withdrawal: the balance minus the disputed total,
    /// clamped at zero.
    pub open spec fn available(self) -> int {
        if self.total_funds - self.active_dispute_total >= 0 {
            self.total_funds - self.active_dispute_total
        } else {
            0
        }
    }

    /// Funds held against active disputes: the disputed total, capped by the
    /// non-negative part of the balance.
    pub open spec fn held(self) -> int {
        let cap: int = if self.total_funds >= 0 {
            self.total_funds as int
        } else {
            0
        };
        if self.active_dispute_total <= cap {
            self.active_dispute_total as int
        } else {
            cap
        }
    }

    /// The account after freeing `amount` from the disputed total, clamped
    /// at zero.
    pub open spec fn free_disputed(self, amount: i64) -> AccountV {
        AccountV {
            active_dispute_total: if self.active_dispute_total - amount >= 0 {
                (self.active_dispute_total - amount) as i64
            } else {
                0
            },
            ..self
        }
    }
}

/// Summary of an account's state, intended for reporting.
///
/// Monetary fields count ten-thousandths of a unit, so every value is
/// already exact at four decimal places.
#[derive(Debug, PartialEq, Eq, Structural, Clone, Copy)]
pub struct AccountStatement {
    /// Client identifier.
    pub client: u16,
    /// Funds available for withdrawal.
    pub available: i64,
    /// Funds held against active disputes.
    pub held: i64,
    /// Raw balance; negative when overdrawn.
    pub total: i64,
    /// Whether the account is permanently frozen.
    pub locked: bool,
}

/// The statement that summarises a given account state.
pub open spec fn statement_of(a: AccountV) -> AccountStatement {
    AccountStatement {
        client: a.client,
        available: a.available() as i64,
        held: a.held() as i64,
        total: a.total_funds,
        locked: a.locked,
    }
}

impl AccountStatement {
    /// Summarises the current state of an account.
    pub fn from_account(src: &Account) -> (r: Self)
        requires
            src@.wf(),
        ensures
            r == statement_of(src@),
    {
        AccountStatement {
            client: src.client,
            available: src.available_funds(),
            held: src.held_funds(),
            total: src.total_funds,
            locked: src.locked,
        }
    }
}

/// A per-client account: balance, disputed total, lock flag, and every
/// deposit ever applied to it.
pub struct Account {
    /// Client identifier; immutable after creation.
    pub client: u16,
    /// Raw balance in ten-thousandths of a unit; negative when overdrawn.
    pub total_funds: i64,
    /// Sum of all currently disputed amounts, in ten-thousandths of a unit.
    pub active_dispute_total: i64,
    /// Whether the account is permanently frozen.
    pub locked: bool,
    /// Every deposit ever applied, keyed by transaction id.
    pub transactions: HashMap<u32, DepositRecord>,
}

impl View for Account {
    type V = AccountV;

    open spec fn view(&self) -> AccountV {
        AccountV {
            client: self.client,
            total_funds: self.total_funds,
            active_dispute_total: self.active_dispute_total,
            locked: self.locked,
            transactions: self.transactions@.map_values(|r: DepositRecord| r@),
        }
    }
}

impl Account {
    /// A new account with zero funds and no history.
    pub fn new(client: u16) -> (r: Self)
        ensures
            r@ == AccountV::initial(client),
            r@.wf(),
    {
        let a = Account {
            client,
            total_funds: 0,
            active_dispute_total: 0,
            locked: false,
            transactions: HashMap::new(),
        };
        proof {
            assert(a@.transactions =~= Map::<u32, RecordV>::empty());
        }
        a
    }

    /// The funds available for withdrawal; never negative.
    pub fn available_funds(&self) -> (r: i64)
        requires
            self@.wf(),
        ensures
            r == self@.available(),
            r >= 0,
    {
        if self.active_dispute_total >= self.total_funds {
            0
        } else {
            self.total_funds - self.active_dispute_total
        }
    }

    /// The funds held back to cover active disputes; never more than the
    /// non-negative part of the balance.
    pub fn held_funds(&self) -> (r: i64)
        ensures
            r == self@.held(),
    {
        let cap = if self.total_funds >= 0 {
            self.total_funds
        } else {
            0
        };
        if self.active_dispute_total <= cap {
            self.active_dispute_total
        } else {
            cap
        }
    }

    /// Frees `amount` from the disputed total, clamping at zero.
    ///
    /// Returns `true` when the requested amount exceeded the recorded
    /// disputed total. That is a recoverable bookkeeping anomaly for the
    /// caller to note, not a failure: the disputed total is clamped to zero
    /// and processing continues.
    pub fn free_disputed_amount(&mut self, amount: i64) -> (clamped: bool)
        requires
            old(self)@.active_dispute_total >= 0,
            amount >= 0,
        ensures
            final(self)@ == old(self)@.free_disputed(amount),
            clamped == (old(self)@.active_dispute_total < amount),
    {
        if self.active_dispute_total < amount {
            self.active_dispute_total = 0;
            true
        } else {
            self.active_dispute_total = self.active_dispute_total - amount;
            false
        }
    }
}

} // verus!
