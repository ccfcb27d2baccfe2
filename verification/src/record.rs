//! What an escrow stores, what it reports, and how its calls fail.

use crate::identity::Identity;
use crate::state::State;
use vstd::prelude::*;

verus! {

/// Why a call on an escrow failed. A failed call leaves the record as it was.
#[derive(Clone, Copy, Debug, PartialEq, Eq, Structural)]
pub enum EscrowError {
    /// `initialize` on an instance that already holds a record.
    AlreadyInitialized,
    /// A call that needs the record on an instance that holds none.
    NotInitialized,
    /// The host found no authorization proof from the party the call names.
    AuthorizationFailed,
    /// `submit_work_link` by anyone but the stored payee.
    UnauthorizedFreelancer,
    /// `release_funds` by anyone but the stored payer.
    UnauthorizedClient,
    /// `submit_work_link` in a state other than `Pending`.
    InvalidStateTransition,
    /// `release_funds` in a state other than `Submitted`.
    FundsNotReleasable,
    /// A collaborator refused what the call asked of it; the code is the
    /// collaborator's own, handed on unchanged.
    Rejected(u32),
}

impl EscrowError {
    /// The sentence that describes the failure.
    pub open spec fn text(self) -> Seq<char> {
        match self {
            EscrowError::AlreadyInitialized => "Already initialized"@,
            EscrowError::NotInitialized => "Not initialized"@,
            EscrowError::AuthorizationFailed => "Authorization failed"@,
            EscrowError::UnauthorizedFreelancer => "Not the authorized freelancer"@,
            EscrowError::UnauthorizedClient => "Not the authorized client"@,
            EscrowError::InvalidStateTransition => "Invalid state transition"@,
            EscrowError::FundsNotReleasable => "Funds can only be released after work is submitted"@,
            EscrowError::Rejected(_) => "Rejected by a collaborator"@,
        }
    }

    /// The sentence that describes the failure.
    pub fn message(&self) -> (s: &'static str)
        ensures
            s@ == self.text(),
    {
        match self {
            EscrowError::AlreadyInitialized => "Already initialized",
            EscrowError::NotInitialized => "Not initialized",
            EscrowError::AuthorizationFailed => "Authorization failed",
            EscrowError::UnauthorizedFreelancer => "Not the authorized freelancer",
            EscrowError::UnauthorizedClient => "Not the authorized client",
            EscrowError::InvalidStateTransition => "Invalid state transition",
            EscrowError::FundsNotReleasable => "Funds can only be released after work is submitted",
            EscrowError::Rejected(_) => "Rejected by a collaborator",
        }
    }
}

/// The record of one escrow. Everything but `state` is fixed when the escrow
/// is initialized.
#[derive(Debug, PartialEq, Eq)]
pub struct EscrowRecord {
    pub payer: Identity,
    pub payee: Identity,
    pub fee_collector: Identity,
    pub asset_contract: Identity,
    pub amount: i128,
    pub state: State,
}

/// An escrow record as a mathematical value.
pub struct RecordView {
    pub payer: Seq<u8>,
    pub payee: Seq<u8>,
    pub fee_collector: Seq<u8>,
    pub asset_contract: Seq<u8>,
    pub amount: int,
    pub state: State,
}

impl View for EscrowRecord {
    type V = RecordView;

    open spec fn view(&self) -> RecordView {
        RecordView {
            payer: self.payer@,
            payee: self.payee@,
            fee_collector: self.fee_collector@,
            asset_contract: self.asset_contract@,
            amount: self.amount as int,
            state: self.state,
        }
    }
}

impl Clone for EscrowRecord {
    fn clone(&self) -> (c: EscrowRecord)
        ensures
            c@ == self@,
    {
        EscrowRecord {
            payer: self.payer.clone(),
            payee: self.payee.clone(),
            fee_collector: self.fee_collector.clone(),
            asset_contract: self.asset_contract.clone(),
            amount: self.amount,
            state: self.state,
        }
    }
}

/// Published when an escrow is initialized and its funds are in custody.
#[derive(Debug, PartialEq, Eq)]
pub struct FundsLocked {
    pub payer: Identity,
    pub payee: Identity,
    pub amount: i128,
}

/// A `FundsLocked` event as a mathematical value.
pub struct FundsLockedView {
    pub payer: Seq<u8>,
    pub payee: Seq<u8>,
    pub amount: int,
}

impl View for FundsLocked {
    type V = FundsLockedView;

    open spec fn view(&self) -> FundsLockedView {
        FundsLockedView { payer: self.payer@, payee: self.payee@, amount: self.amount as int }
    }
}

/// Published when the payee has handed in the work.
#[derive(Debug, PartialEq, Eq)]
pub struct WorkSubmitted {
    pub payee: Identity,
}

/// A `WorkSubmitted` event as a mathematical value.
pub struct WorkSubmittedView {
    pub payee: Seq<u8>,
}

impl View for WorkSubmitted {
    type V = WorkSubmittedView;

    open spec fn view(&self) -> WorkSubmittedView {
        WorkSubmittedView { payee: self.payee@ }
    }
}

/// Published when the funds have left custody.
#[derive(Debug, PartialEq, Eq)]
pub struct FundsReleased {
    pub payee: Identity,
    pub payee_amount: i128,
    pub fee_amount: i128,
}

/// A `FundsReleased` event as a mathematical value.
pub struct FundsReleasedView {
    pub payee: Seq<u8>,
    pub payee_amount: int,
    pub fee_amount: int,
}

impl View for FundsReleased {
    type V = FundsReleasedView;

    open spec fn view(&self) -> FundsReleasedView {
        FundsReleasedView {
            payee: self.payee@,
            payee_amount: self.payee_amount as int,
            fee_amount: self.fee_amount as int,
        }
    }
}

/// What the host is to carry out for an initialization: move `amount` of
/// the asset from `payer` into the custody of the instance.
#[derive(Debug, PartialEq, Eq)]
pub struct Deposit {
    pub asset_contract: Identity,
    pub payer: Identity,
    pub amount: i128,
}

/// A deposit as a mathematical value.
pub struct DepositView {
    pub asset_contract: Seq<u8>,
    pub payer: Seq<u8>,
    pub amount: int,
}

impl View for Deposit {
    type V = DepositView;

    open spec fn view(&self) -> DepositView {
        DepositView {
            asset_contract: self.asset_contract@,
            payer: self.payer@,
            amount: self.amount as int,
        }
    }
}

/// What the host is to carry out for a release, in this order: move
/// `payee_amount` of the asset from custody to `payee`, move `fee_amount`
/// from custody to `fee_collector`, and report `fee_amount` to the fee
/// accumulator deployed at `fee_collector`.
#[derive(Debug, PartialEq, Eq)]
pub struct Settlement {
    pub asset_contract: Identity,
    pub payee: Identity,
    pub payee_amount: i128,
    pub fee_collector: Identity,
    pub fee_amount: i128,
}

/// A settlement as a mathematical value.
pub struct SettlementView {
    pub asset_contract: Seq<u8>,
    pub payee: Seq<u8>,
    pub payee_amount: int,
    pub fee_collector: Seq<u8>,
    pub fee_amount: int,
}

impl View for Settlement {
    type V = SettlementView;

    open spec fn view(&self) -> SettlementView {
        SettlementView {
            asset_contract: self.asset_contract@,
            payee: self.payee@,
            payee_amount: self.payee_amount as int,
            fee_collector: self.fee_collector@,
            fee_amount: self.fee_amount as int,
        }
    }
}

/// The mathematical value of a call's result: that of what it reports on
/// success, the error itself on failure.
pub open spec fn result_view<T: View>(r: Result<T, EscrowError>) -> Result<T::V, EscrowError> {
    match r {
        Ok(t) => Ok(t@),
        Err(e) => Err(e),
    }
}

/// The mathematical value of what an instance stores.
pub open spec fn store_view(record: Option<EscrowRecord>) -> Option<RecordView> {
    match record {
        Some(r) => Some(r@),
        None => None,
    }
}

} // verus!
