//! The escrow's rules: for each entry point, its result and the record it
//! leaves, as functions of the record it finds and of what the host observed.
//!
//! The host observes two things on the escrow's behalf. `authorized` says
//! whether it verified an authorization proof from the party that the call
//! names. A `Result<(), u32>` says how the asset movements of the call went:
//! `Ok` when every one was carried out, `Err` with the collaborator's code
//! when one was refused.

use crate::record::{
    DepositView, EscrowError, FundsLockedView, FundsReleasedView, RecordView, SettlementView,
    WorkSubmittedView,
};
use crate::split::{fee_share, payee_share};
use crate::state::State;
use vstd::prelude::*;

verus! {

/// The record that `initialize` stores for the given terms.
pub open spec fn fresh_record(
    payer: Seq<u8>,
    payee: Seq<u8>,
    fee_collector: Seq<u8>,
    asset_contract: Seq<u8>,
    amount: int,
) -> RecordView {
    RecordView { payer, payee, fee_collector, asset_contract, amount, state: State::Pending }
}

/// What `initialize` checks before the host is asked for a proof: the
/// instance must hold no record yet.
pub open spec fn initialize_admitted(pre: Option<RecordView>) -> Result<(), EscrowError> {
    if pre is Some {
        Err(EscrowError::AlreadyInitialized)
    } else {
        Ok(())
    }
}

/// The deposit that an initialization by `payer` is due, or why none is.
pub open spec fn deposit_due(
    pre: Option<RecordView>,
    payer: Seq<u8>,
    asset_contract: Seq<u8>,
    amount: int,
    authorized: bool,
) -> Result<DepositView, EscrowError> {
    match initialize_admitted(pre) {
        Err(e) => Err(e),
        Ok(_) => if !authorized {
            Err(EscrowError::AuthorizationFailed)
        } else {
            Ok(DepositView { asset_contract, payer, amount })
        },
    }
}

/// The result of `initialize`. `deposit` is how carrying out the deposit
/// went.
pub open spec fn initialize_outcome(
    pre: Option<RecordView>,
    terms: RecordView,
    authorized: bool,
    deposit: Result<(), u32>,
) -> Result<FundsLockedView, EscrowError> {
    match deposit_due(pre, terms.payer, terms.asset_contract, terms.amount, authorized) {
        Err(e) => Err(e),
        Ok(_) => match deposit {
            Err(code) => Err(EscrowError::Rejected(code)),
            Ok(_) => Ok(
                FundsLockedView { payer: terms.payer, payee: terms.payee, amount: terms.amount },
            ),
        },
    }
}

/// The record that `initialize` leaves.
pub open spec fn after_initialize(
    pre: Option<RecordView>,
    terms: RecordView,
    authorized: bool,
    deposit: Result<(), u32>,
) -> Option<RecordView> {
    if initialize_outcome(pre, terms, authorized, deposit) is Ok {
        Some(RecordView { state: State::Pending, ..terms })
    } else {
        pre
    }
}

/// What `submit_work_link` checks before the host is asked for a proof: there
/// is a record, and the caller is its payee.
pub open spec fn submit_admitted(pre: Option<RecordView>, payee: Seq<u8>) -> Result<
    (),
    EscrowError,
> {
    match pre {
        None => Err(EscrowError::NotInitialized),
        Some(record) => if record.payee != payee {
            Err(EscrowError::UnauthorizedFreelancer)
        } else {
            Ok(())
        },
    }
}

/// The result of `submit_work_link`.
pub open spec fn submit_outcome(pre: Option<RecordView>, payee: Seq<u8>, authorized: bool) -> Result<
    WorkSubmittedView,
    EscrowError,
> {
    match submit_admitted(pre, payee) {
        Err(e) => Err(e),
        Ok(_) => if !authorized {
            Err(EscrowError::AuthorizationFailed)
        } else if pre->Some_0.state != State::Pending {
            Err(EscrowError::InvalidStateTransition)
        } else {
            Ok(WorkSubmittedView { payee })
        },
    }
}

/// The record that `submit_work_link` leaves.
pub open spec fn after_submit(pre: Option<RecordView>, payee: Seq<u8>, authorized: bool) -> Option<
    RecordView,
> {
    if submit_outcome(pre, payee, authorized) is Ok {
        Some(RecordView { state: State::Submitted, ..pre->Some_0 })
    } else {
        pre
    }
}

/// What `release_funds` checks before the host is asked for a proof: there is
/// a record, and the caller is its payer.
pub open spec fn release_admitted(pre: Option<RecordView>, payer: Seq<u8>) -> Result<
    (),
    EscrowError,
> {
    match pre {
        None => Err(EscrowError::NotInitialized),
        Some(record) => if record.payer != payer {
            Err(EscrowError::UnauthorizedClient)
        } else {
            Ok(())
        },
    }
}

/// What a release of `record` pays, and to whom.
pub open spec fn settlement_of(record: RecordView) -> SettlementView {
    SettlementView {
        asset_contract: record.asset_contract,
        payee: record.payee,
        payee_amount: payee_share(record.amount),
        fee_collector: record.fee_collector,
        fee_amount: fee_share(record.amount),
    }
}

/// The settlement that a release by `payer` is due, or why none is.
pub open spec fn settlement_due(pre: Option<RecordView>, payer: Seq<u8>, authorized: bool) -> Result<
    SettlementView,
    EscrowError,
> {
    match release_admitted(pre, payer) {
        Err(e) => Err(e),
        Ok(_) => if !authorized {
            Err(EscrowError::AuthorizationFailed)
        } else if pre->Some_0.state != State::Submitted {
            Err(EscrowError::FundsNotReleasable)
        } else {
            Ok(settlement_of(pre->Some_0))
        },
    }
}

/// The result of `release_funds`. `settled` is how carrying out the
/// settlement went.
pub open spec fn release_outcome(
    pre: Option<RecordView>,
    payer: Seq<u8>,
    authorized: bool,
    settled: Result<(), u32>,
) -> Result<FundsReleasedView, EscrowError> {
    match settlement_due(pre, payer, authorized) {
        Err(e) => Err(e),
        Ok(due) => match settled {
            Err(code) => Err(EscrowError::Rejected(code)),
            Ok(_) => Ok(
                FundsReleasedView {
                    payee: due.payee,
                    payee_amount: due.payee_amount,
                    fee_amount: due.fee_amount,
                },
            ),
        },
    }
}

/// The record that `release_funds` leaves.
pub open spec fn after_release(
    pre: Option<RecordView>,
    payer: Seq<u8>,
    authorized: bool,
    settled: Result<(), u32>,
) -> Option<RecordView> {
    if release_outcome(pre, payer, authorized, settled) is Ok {
        Some(RecordView { state: State::Released, ..pre->Some_0 })
    } else {
        pre
    }
}

/// The result of `get_state`.
pub open spec fn state_of(pre: Option<RecordView>) -> Result<State, EscrowError> {
    match pre {
        None => Err(EscrowError::NotInitialized),
        Some(record) => Ok(record.state),
    }
}

/// How much of the asset the instance holds for its escrow: the amount from
/// initialization until release, nothing before and nothing after.
pub open spec fn custody(pre: Option<RecordView>) -> int {
    match pre {
        None => 0,
        Some(record) => if record.state == State::Released {
            0
        } else {
            record.amount
        },
    }
}

} // verus!
