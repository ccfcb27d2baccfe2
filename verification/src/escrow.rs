//! The escrow instance and its entry points.
//!
//! An entry point neither authenticates its caller nor moves the asset: the
//! host does both and hands in what it observed. Around a call the host
//! proceeds in this order. It runs the `check_` function of the entry point
//! and stops on an error. It verifies the authorization proof of the party
//! that the call names. It carries out the asset movements of the call: for
//! `initialize` what `deposit` returns, for `release_funds` what `settlement`
//! returns. Then it calls the entry point with how that went, stores the
//! record on `Ok`, and discards every effect of the call on `Err`.

use crate::identity::Identity;
use crate::record::{
    result_view, store_view, Deposit, EscrowError, EscrowRecord, FundsLocked, FundsReleased,
    RecordView, Settlement, WorkSubmitted,
};
use crate::rules::{
    after_initialize, after_release, after_submit, custody, deposit_due, fresh_record,
    initialize_admitted, initialize_outcome, release_admitted, release_outcome, settlement_due,
    state_of, submit_admitted, submit_outcome,
};
use crate::split::split;
use crate::state::State;
use vstd::prelude::*;

verus! {

/// One deployed escrow: the record it stores, or none before `initialize`.
#[derive(Debug, PartialEq, Eq)]
pub struct MicroEscrow {
    record: Option<EscrowRecord>,
}

impl View for MicroEscrow {
    type V = Option<RecordView>;

    closed spec fn view(&self) -> Option<RecordView> {
        store_view(self.record)
    }
}

impl Clone for MicroEscrow {
    fn clone(&self) -> (c: MicroEscrow)
        ensures
            c@ == self@,
    {
        match &self.record {
            None => MicroEscrow { record: None },
            Some(record) => MicroEscrow { record: Some(record.clone()) },
        }
    }
}

impl MicroEscrow {
    /// A freshly deployed instance, which stores nothing.
    pub fn new() -> (escrow: MicroEscrow)
        ensures
            escrow@ is None,
    {
        MicroEscrow { record: None }
    }

    /// The instance that stores `record`.
    pub fn from_record(record: Option<EscrowRecord>) -> (escrow: MicroEscrow)
        ensures
            escrow@ == store_view(record),
    {
        MicroEscrow { record }
    }

    /// What the instance stores.
    pub fn into_record(self) -> (record: Option<EscrowRecord>)
        ensures
            store_view(record) == self@,
    {
        self.record
    }

    /// The state of the escrow; `NotInitialized` where there is no record.
    pub fn get_state(&self) -> (r: Result<State, EscrowError>)
        ensures
            r == state_of(self@),
    {
        match &self.record {
            None => Err(EscrowError::NotInitialized),
            Some(record) => Ok(record.state),
        }
    }

    /// How much of the asset the instance holds for its escrow.
    pub fn held(&self) -> (amount: i128)
        ensures
            amount == custody(self@),
    {
        match &self.record {
            None => 0,
            Some(record) => match record.state {
                State::Released => 0,
                _ => record.amount,
            },
        }
    }

    /// What `initialize` checks before any proof is asked for.
    pub fn check_initialize(&self) -> (r: Result<(), EscrowError>)
        ensures
            r == initialize_admitted(self@),
    {
        if self.record.is_some() {
            Err(EscrowError::AlreadyInitialized)
        } else {
            Ok(())
        }
    }

    /// What an initialization by `payer` would move into custody, or why it
    /// cannot go ahead. The instance is left as it is.
    pub fn deposit(
        &self,
        payer: &Identity,
        asset_contract: &Identity,
        amount: i128,
        authorized: bool,
    ) -> (r: Result<Deposit, EscrowError>)
        ensures
            result_view(r) == deposit_due(
                self@,
                payer@,
                asset_contract@,
                amount as int,
                authorized,
            ),
    {
        if let Err(e) = self.check_initialize() {
            return Err(e);
        }
        if !authorized {
            return Err(EscrowError::AuthorizationFailed);
        }
        Ok(Deposit { asset_contract: asset_contract.clone(), payer: payer.clone(), amount })
    }

    /// Sets the escrow up: stores the terms with state `Pending` and reports
    /// the funds as locked. It fails, and stores nothing, on an instance that
    /// has a record, without the payer's proof, and where the host could not
    /// carry the deposit out.
    pub fn initialize(
        &mut self,
        payer: Identity,
        payee: Identity,
        fee_collector: Identity,
        asset_contract: Identity,
        amount: i128,
        authorized: bool,
        deposit: Result<(), u32>,
    ) -> (r: Result<FundsLocked, EscrowError>)
        ensures
            result_view(r) == initialize_outcome(
                old(self)@,
                fresh_record(payer@, payee@, fee_collector@, asset_contract@, amount as int),
                authorized,
                deposit,
            ),
            final(self)@ == after_initialize(
                old(self)@,
                fresh_record(payer@, payee@, fee_collector@, asset_contract@, amount as int),
                authorized,
                deposit,
            ),
    {
        if self.record.is_some() {
            return Err(EscrowError::AlreadyInitialized);
        }
        if !authorized {
            return Err(EscrowError::AuthorizationFailed);
        }
        if let Err(code) = deposit {
            return Err(EscrowError::Rejected(code));
        }
        let event = FundsLocked { payer: payer.clone(), payee: payee.clone(), amount };
        self.record = Some(
            EscrowRecord { payer, payee, fee_collector, asset_contract, amount, state: State::Pending },
        );
        Ok(event)
    }

    /// What `submit_work_link` checks before any proof is asked for.
    pub fn check_submit_work_link(&self, payee: &Identity) -> (r: Result<(), EscrowError>)
        ensures
            r == submit_admitted(self@, payee@),
    {
        match &self.record {
            None => Err(EscrowError::NotInitialized),
            Some(record) => if record.payee.same(payee) {
                Ok(())
            } else {
                Err(EscrowError::UnauthorizedFreelancer)
            },
        }
    }

    /// Marks the work as handed in: `Pending` becomes `Submitted`. Only the
    /// stored payee can do so, with proof, and only once. No funds move.
    pub fn submit_work_link(&mut self, payee: Identity, authorized: bool) -> (r: Result<
        WorkSubmitted,
        EscrowError,
    >)
        ensures
            result_view(r) == submit_outcome(old(self)@, payee@, authorized),
            final(self)@ == after_submit(old(self)@, payee@, authorized),
    {
        if let Err(e) = self.check_submit_work_link(&payee) {
            return Err(e);
        }
        if !authorized {
            return Err(EscrowError::AuthorizationFailed);
        }
        match &mut self.record {
            None => Err(EscrowError::NotInitialized),
            Some(record) => match record.state {
                State::Pending => {
                    record.state = State::Submitted;
                    Ok(WorkSubmitted { payee })
                },
                _ => Err(EscrowError::InvalidStateTransition),
            },
        }
    }

    /// What `release_funds` checks before any proof is asked for.
    pub fn check_release_funds(&self, payer: &Identity) -> (r: Result<(), EscrowError>)
        ensures
            r == release_admitted(self@, payer@),
    {
        match &self.record {
            None => Err(EscrowError::NotInitialized),
            Some(record) => if record.payer.same(payer) {
                Ok(())
            } else {
                Err(EscrowError::UnauthorizedClient)
            },
        }
    }

    /// What a release by `payer` would pay out, or why it cannot go ahead.
    /// The record is left as it is.
    pub fn settlement(&self, payer: &Identity, authorized: bool) -> (r: Result<
        Settlement,
        EscrowError,
    >)
        ensures
            result_view(r) == settlement_due(self@, payer@, authorized),
    {
        if let Err(e) = self.check_release_funds(payer) {
            return Err(e);
        }
        if !authorized {
            return Err(EscrowError::AuthorizationFailed);
        }
        match &self.record {
            None => Err(EscrowError::NotInitialized),
            Some(record) => match record.state {
                State::Submitted => {
                    let parts = split(record.amount);
                    Ok(
                        Settlement {
                            asset_contract: record.asset_contract.clone(),
                            payee: record.payee.clone(),
                            payee_amount: parts.payee_amount,
                            fee_collector: record.fee_collector.clone(),
                            fee_amount: parts.fee_amount,
                        },
                    )
                },
                _ => Err(EscrowError::FundsNotReleasable),
            },
        }
    }

    /// Releases the funds: `Submitted` becomes `Released`, and the amount
    /// leaves custody as the payee's part and the fee. Only the stored payer
    /// can do so, with proof. Where the host could not carry the settlement
    /// out, the call fails with the collaborator's code and the escrow stays
    /// `Submitted`.
    pub fn release_funds(&mut self, payer: Identity, authorized: bool, settled: Result<(), u32>) -> (r:
        Result<FundsReleased, EscrowError>)
        ensures
            result_view(r) == release_outcome(old(self)@, payer@, authorized, settled),
            final(self)@ == after_release(old(self)@, payer@, authorized, settled),
    {
        let due = match self.settlement(&payer, authorized) {
            Err(e) => {
                return Err(e);
            },
            Ok(due) => due,
        };
        if let Err(code) = settled {
            return Err(EscrowError::Rejected(code));
        }
        match &mut self.record {
            None => Err(EscrowError::NotInitialized),
            Some(record) => {
                record.state = State::Released;
                Ok(
                    FundsReleased {
                        payee: due.payee,
                        payee_amount: due.payee_amount,
                        fee_amount: due.fee_amount,
                    },
                )
            },
        }
    }
}

} // verus!
