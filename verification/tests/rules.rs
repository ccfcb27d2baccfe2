//! The entry points called directly, with the host's observations given.

use micro_escrow::escrow::MicroEscrow;
use micro_escrow::record::{
    Deposit, EscrowError, EscrowRecord, FundsLocked, FundsReleased, Settlement, WorkSubmitted,
};
use micro_escrow::{Identity, State};

fn party(name: &str) -> Identity {
    Identity::new(name.as_bytes().to_vec())
}

fn escrow_in(state: State, amount: i128) -> MicroEscrow {
    MicroEscrow::from_record(Some(EscrowRecord {
        payer: party("client"),
        payee: party("freelancer"),
        fee_collector: party("fee-collector"),
        asset_contract: party("token"),
        amount,
        state,
    }))
}

#[test]
fn new_instance_stores_nothing() {
    let escrow = MicroEscrow::new();
    assert_eq!(escrow.get_state(), Err(EscrowError::NotInitialized));
    assert_eq!(escrow.check_initialize(), Ok(()));
    assert_eq!(escrow.clone().into_record(), None);
    assert_eq!(escrow, MicroEscrow::from_record(None));
}

#[test]
fn initialize_stores_the_terms_as_pending() {
    let mut escrow = MicroEscrow::new();
    let locked = escrow.initialize(
        party("client"),
        party("freelancer"),
        party("fee-collector"),
        party("token"),
        500,
        true,
        Ok(()),
    );
    assert_eq!(
        locked,
        Ok(FundsLocked { payer: party("client"), payee: party("freelancer"), amount: 500 })
    );
    assert_eq!(escrow, escrow_in(State::Pending, 500));
    assert_eq!(
        escrow.into_record(),
        Some(EscrowRecord {
            payer: party("client"),
            payee: party("freelancer"),
            fee_collector: party("fee-collector"),
            asset_contract: party("token"),
            amount: 500,
            state: State::Pending,
        })
    );
}

#[test]
fn deposit_names_the_transfer_into_custody() {
    let fresh = MicroEscrow::new();
    assert_eq!(
        fresh.deposit(&party("client"), &party("token"), 500, true),
        Ok(Deposit { asset_contract: party("token"), payer: party("client"), amount: 500 })
    );
    assert_eq!(
        fresh.deposit(&party("client"), &party("token"), 500, false),
        Err(EscrowError::AuthorizationFailed)
    );
    assert_eq!(fresh, MicroEscrow::new());

    let taken = escrow_in(State::Released, 500);
    for authorized in [true, false] {
        assert_eq!(
            taken.deposit(&party("client"), &party("token"), 500, authorized),
            Err(EscrowError::AlreadyInitialized)
        );
    }
}

#[test]
fn initialize_checks_in_order() {
    let mut escrow = escrow_in(State::Pending, 500);
    let before = escrow.clone();
    // An existing record outweighs a missing proof and a refused deposit.
    let r = escrow.initialize(party("a"), party("b"), party("c"), party("d"), 1, false, Err(7));
    assert_eq!(r, Err(EscrowError::AlreadyInitialized));
    assert_eq!(escrow.check_initialize(), Err(EscrowError::AlreadyInitialized));
    assert_eq!(escrow, before);

    let mut fresh = MicroEscrow::new();
    let r = fresh.initialize(party("a"), party("b"), party("c"), party("d"), 1, false, Err(7));
    assert_eq!(r, Err(EscrowError::AuthorizationFailed));
    assert_eq!(fresh, MicroEscrow::new());
    let r = fresh.initialize(party("a"), party("b"), party("c"), party("d"), 1, true, Err(7));
    assert_eq!(r, Err(EscrowError::Rejected(7)));
    assert_eq!(fresh, MicroEscrow::new());
}

#[test]
fn submit_succeeds_from_pending_only() {
    let mut pending = escrow_in(State::Pending, 500);
    assert_eq!(
        pending.submit_work_link(party("freelancer"), true),
        Ok(WorkSubmitted { payee: party("freelancer") })
    );
    assert_eq!(pending, escrow_in(State::Submitted, 500));

    for state in [State::Submitted, State::Released] {
        let mut escrow = escrow_in(state, 500);
        assert_eq!(
            escrow.submit_work_link(party("freelancer"), true),
            Err(EscrowError::InvalidStateTransition)
        );
        assert_eq!(escrow, escrow_in(state, 500));
    }
}

#[test]
fn release_succeeds_from_submitted_only() {
    let mut submitted = escrow_in(State::Submitted, 500);
    assert_eq!(
        submitted.release_funds(party("client"), true, Ok(())),
        Ok(FundsReleased { payee: party("freelancer"), payee_amount: 490, fee_amount: 10 })
    );
    assert_eq!(submitted, escrow_in(State::Released, 500));

    for state in [State::Pending, State::Released] {
        let mut escrow = escrow_in(state, 500);
        assert_eq!(
            escrow.release_funds(party("client"), true, Ok(())),
            Err(EscrowError::FundsNotReleasable)
        );
        assert_eq!(escrow.settlement(&party("client"), true), Err(EscrowError::FundsNotReleasable));
        assert_eq!(escrow, escrow_in(state, 500));
    }
}

#[test]
fn submit_is_for_the_stored_payee() {
    let mut escrow = escrow_in(State::Pending, 500);
    for stranger in [party("client"), party("freelance"), party("freelancer "), party("")] {
        assert_eq!(
            escrow.check_submit_work_link(&stranger),
            Err(EscrowError::UnauthorizedFreelancer)
        );
        for authorized in [true, false] {
            assert_eq!(
                escrow.submit_work_link(stranger.clone(), authorized),
                Err(EscrowError::UnauthorizedFreelancer)
            );
        }
    }
    assert_eq!(escrow, escrow_in(State::Pending, 500));
    assert_eq!(escrow.check_submit_work_link(&party("freelancer")), Ok(()));
    assert_eq!(
        escrow.submit_work_link(party("freelancer"), false),
        Err(EscrowError::AuthorizationFailed)
    );
    assert_eq!(escrow, escrow_in(State::Pending, 500));
}

#[test]
fn release_is_for_the_stored_payer() {
    let mut escrow = escrow_in(State::Submitted, 500);
    for stranger in [party("freelancer"), party("clien"), party("client!"), party("")] {
        assert_eq!(escrow.check_release_funds(&stranger), Err(EscrowError::UnauthorizedClient));
        for authorized in [true, false] {
            assert_eq!(
                escrow.settlement(&stranger, authorized),
                Err(EscrowError::UnauthorizedClient)
            );
            assert_eq!(
                escrow.release_funds(stranger.clone(), authorized, Ok(())),
                Err(EscrowError::UnauthorizedClient)
            );
        }
    }
    assert_eq!(escrow, escrow_in(State::Submitted, 500));
    assert_eq!(escrow.check_release_funds(&party("client")), Ok(()));
    assert_eq!(escrow.settlement(&party("client"), false), Err(EscrowError::AuthorizationFailed));
    assert_eq!(
        escrow.release_funds(party("client"), false, Ok(())),
        Err(EscrowError::AuthorizationFailed)
    );
    assert_eq!(escrow, escrow_in(State::Submitted, 500));
}

#[test]
fn wrong_caller_outweighs_wrong_state() {
    let mut released = escrow_in(State::Released, 500);
    assert_eq!(
        released.submit_work_link(party("client"), true),
        Err(EscrowError::UnauthorizedFreelancer)
    );
    assert_eq!(
        released.release_funds(party("freelancer"), true, Ok(())),
        Err(EscrowError::UnauthorizedClient)
    );
    // A missing proof outweighs the wrong state as well.
    assert_eq!(
        released.submit_work_link(party("freelancer"), false),
        Err(EscrowError::AuthorizationFailed)
    );
    assert_eq!(
        released.release_funds(party("client"), false, Ok(())),
        Err(EscrowError::AuthorizationFailed)
    );
}

#[test]
fn settlement_names_both_transfers() {
    let escrow = escrow_in(State::Submitted, 500);
    assert_eq!(
        escrow.settlement(&party("client"), true),
        Ok(Settlement {
            asset_contract: party("token"),
            payee: party("freelancer"),
            payee_amount: 490,
            fee_collector: party("fee-collector"),
            fee_amount: 10,
        })
    );
    assert_eq!(escrow, escrow_in(State::Submitted, 500));
}

#[test]
fn refused_settlement_keeps_the_escrow_submitted() {
    let mut escrow = escrow_in(State::Submitted, 500);
    assert_eq!(
        escrow.release_funds(party("client"), true, Err(10)),
        Err(EscrowError::Rejected(10))
    );
    assert_eq!(escrow, escrow_in(State::Submitted, 500));
    assert_eq!(escrow.held(), 500);
}

#[test]
fn custody_follows_the_lifecycle() {
    assert_eq!(MicroEscrow::new().held(), 0);
    assert_eq!(escrow_in(State::Pending, 500).held(), 500);
    assert_eq!(escrow_in(State::Submitted, 500).held(), 500);
    assert_eq!(escrow_in(State::Released, 500).held(), 0);
    assert_eq!(escrow_in(State::Pending, i128::MAX).held(), i128::MAX);
}

#[test]
fn release_pays_out_the_whole_amount() {
    for amount in [1i128, 49, 50, 51, 99, 100, 101, 500, 12_345, i128::MAX] {
        let mut escrow = escrow_in(State::Submitted, amount);
        let paid = escrow.release_funds(party("client"), true, Ok(())).unwrap();
        assert_eq!(paid.payee_amount + paid.fee_amount, amount);
        assert_eq!(paid.fee_amount, amount / 50);
        assert_eq!(escrow.held(), 0);
        assert_eq!(escrow.get_state(), Ok(State::Released));
    }
}

#[test]
fn each_failure_has_its_sentence() {
    assert_eq!(EscrowError::AlreadyInitialized.message(), "Already initialized");
    assert_eq!(EscrowError::NotInitialized.message(), "Not initialized");
    assert_eq!(EscrowError::AuthorizationFailed.message(), "Authorization failed");
    assert_eq!(EscrowError::UnauthorizedFreelancer.message(), "Not the authorized freelancer");
    assert_eq!(EscrowError::UnauthorizedClient.message(), "Not the authorized client");
    assert_eq!(EscrowError::InvalidStateTransition.message(), "Invalid state transition");
    assert_eq!(
        EscrowError::FundsNotReleasable.message(),
        "Funds can only be released after work is submitted"
    );
    assert_eq!(EscrowError::Rejected(3).message(), "Rejected by a collaborator");
}
