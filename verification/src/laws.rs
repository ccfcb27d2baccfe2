//! What holds of every call on an escrow, and of every sequence of calls.
//!
//! The laws are stated over the rules that the entry points are verified
//! against, so they hold of the entry points themselves.

use crate::record::{
    DepositView, EscrowError, FundsLockedView, FundsReleasedView, RecordView, WorkSubmittedView,
};
use crate::rules::{
    after_initialize, after_release, after_submit, custody, deposit_due, initialize_outcome,
    release_outcome, settlement_due, state_of, submit_outcome,
};
use crate::split::{fee_share, payee_share};
use crate::state::State;
use vstd::prelude::*;

verus! {

/// One call on an escrow, together with what the host observed for it.
pub enum Call {
    Initialize { terms: RecordView, authorized: bool, deposit: Result<(), u32> },
    SubmitWorkLink { payee: Seq<u8>, authorized: bool },
    ReleaseFunds { payer: Seq<u8>, authorized: bool, settled: Result<(), u32> },
    GetState,
}

/// Whether `call` succeeds on an instance that stores `pre`.
pub open spec fn succeeds(pre: Option<RecordView>, call: Call) -> bool {
    match call {
        Call::Initialize { terms, authorized, deposit } => initialize_outcome(
            pre,
            terms,
            authorized,
            deposit,
        ) is Ok,
        Call::SubmitWorkLink { payee, authorized } => submit_outcome(pre, payee, authorized) is Ok,
        Call::ReleaseFunds { payer, authorized, settled } => release_outcome(
            pre,
            payer,
            authorized,
            settled,
        ) is Ok,
        Call::GetState => state_of(pre) is Ok,
    }
}

/// What an instance that stored `pre` stores after `call`.
pub open spec fn after(pre: Option<RecordView>, call: Call) -> Option<RecordView> {
    match call {
        Call::Initialize { terms, authorized, deposit } => after_initialize(
            pre,
            terms,
            authorized,
            deposit,
        ),
        Call::SubmitWorkLink { payee, authorized } => after_submit(pre, payee, authorized),
        Call::ReleaseFunds { payer, authorized, settled } => after_release(
            pre,
            payer,
            authorized,
            settled,
        ),
        Call::GetState => pre,
    }
}

/// What an instance that stored `pre` stores after `calls`, made in order.
pub open spec fn after_all(pre: Option<RecordView>, calls: Seq<Call>) -> Option<RecordView>
    decreases calls.len(),
{
    if calls.len() == 0 {
        pre
    } else {
        after(after_all(pre, calls.drop_last()), calls.last())
    }
}

/// Whether two records agree in everything that initialization fixes.
pub open spec fn same_terms(a: RecordView, b: RecordView) -> bool {
    &&& a.payer == b.payer
    &&& a.payee == b.payee
    &&& a.fee_collector == b.fee_collector
    &&& a.asset_contract == b.asset_contract
    &&& a.amount == b.amount
}

/// An escrow is initialized at most once. After a successful `initialize`,
/// any further `initialize` fails with `AlreadyInitialized`, whatever its
/// terms and whatever the host observed for it, and the record that the
/// first call stored, its amount and state among the rest, stays as it is.
pub proof fn lemma_initialize_only_once(
    pre: Option<RecordView>,
    first: RecordView,
    first_authorized: bool,
    first_deposit: Result<(), u32>,
    second: RecordView,
    second_authorized: bool,
    second_deposit: Result<(), u32>,
)
    requires
        initialize_outcome(pre, first, first_authorized, first_deposit) is Ok,
    ensures
        ({
            let stored = after_initialize(pre, first, first_authorized, first_deposit);
            &&& stored == Some(RecordView { state: State::Pending, ..first })
            &&& initialize_outcome(stored, second, second_authorized, second_deposit) == Err::<
                FundsLockedView,
                EscrowError,
            >(EscrowError::AlreadyInitialized)
            &&& after_initialize(stored, second, second_authorized, second_deposit) == stored
        }),
{
}

/// `initialize` succeeds exactly on an instance without a record, with the
/// payer's proof and the deposit carried out. It then stores the terms with
/// state `Pending`; in every other case it stores nothing.
pub proof fn lemma_initialize_needs_fresh_instance(
    pre: Option<RecordView>,
    terms: RecordView,
    authorized: bool,
    deposit: Result<(), u32>,
)
    ensures
        initialize_outcome(pre, terms, authorized, deposit) is Ok <==> pre is None && authorized
            && deposit is Ok,
        initialize_outcome(pre, terms, authorized, deposit) is Ok ==> after_initialize(
            pre,
            terms,
            authorized,
            deposit,
        ) == Some(RecordView { state: State::Pending, ..terms }),
        initialize_outcome(pre, terms, authorized, deposit) is Err ==> after_initialize(
            pre,
            terms,
            authorized,
            deposit,
        ) == pre,
        initialize_outcome(pre, terms, authorized, deposit) is Ok ==> deposit_due(
            pre,
            terms.payer,
            terms.asset_contract,
            terms.amount,
            authorized,
        ) == Ok::<DepositView, EscrowError>(
            DepositView {
                asset_contract: terms.asset_contract,
                payer: terms.payer,
                amount: terms.amount,
            },
        ),
{
}

/// Once an instance holds a record it holds one for good, so `initialize`
/// fails with `AlreadyInitialized` after any sequence of further calls.
pub proof fn lemma_initialized_for_good(
    pre: Option<RecordView>,
    calls: Seq<Call>,
    terms: RecordView,
    authorized: bool,
    deposit: Result<(), u32>,
)
    requires
        pre is Some,
    ensures
        initialize_outcome(after_all(pre, calls), terms, authorized, deposit) == Err::<
            FundsLockedView,
            EscrowError,
        >(EscrowError::AlreadyInitialized),
        after_initialize(after_all(pre, calls), terms, authorized, deposit) == after_all(
            pre,
            calls,
        ),
{
    lemma_history_keeps_terms(pre, calls);
}

/// The state moves only along the lifecycle. `submit_work_link` succeeds
/// exactly where the escrow is `Pending` and its payee calls with proof, and
/// leaves it `Submitted`. `release_funds` succeeds exactly where the escrow
/// is `Submitted`, its payer calls with proof and the settlement was carried
/// out, and leaves it `Released`. From any other state, and on an instance
/// without a record, each of them fails and changes nothing.
pub proof fn lemma_transitions_follow_lifecycle(
    pre: Option<RecordView>,
    caller: Seq<u8>,
    authorized: bool,
    settled: Result<(), u32>,
)
    ensures
        submit_outcome(pre, caller, authorized) is Ok <==> {
            &&& pre matches Some(record)
            &&& record.state == State::Pending
            &&& record.payee == caller
            &&& authorized
        },
        submit_outcome(pre, caller, authorized) is Ok ==> state_of(
            after_submit(pre, caller, authorized),
        ) == Ok::<State, EscrowError>(State::Submitted),
        state_of(pre) != Ok::<State, EscrowError>(State::Pending) ==> {
            &&& submit_outcome(pre, caller, authorized) is Err
            &&& after_submit(pre, caller, authorized) == pre
        },
        release_outcome(pre, caller, authorized, settled) is Ok <==> {
            &&& pre matches Some(record)
            &&& record.state == State::Submitted
            &&& record.payer == caller
            &&& authorized
            &&& settled is Ok
        },
        release_outcome(pre, caller, authorized, settled) is Ok ==> state_of(
            after_release(pre, caller, authorized, settled),
        ) == Ok::<State, EscrowError>(State::Released),
        state_of(pre) != Ok::<State, EscrowError>(State::Submitted) ==> {
            &&& release_outcome(pre, caller, authorized, settled) is Err
            &&& after_release(pre, caller, authorized, settled) == pre
        },
{
}

/// A call that fails leaves the record as it was, and no call takes a record
/// away, alters what initialization fixed, moves the state backwards or
/// moves it by more than one step.
pub proof fn lemma_call_keeps_terms(pre: Option<RecordView>, call: Call)
    ensures
        !succeeds(pre, call) ==> after(pre, call) == pre,
        pre matches Some(before) ==> {
            &&& after(pre, call) matches Some(then)
            &&& same_terms(before, then)
            &&& before.state.rank() <= then.state.rank() <= before.state.rank() + 1
        },
{
}

/// Over any sequence of calls an initialized escrow keeps its parties, its
/// asset and its amount, and its state never moves backwards.
pub proof fn lemma_history_keeps_terms(pre: Option<RecordView>, calls: Seq<Call>)
    requires
        pre is Some,
    ensures
        after_all(pre, calls) matches Some(then) && same_terms(pre->Some_0, then)
            && pre->Some_0.state.rank() <= then.state.rank(),
    decreases calls.len(),
{
    if calls.len() > 0 {
        lemma_history_keeps_terms(pre, calls.drop_last());
        lemma_call_keeps_terms(after_all(pre, calls.drop_last()), calls.last());
    }
}

/// `Released` is final: no call changes a released escrow.
pub proof fn lemma_released_is_terminal(pre: Option<RecordView>, calls: Seq<Call>)
    requires
        state_of(pre) == Ok::<State, EscrowError>(State::Released),
    ensures
        after_all(pre, calls) == pre,
    decreases calls.len(),
{
    if calls.len() > 0 {
        lemma_released_is_terminal(pre, calls.drop_last());
    }
}

/// Only the stored payee hands in work and only the stored payer releases:
/// for any other caller the call fails, with or without a proof, and changes
/// nothing. Without a proof no caller gets anything done.
pub proof fn lemma_only_the_entitled_party(
    pre: Option<RecordView>,
    caller: Seq<u8>,
    authorized: bool,
    settled: Result<(), u32>,
    terms: RecordView,
)
    ensures
        pre matches Some(record) && caller != record.payee ==> {
            &&& submit_outcome(pre, caller, authorized) == Err::<WorkSubmittedView, EscrowError>(
                EscrowError::UnauthorizedFreelancer,
            )
            &&& after_submit(pre, caller, authorized) == pre
        },
        pre matches Some(record) && caller != record.payer ==> {
            &&& release_outcome(pre, caller, authorized, settled) == Err::<
                FundsReleasedView,
                EscrowError,
            >(EscrowError::UnauthorizedClient)
            &&& settlement_due(pre, caller, authorized) is Err
            &&& after_release(pre, caller, authorized, settled) == pre
        },
        !authorized ==> {
            &&& initialize_outcome(pre, terms, authorized, settled) is Err
            &&& submit_outcome(pre, caller, authorized) is Err
            &&& release_outcome(pre, caller, authorized, settled) is Err
            &&& after_initialize(pre, terms, authorized, settled) == pre
            &&& after_submit(pre, caller, authorized) == pre
            &&& after_release(pre, caller, authorized, settled) == pre
        },
{
}

/// A release pays out exactly what the escrow holds. The payee's part and
/// the fee add up to the amount, the fee is two hundredths of it rounded
/// toward zero, and afterwards the instance holds nothing for the escrow.
pub proof fn lemma_release_conserves_custody(
    pre: Option<RecordView>,
    payer: Seq<u8>,
    authorized: bool,
    settled: Result<(), u32>,
)
    requires
        release_outcome(pre, payer, authorized, settled) is Ok,
    ensures
        ({
            let paid = release_outcome(pre, payer, authorized, settled)->Ok_0;
            let amount = pre->Some_0.amount;
            &&& paid.fee_amount + paid.payee_amount == amount
            &&& paid.fee_amount == fee_share(amount)
            &&& paid.payee_amount == payee_share(amount)
            &&& paid.payee == pre->Some_0.payee
            &&& settlement_due(pre, payer, authorized) matches Ok(due) && due.payee_amount
                == paid.payee_amount && due.fee_amount == paid.fee_amount
            &&& custody(pre) == amount
            &&& custody(after_release(pre, payer, authorized, settled)) == 0
        }),
{
}

/// Custody changes with the funds and not otherwise: a successful
/// `initialize` adds the amount to it, a successful `release_funds` takes the
/// amount from it, and every other call, failed calls among them, leaves it
/// as it was.
pub proof fn lemma_custody_follows_calls(pre: Option<RecordView>, call: Call)
    ensures
        custody(after(pre, call)) == custody(pre) + (if succeeds(pre, call) {
            match call {
                Call::Initialize { terms, .. } => terms.amount,
                Call::ReleaseFunds { .. } => -pre->Some_0.amount,
                _ => 0,
            }
        } else {
            0
        }),
{
}

} // verus!
