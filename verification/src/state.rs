//! The lifecycle of an escrow.

use vstd::prelude::*;

verus! {

/// Where an escrow stands: funds locked, work handed in, or funds paid out.
#[derive(Clone, Copy, Debug, PartialEq, Eq, Structural)]
pub enum State {
    Pending,
    Submitted,
    Released,
}

impl State {
    /// The number under which a state is published: 0 for `Pending`, 1 for
    /// `Submitted`, 2 for `Released`. It grows along the lifecycle.
    pub open spec fn rank(self) -> u32 {
        match self {
            State::Pending => 0,
            State::Submitted => 1,
            State::Released => 2,
        }
    }

    /// The state published under `code`, if there is one.
    pub open spec fn of_rank(code: u32) -> Option<State> {
        if code == 0 {
            Some(State::Pending)
        } else if code == 1 {
            Some(State::Submitted)
        } else if code == 2 {
            Some(State::Released)
        } else {
            None
        }
    }

    /// The published number of this state.
    pub fn code(self) -> (c: u32)
        ensures
            c == self.rank(),
    {
        match self {
            State::Pending => 0,
            State::Submitted => 1,
            State::Released => 2,
        }
    }

    /// Reads a published number back; `None` for a number that names no state.
    pub fn from_code(code: u32) -> (s: Option<State>)
        ensures
            s == State::of_rank(code),
    {
        if code == 0 {
            Some(State::Pending)
        } else if code == 1 {
            Some(State::Submitted)
        } else if code == 2 {
            Some(State::Released)
        } else {
            None
        }
    }

    /// A state and its published number determine each other.
    pub proof fn lemma_code_round_trip(s: State, code: u32)
        ensures
            State::of_rank(s.rank()) == Some(s),
            State::of_rank(code) == Some(s) <==> code == s.rank(),
    {
    }
}

} // verus!
