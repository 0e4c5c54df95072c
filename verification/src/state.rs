//! The handshake state cell: the atomic turn word at the start of a shared
//! region, and the race-free way two openers bring it to a valid state.

use vstd::prelude::*;

verus! {

/// Turn word granting the writer access to the data window.
pub const STATE_READY_TO_WRITE: u64 = 2;

/// Turn word granting the reader access to the data window.
pub const STATE_READY_TO_READ: u64 = 3;

/// A state word is valid once the cell has been initialized: from then on it
/// always holds exactly one of the two turn words.
pub open spec fn is_valid_state(s: u64) -> bool {
    s == STATE_READY_TO_WRITE || s == STATE_READY_TO_READ
}

/// What an opener must do after observing the state cell once.
#[derive(Clone, Copy, PartialEq, Eq, Structural, Debug)]
pub enum InitAction {
    /// The cell already holds a valid turn word: leave it untouched.
    AlreadyValid,
    /// The cell is uninitialized: atomically swap the observed word for the
    /// proposed one, and observe again if the swap loses a race.
    TryCas { expected: u64, proposed: u64 },
}

/// The decision an opener takes for one observed state word.
pub open spec fn init_action(observed: u64) -> InitAction {
    if is_valid_state(observed) {
        InitAction::AlreadyValid
    } else {
        InitAction::TryCas { expected: observed, proposed: STATE_READY_TO_WRITE }
    }
}

/// One round of the create-or-attach initialization: decide, from a single
/// read of the state cell, whether the cell is already initialized or which
/// compare-and-swap to attempt. The caller repeats read and decision until
/// the cell is valid or its swap succeeds.
pub fn init_step(observed: u64) -> (action: InitAction)
    ensures
        action == init_action(observed),
{
    if observed == STATE_READY_TO_WRITE || observed == STATE_READY_TO_READ {
        InitAction::AlreadyValid
    } else {
        InitAction::TryCas { expected: observed, proposed: STATE_READY_TO_WRITE }
    }
}

/// What a compare-and-swap leaves in a cell currently holding `current`.
pub open spec fn cas_result(current: u64, expected: u64, proposed: u64) -> u64 {
    if current == expected {
        proposed
    } else {
        current
    }
}

/// The cell value after one opener applies the decision it took for the
/// (possibly stale) observation `observed` to a cell now holding `current`.
pub open spec fn after_init_attempt(observed: u64, current: u64) -> u64 {
    match init_action(observed) {
        InitAction::AlreadyValid => current,
        InitAction::TryCas { expected, proposed } => cas_result(current, expected, proposed),
    }
}

/// Race resolution of `open`: two independent processes may interleave reads
/// and compare-and-swaps on the same fresh cell in any order. However stale
/// an opener's observation, its attempt either leaves the cell exactly as the
/// other opener put it or establishes `STATE_READY_TO_WRITE`; a cell that is
/// already valid is never overwritten, so initialization happens at most
/// once; and an attempt based on an accurate observation of an uninitialized
/// cell always initializes it to `STATE_READY_TO_WRITE`.
pub proof fn lemma_init_race_resolution(observed: u64, current: u64)
    ensures
        after_init_attempt(observed, current) == current || after_init_attempt(
            observed,
            current,
        ) == STATE_READY_TO_WRITE,
        is_valid_state(current) ==> after_init_attempt(observed, current) == current,
        observed == current && !is_valid_state(current) ==> after_init_attempt(observed, current)
            == STATE_READY_TO_WRITE,
{
}

/// Once valid, always valid: no initialization attempt, however many openers
/// race, moves the cell out of the valid states, and every opener's loop
/// stops as soon as it observes a valid word.
pub proof fn lemma_init_establishes_valid(observed: u64, current: u64)
    ensures
        is_valid_state(current) ==> is_valid_state(after_init_attempt(observed, current)),
        observed == current ==> is_valid_state(after_init_attempt(observed, current)),
        is_valid_state(observed) ==> init_action(observed) == InitAction::AlreadyValid,
{
}

} // verus!
