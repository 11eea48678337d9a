//! The turn engine: which combatant acts, and in which round.

use vstd::prelude::*;

verus! {

/// Where an encounter stands: the round number (from 1) and the 1-based
/// slot in the roster of the combatant whose turn it is.
#[derive(Clone, Copy, Debug, PartialEq, Eq, Structural)]
pub struct TurnState {
    pub round: u64,
    pub position: usize,
}

impl TurnState {
    /// A state that points at a combatant of a roster of `n` entries.
    pub open spec fn is_valid_for(self, n: usize) -> bool {
        &&& 1 <= self.round
        &&& 1 <= self.position <= n
    }

    /// The first turn of the first round.
    pub fn start() -> (t: TurnState)
        ensures
            t == (TurnState { round: 1, position: 1 }),
    {
        TurnState { round: 1, position: 1 }
    }
}

/// The next turn: the following slot, or the first slot of the next round
/// once the last slot (or a slot past the end) has acted.
pub open spec fn next_turn(t: TurnState, n: usize) -> TurnState {
    if t.position >= n {
        TurnState { round: (t.round + 1) as u64, position: 1 }
    } else {
        TurnState { round: t.round, position: (t.position + 1) as usize }
    }
}

/// The previous turn: the slot before, or the last slot of the round before
/// when at the first slot. The round never goes below 1; a slot past the end
/// steps back to the last slot.
pub open spec fn previous_turn(t: TurnState, n: usize) -> TurnState {
    if t.position <= 1 {
        TurnState { round: if t.round <= 1 { 1 } else { (t.round - 1) as u64 }, position: n }
    } else if t.position > n {
        TurnState { round: t.round, position: n }
    } else {
        TurnState { round: t.round, position: (t.position - 1) as usize }
    }
}

/// The state after the roster changed to `n` entries: back to the start when
/// it is empty, on to the next round when the slot lies past the end, and to
/// the first slot when the round is about to begin (slot 0).
pub open spec fn settled_turn(t: TurnState, n: usize) -> TurnState {
    if n == 0 {
        TurnState { round: 1, position: 1 }
    } else if t.position > n {
        TurnState { round: (t.round + 1) as u64, position: 1 }
    } else if t.position == 0 {
        TurnState { round: if t.round == 0 { 1 } else { t.round }, position: 1 }
    } else {
        TurnState { round: if t.round == 0 { 1 } else { t.round }, position: t.position }
    }
}

/// Moves to the next turn in a roster of `n` combatants.
pub fn advance(t: TurnState, n: usize) -> (r: TurnState)
    requires
        n > 0,
        t.round < u64::MAX,
    ensures
        r == next_turn(t, n),
{
    if t.position >= n {
        TurnState { round: t.round + 1, position: 1 }
    } else {
        TurnState { round: t.round, position: t.position + 1 }
    }
}

/// Moves back to the previous turn in a roster of `n` combatants.
pub fn retreat(t: TurnState, n: usize) -> (r: TurnState)
    requires
        n > 0,
    ensures
        r == previous_turn(t, n),
{
    if t.position <= 1 {
        let round = if t.round <= 1 { 1 } else { t.round - 1 };
        TurnState { round, position: n }
    } else if t.position > n {
        TurnState { round: t.round, position: n }
    } else {
        TurnState { round: t.round, position: t.position - 1 }
    }
}

/// Brings a turn state in line with a roster that now holds `n` entries.
pub fn settle(t: TurnState, n: usize) -> (r: TurnState)
    requires
        t.round < u64::MAX,
    ensures
        r == settled_turn(t, n),
        n > 0 ==> r.is_valid_for(n),
{
    if n == 0 {
        TurnState::start()
    } else if t.position > n {
        TurnState { round: t.round + 1, position: 1 }
    } else {
        let round = if t.round == 0 { 1 } else { t.round };
        let position = if t.position == 0 { 1 } else { t.position };
        TurnState { round, position }
    }
}

/// Stepping back undoes stepping forward, from every valid state.
pub proof fn lemma_retreat_undoes_advance(t: TurnState, n: usize)
    requires
        n > 0,
        t.is_valid_for(n),
        t.round < u64::MAX,
    ensures
        previous_turn(next_turn(t, n), n) == t,
{
}

/// Stepping forward undoes stepping back, from every valid state but the
/// first turn of the first round.
pub proof fn lemma_advance_undoes_retreat(t: TurnState, n: usize)
    requires
        n > 0,
        t.is_valid_for(n),
        !(t.round == 1 && t.position == 1),
    ensures
        next_turn(previous_turn(t, n), n) == t,
{
}

/// At the first turn of the first round, stepping back is clamped: it stays
/// in round 1 at the last slot, so stepping forward again moves on to round 2.
pub proof fn lemma_retreat_clamped_at_start(n: usize)
    requires
        n > 0,
    ensures
        previous_turn(TurnState { round: 1, position: 1 }, n) == (TurnState { round: 1, position: n }),
        next_turn(previous_turn(TurnState { round: 1, position: 1 }, n), n) == (TurnState {
            round: 2,
            position: 1,
        }),
{
}

} // verus!
