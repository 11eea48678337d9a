use encounter_tracker::turn::{advance, retreat, settle, TurnState};

fn state(round: u64, position: usize) -> TurnState {
    TurnState { round, position }
}

#[test]
fn advance_moves_to_next_slot() {
    assert_eq!(advance(state(1, 1), 3), state(1, 2));
    assert_eq!(advance(state(4, 2), 3), state(4, 3));
}

#[test]
fn advance_after_last_slot_starts_next_round() {
    assert_eq!(advance(state(1, 3), 3), state(2, 1));
    assert_eq!(advance(state(7, 1), 1), state(8, 1));
}

#[test]
fn retreat_moves_to_previous_slot() {
    assert_eq!(retreat(state(2, 3), 3), state(2, 2));
}

#[test]
fn retreat_from_first_slot_goes_to_last_slot_of_previous_round() {
    assert_eq!(retreat(state(3, 1), 4), state(2, 4));
}

#[test]
fn retreat_at_first_turn_is_clamped_to_round_one() {
    let back = retreat(TurnState::start(), 4);
    assert_eq!(back, state(1, 4));
    assert_eq!(advance(back, 4), state(2, 1));
}

#[test]
fn retreat_undoes_advance_for_every_valid_state() {
    for n in 1..6usize {
        for round in 1..5u64 {
            for position in 1..=n {
                let t = state(round, position);
                assert_eq!(retreat(advance(t, n), n), t);
            }
        }
    }
}

#[test]
fn advance_undoes_retreat_except_at_first_turn() {
    for n in 1..6usize {
        for round in 1..5u64 {
            for position in 1..=n {
                let t = state(round, position);
                if round == 1 && position == 1 {
                    assert_ne!(advance(retreat(t, n), n), t);
                } else {
                    assert_eq!(advance(retreat(t, n), n), t);
                }
            }
        }
    }
}

#[test]
fn settle_on_empty_roster_resets() {
    assert_eq!(settle(state(5, 3), 0), state(1, 1));
}

#[test]
fn settle_past_end_starts_next_round() {
    assert_eq!(settle(state(2, 4), 3), state(3, 1));
    assert_eq!(settle(state(2, 6), 3), state(3, 1));
}

#[test]
fn settle_between_rounds_moves_to_first_slot() {
    assert_eq!(settle(state(2, 0), 3), state(2, 1));
    assert_eq!(settle(state(2, 2), 3), state(2, 2));
}
