use keylights::ws::JudgementChange;
use keylights::ws::JudgementState;

#[test]
fn single_increase_great() {
    let mut state = JudgementState::new(3, 2, 1, 0, 9);
    let change = state.replace_with(JudgementState::new(4, 2, 1, 0, 9));
    assert_eq!(change, JudgementChange::Great);
}

#[test]
fn single_increase_good() {
    let mut state = JudgementState::new(3, 2, 1, 0, 9);
    let change = state.replace_with(JudgementState::new(3, 3, 1, 0, 9));
    assert_eq!(change, JudgementChange::Good);
}

#[test]
fn single_increase_meh() {
    let mut state = JudgementState::new(3, 2, 1, 0, 9);
    let change = state.replace_with(JudgementState::new(3, 2, 2, 0, 9));
    assert_eq!(change, JudgementChange::Meh);
}

#[test]
fn single_increase_miss() {
    let mut state = JudgementState::new(3, 2, 1, 0, 9);
    let change = state.replace_with(JudgementState::new(3, 2, 1, 1, 9));
    assert_eq!(change, JudgementChange::Miss);
}

#[test]
fn combo_only_change_counts_as_great() {
    let mut state = JudgementState::new(3, 2, 1, 0, 9);
    let change = state.replace_with(JudgementState::new(3, 2, 1, 0, 10));
    assert_eq!(change, JudgementChange::Great);
}

#[test]
fn combo_decrease_alone_counts_as_great() {
    let mut state = JudgementState::new(3, 2, 1, 0, 9);
    let change = state.replace_with(JudgementState::new(3, 2, 1, 0, 0));
    assert_eq!(change, JudgementChange::Great);
}

#[test]
fn worst_increase_wins_over_better_ones() {
    let mut state = JudgementState::new(3, 2, 1, 0, 9);
    let change = state.replace_with(JudgementState::new(9, 9, 9, 1, 50));
    assert_eq!(change, JudgementChange::Miss);
    let change = state.replace_with(JudgementState::new(10, 10, 10, 1, 51));
    assert_eq!(change, JudgementChange::Meh);
}

#[test]
fn any_decrease_is_reset() {
    let mut state = JudgementState::new(3, 2, 1, 1, 9);
    let change = state.replace_with(JudgementState::new(3, 2, 1, 0, 9));
    assert_eq!(change, JudgementChange::Reset);

    let mut state = JudgementState::new(3, 2, 1, 1, 9);
    let change = state.replace_with(JudgementState::new(2, 9, 9, 9, 9));
    assert_eq!(change, JudgementChange::Reset);
}

#[test]
fn unchanged_snapshot_is_no_change() {
    let mut state = JudgementState::new(3, 2, 1, 0, 9);
    let change = state.replace_with(JudgementState::new(3, 2, 1, 0, 9));
    assert_eq!(change, JudgementChange::NoChange);
}

#[test]
fn replace_with_keeps_the_new_snapshot() {
    let mut state = JudgementState::default();
    state.replace_with(JudgementState::new(5, 4, 3, 2, 1));
    assert_eq!(state, JudgementState::new(5, 4, 3, 2, 1));
}

#[test]
fn first_hit_then_reset_scenario() {
    let mut state = JudgementState::new(0, 0, 0, 0, 0);
    let change = state.replace_with(JudgementState::new(1, 0, 0, 0, 0));
    assert_eq!(change, JudgementChange::Great);
    let change = state.replace_with(JudgementState::new(0, 0, 0, 0, 0));
    assert_eq!(change, JudgementChange::Reset);
}
