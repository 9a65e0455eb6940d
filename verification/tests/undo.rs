use chickenfoot::Command;
use chickenfoot::GameState;
use chickenfoot::HistoryStack;
use chickenfoot::PlayError;
use chickenfoot::commands::apply;
use chickenfoot::history::undo;

#[test]
fn undo_on_empty_stack_is_a_reported_noop() {
    let mut state = GameState::default();
    let mut history = HistoryStack::new();
    let before = state;
    assert!(!undo(&mut state, &mut history));
    assert_eq!(state, before);
    assert_eq!(history.len(), 0);
}

#[test]
fn n_undos_restore_the_pre_session_state() {
    let initial = GameState::default();
    let mut state = initial;
    let mut history = HistoryStack::new();

    assert_eq!(apply(&mut state, &mut history, Command::EditDouble { pips: 5, count: 0, first: true }), Ok(()));
    assert_eq!(apply(&mut state, &mut history, Command::StartGame), Ok(()));
    assert_eq!(apply(&mut state, &mut history, Command::AddToHand { min: 3, max: 5 }), Ok(()));
    assert_eq!(
        apply(&mut state, &mut history, Command::PlayFromHand { min: 3, max: 5, min_matches: false }),
        Ok(()),
    );
    assert_eq!(history.len(), 4);
    assert_ne!(state, initial);

    for _ in 0..4 {
        assert!(undo(&mut state, &mut history));
    }
    assert_eq!(state, initial);
    assert_eq!(history.len(), 0);

    // The stack is spent: one more undo reports a no-op.
    assert!(!undo(&mut state, &mut history));
    assert_eq!(state, initial);
}

#[test]
fn one_undo_reverses_one_command() {
    let mut state = GameState::default();
    let mut history = HistoryStack::new();
    assert_eq!(apply(&mut state, &mut history, Command::SetEndpoint { pips: 9, count: 2 }), Ok(()));
    let mid = state;
    assert_eq!(state.endpoints[9], 2);
    assert_eq!(apply(&mut state, &mut history, Command::TogglePlayed { min: 9, max: 9 }), Ok(()));
    assert!(state.played.has(9, 9));
    assert!(undo(&mut state, &mut history));
    assert_eq!(state, mid);
    assert!(!state.played.has(9, 9));
}

#[test]
fn failed_command_pushes_no_snapshot() {
    let mut state = GameState::default();
    let mut history = HistoryStack::new();
    assert_eq!(apply(&mut state, &mut history, Command::SetDoubleActive { active: false }), Ok(()));
    let before = state;
    assert_eq!(
        apply(&mut state, &mut history, Command::PlayOther { min: 2, max: 7, min_matches: true }),
        Err(PlayError::InvalidMove),
    );
    assert_eq!(state, before);
    assert_eq!(history.len(), 1);
}

#[test]
fn pop_restore_returns_newest_snapshot() {
    let mut history = HistoryStack::new();
    assert_eq!(history.pop_restore(), None);
    let a = GameState::default();
    let mut b = GameState::default();
    b.set_endpoint(0, 1);
    history.push(a);
    history.push(b);
    assert_eq!(history.pop_restore(), Some(b));
    assert_eq!(history.pop_restore(), Some(a));
    assert_eq!(history.pop_restore(), None);
}

#[test]
fn other_play_keeps_the_hand() {
    let mut state = GameState::default();
    let mut history = HistoryStack::new();
    state.add_to_hand(2, 6);
    state.set_double_active(false);
    state.set_endpoint(2, 1);
    assert_eq!(
        apply(&mut state, &mut history, Command::PlayOther { min: 2, max: 6, min_matches: true }),
        Ok(()),
    );
    assert!(state.hand.has(2, 6));
    assert!(state.played.has(2, 6));
    assert_eq!(state.endpoints[2], 0);
    assert_eq!(state.endpoints[6], 1);
}
