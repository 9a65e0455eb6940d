use chickenfoot::DoubleDomino;
use chickenfoot::GameState;
use chickenfoot::PlayError;

#[test]
fn max_count_is_four_for_first_double_else_three() {
    let first = DoubleDomino { pips: 0, count: 0, first: true };
    assert_eq!(first.max_count(), 4);
    let foot = DoubleDomino { pips: 9, count: 2, first: false };
    assert_eq!(foot.max_count(), 3);
}

#[test]
fn fresh_state_waits_for_first_double() {
    let s = GameState::default();
    assert_eq!(s.double, Some(DoubleDomino { pips: 0, count: 0, first: true }));
    assert_eq!(s.endpoints, [0u8; 13]);
    assert!(s.played.as_vector().is_empty());
    assert!(s.hand.as_vector().is_empty());
}

#[test]
fn start_game_places_only_the_chosen_double() {
    let mut s = GameState::default();
    s.edit_double(5, 0, true);
    s.start_game();
    assert_eq!(s.played.as_vector(), vec![(5, 5)]);
    assert_eq!(s.endpoints, [0u8; 13]);
    assert_eq!(s.double, Some(DoubleDomino { pips: 5, count: 0, first: true }));
}

#[test]
fn four_arms_satisfy_the_first_double() {
    let mut s = GameState::default();
    s.edit_double(5, 0, true);
    s.start_game();

    // Three arms leave the double pending with a growing count.
    assert_eq!(s.play(3, 5, false), Ok(()));
    assert_eq!(s.endpoints[3], 1);
    assert_eq!(s.double, Some(DoubleDomino { pips: 5, count: 1, first: true }));

    assert_eq!(s.play(1, 5, false), Ok(()));
    assert_eq!(s.endpoints[1], 1);
    assert_eq!(s.double, Some(DoubleDomino { pips: 5, count: 2, first: true }));

    assert_eq!(s.play(5, 6, true), Ok(()));
    assert_eq!(s.endpoints[6], 1);
    assert_eq!(s.double, Some(DoubleDomino { pips: 5, count: 3, first: true }));

    // The fourth arm clears it: the board reopens.
    assert_eq!(s.play(2, 5, false), Ok(()));
    assert_eq!(s.endpoints[2], 1);
    assert_eq!(s.double, None);

    assert_eq!(s.played.as_vector(), vec![(1, 5), (2, 5), (3, 5), (5, 5), (5, 6)]);
}

#[test]
fn double_mismatch_is_rejected_unchanged() {
    let mut s = GameState::default();
    s.edit_double(5, 0, true);
    s.start_game();
    let before = s;
    // The double shows 5: an arm touching 4 is illegal.
    assert_eq!(s.play(4, 6, true), Err(PlayError::InvalidMove));
    assert_eq!(s, before);
}

#[test]
fn play_without_endpoint_is_rejected_unchanged() {
    let mut s = GameState::default();
    s.set_double_active(false);
    assert_eq!(s.endpoints[7], 0);
    let before = s;
    // Domino (2,7) with its 7 end matching: no open 7 endpoint exists.
    assert_eq!(s.play(2, 7, false), Err(PlayError::InvalidMove));
    assert_eq!(s, before);
}

#[test]
fn playing_a_double_opens_a_chickenfoot() {
    let mut s = GameState::default();
    s.set_double_active(false);
    s.set_endpoint(3, 1);
    assert_eq!(s.play(3, 3, true), Ok(()));
    assert_eq!(s.endpoints[3], 0);
    assert_eq!(s.double, Some(DoubleDomino { pips: 3, count: 0, first: false }));
    assert!(s.played.has(3, 3));
    // Three further arms close it.
    assert_eq!(s.play(3, 4, true), Ok(()));
    assert_eq!(s.play(3, 6, true), Ok(()));
    assert_eq!(s.double, Some(DoubleDomino { pips: 3, count: 2, first: false }));
    assert_eq!(s.play(0, 3, false), Ok(()));
    assert_eq!(s.double, None);
}

#[test]
fn ordinary_play_moves_the_endpoint() {
    let mut s = GameState::default();
    s.set_double_active(false);
    s.set_endpoint(4, 1);
    assert_eq!(s.play(4, 9, true), Ok(()));
    assert_eq!(s.endpoints[4], 0);
    assert_eq!(s.endpoints[9], 1);
    assert_eq!(s.double, None);
    assert!(s.played.has(4, 9));
}

#[test]
fn already_played_wins_over_other_errors() {
    let mut s = GameState::default();
    s.toggle_played(2, 5);
    let before = s;
    assert_eq!(s.play(2, 5, true), Err(PlayError::AlreadyPlayed));
    assert_eq!(s, before);
}

#[test]
fn play_from_hand_removes_the_domino() {
    let mut s = GameState::default();
    s.set_double_active(false);
    s.set_endpoint(1, 1);
    s.add_to_hand(1, 8);
    s.add_to_hand(2, 2);
    assert_eq!(s.play_from_hand(1, 8, true), Ok(()));
    assert!(!s.hand.has(1, 8));
    assert!(s.hand.has(2, 2));
    assert!(s.played.has(1, 8));
    // A failing play leaves the hand alone.
    let before = s;
    assert_eq!(s.play_from_hand(2, 2, true), Err(PlayError::InvalidMove));
    assert_eq!(s, before);
}

#[test]
fn hand_edits() {
    let mut s = GameState::default();
    s.add_to_hand(0, 3);
    s.add_to_hand(3, 3);
    assert_eq!(s.hand.as_vector(), vec![(0, 3), (3, 3)]);
    s.remove_from_hand(0, 3);
    assert_eq!(s.hand.as_vector(), vec![(3, 3)]);
}
