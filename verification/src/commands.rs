//! The typed command surface: every host interaction with the tracked state
//! goes through one audited dispatcher, which snapshots the state it found
//! before any mutation succeeds.

use vstd::prelude::*;
use crate::dominoes::PIP_MAX;
use crate::dominoes::valid_domino;
use crate::game::GameState;
use crate::game::PlayError;
use crate::game::add_to_hand_post;
use crate::game::edit_double_post;
use crate::game::play_accepted;
use crate::game::play_error;
use crate::game::play_from_hand_post;
use crate::game::play_post;
use crate::game::play_would_overflow;
use crate::game::remove_from_hand_post;
use crate::game::set_double_active_post;
use crate::game::set_endpoint_post;
use crate::game::start_game_post;
use crate::game::toggle_played_post;
use crate::history::HistoryStack;

verus! {

/// One operation against the tracked state, as the host hands it over.
#[derive(Clone, Copy, PartialEq, Eq, Structural, Debug)]
pub enum Command {
    /// Flip one board membership directly (manual correction).
    TogglePlayed { min: u8, max: u8 },
    /// Install a blank double, or clear the pending one.
    SetDoubleActive { active: bool },
    /// Overwrite the fields of the in-progress double.
    EditDouble { pips: u8, count: u8, first: bool },
    /// Reset the board to exactly the chosen first double.
    StartGame,
    /// Overwrite one endpoint counter directly (manual correction).
    SetEndpoint { pips: u8, count: u8 },
    /// Add a drawn domino to the player's hand.
    AddToHand { min: u8, max: u8 },
    /// Discard a domino from the player's hand.
    RemoveFromHand { min: u8, max: u8 },
    /// Play a domino from the player's hand.
    PlayFromHand { min: u8, max: u8, min_matches: bool },
    /// Play a domino on another player's behalf.
    PlayOther { min: u8, max: u8, min_matches: bool },
}

/// What each command asks of the state it is applied to: the preconditions
/// of the operation it names.
pub open spec fn command_enabled(s: GameState, cmd: Command) -> bool {
    match cmd {
        Command::TogglePlayed { min, max } => valid_domino(min, max),
        Command::SetDoubleActive { active } => true,
        Command::EditDouble { pips, count, first } => s.double is Some && pips <= PIP_MAX,
        Command::StartGame => s.wf() && (s.double matches Some(d) && d.first),
        Command::SetEndpoint { pips, count } => pips <= PIP_MAX && count <= PIP_MAX,
        Command::AddToHand { min, max } => valid_domino(min, max),
        Command::RemoveFromHand { min, max } => valid_domino(min, max),
        Command::PlayFromHand { min, max, min_matches } => valid_domino(min, max)
            && !play_would_overflow(s, min, max, min_matches),
        Command::PlayOther { min, max, min_matches } => valid_domino(min, max)
            && !play_would_overflow(s, min, max, min_matches),
    }
}

/// Whether the command succeeds on this state: every direct edit does, and a
/// play succeeds exactly when the move is legal.
pub open spec fn command_accepted(s: GameState, cmd: Command) -> bool {
    match cmd {
        Command::PlayFromHand { min, max, min_matches } => play_accepted(
            s,
            min,
            max,
            min_matches,
        ),
        Command::PlayOther { min, max, min_matches } => play_accepted(s, min, max, min_matches),
        _ => true,
    }
}

/// How a successful command transforms the state: the post-state relation of
/// the operation it names.
pub open spec fn command_post(pre: GameState, post: GameState, cmd: Command) -> bool {
    match cmd {
        Command::TogglePlayed { min, max } => toggle_played_post(pre, post, min, max),
        Command::SetDoubleActive { active } => set_double_active_post(pre, post, active),
        Command::EditDouble { pips, count, first } => edit_double_post(
            pre,
            post,
            pips,
            count,
            first,
        ),
        Command::StartGame => start_game_post(pre, post),
        Command::SetEndpoint { pips, count } => set_endpoint_post(pre, post, pips, count),
        Command::AddToHand { min, max } => add_to_hand_post(pre, post, min, max),
        Command::RemoveFromHand { min, max } => remove_from_hand_post(pre, post, min, max),
        Command::PlayFromHand { min, max, min_matches } => play_from_hand_post(
            pre,
            post,
            min,
            max,
            min_matches,
        ),
        Command::PlayOther { min, max, min_matches } => play_post(pre, post, min, max, min_matches)
            && post.hand == pre.hand,
    }
}

/// Apply one command. On success the state it found is pushed as a snapshot,
/// so one `undo` reverses the command exactly; on failure both the state and
/// the history are untouched.
pub fn apply(state: &mut GameState, history: &mut HistoryStack, cmd: Command) -> (r: Result<
    (),
    PlayError,
>)
    requires
        command_enabled(*old(state), cmd),
    ensures
        r is Ok <==> command_accepted(*old(state), cmd),
        r is Ok ==> command_post(*old(state), *final(state), cmd) && final(history)@ == old(
            history,
        )@.push(*old(state)),
        r matches Err(e) ==> *final(state) == *old(state) && final(history)@ == old(history)@ && (
        match cmd {
            Command::PlayFromHand { min, max, min_matches } => e == play_error(
                *old(state),
                min,
                max,
                min_matches,
            ),
            Command::PlayOther { min, max, min_matches } => e == play_error(
                *old(state),
                min,
                max,
                min_matches,
            ),
            _ => false,
        }),
        old(state).wf() ==> final(state).wf(),
{
    let snapshot = *state;
    match cmd {
        Command::TogglePlayed { min, max } => {
            state.toggle_played(min, max);
            history.push(snapshot);
            Ok(())
        },
        Command::SetDoubleActive { active } => {
            state.set_double_active(active);
            history.push(snapshot);
            Ok(())
        },
        Command::EditDouble { pips, count, first } => {
            state.edit_double(pips, count, first);
            history.push(snapshot);
            Ok(())
        },
        Command::StartGame => {
            state.start_game();
            history.push(snapshot);
            Ok(())
        },
        Command::SetEndpoint { pips, count } => {
            state.set_endpoint(pips, count);
            history.push(snapshot);
            Ok(())
        },
        Command::AddToHand { min, max } => {
            state.add_to_hand(min, max);
            history.push(snapshot);
            Ok(())
        },
        Command::RemoveFromHand { min, max } => {
            state.remove_from_hand(min, max);
            history.push(snapshot);
            Ok(())
        },
        Command::PlayFromHand { min, max, min_matches } => {
            match state.play_from_hand(min, max, min_matches) {
                Ok(()) => {
                    history.push(snapshot);
                    Ok(())
                },
                Err(e) => Err(e),
            }
        },
        Command::PlayOther { min, max, min_matches } => {
            match state.play_other(min, max, min_matches) {
                Ok(()) => {
                    history.push(snapshot);
                    Ok(())
                },
                Err(e) => Err(e),
            }
        },
    }
}

} // verus!
