//! The chickenfoot move state machine.

use vstd::prelude::*;
use crate::dominoes::DominoSet;
use crate::dominoes::PIP_MAX;
use crate::dominoes::valid_domino;
use crate::dominoes::with_domino;
use crate::dominoes::without_domino;
use crate::dominoes::toggled_domino;

verus! {

/// A double domino currently occupying the board's open slot: its pip value,
/// how many arms have been played onto it, and whether it is the
/// game-opening double (which needs four arms instead of three).
#[derive(Clone, Copy, PartialEq, Eq, Structural, Debug)]
pub struct DoubleDomino {
    pub pips: u8,
    pub count: u8,
    pub first: bool,
}

impl DoubleDomino {
    /// Arms required before the branch is satisfied: four for the game's
    /// first double, three for a chickenfoot.
    pub open spec fn spec_max_count(self) -> u8 {
        if self.first {
            4
        } else {
            3
        }
    }

    /// The pip value fits on a domino half.
    pub open spec fn wf(self) -> bool {
        self.pips <= PIP_MAX
    }

    pub fn max_count(&self) -> (r: u8)
        ensures
            r == self.spec_max_count(),
    {
        if self.first {
            4
        } else {
            3
        }
    }
}

impl Default for DoubleDomino {
    /// A blank double: zero pips, no arms played, not the game opener.
    fn default() -> (r: DoubleDomino)
        ensures
            r == (DoubleDomino { pips: 0, count: 0, first: false }),
    {
        DoubleDomino { pips: 0, count: 0, first: false }
    }
}

/// Why a play was rejected. Every rejection leaves the state untouched.
#[derive(Clone, Copy, PartialEq, Eq, Structural, Debug)]
pub enum PlayError {
    /// The domino is already on the board.
    AlreadyPlayed,
    /// The play neither feeds an in-progress double nor consumes an open
    /// endpoint.
    InvalidMove,
}

/// The full tracked position: an optional in-progress double, the count of
/// open endpoints per pip value, the dominoes on the board, and the dominoes
/// in the acting player's hand.
///
/// The endpoint table is deliberately caller-maintained: direct edits
/// (`set_endpoint`, `toggle_played`) may desynchronize it from the dominoes
/// on the board, because the tool exists for manual correction. Nothing here
/// re-derives it.
#[derive(Clone, Copy, PartialEq, Eq, Debug)]
pub struct GameState {
    pub double: Option<DoubleDomino>,
    pub endpoints: [u8; 13],
    pub played: DominoSet,
    pub hand: DominoSet,
}

/// The pip value that must match the board: the end the domino is placed
/// with.
pub open spec fn matching_pip(min: u8, max: u8, min_matches: bool) -> u8 {
    if min_matches {
        min
    } else {
        max
    }
}

/// The pip value the domino exposes as a fresh endpoint: its far end.
pub open spec fn far_pip(min: u8, max: u8, min_matches: bool) -> u8 {
    if min_matches {
        max
    } else {
        min
    }
}

/// `play` succeeds exactly here: the domino is not on the board yet, and it
/// feeds the in-progress double if there is one, else it consumes an open
/// endpoint.
pub open spec fn play_accepted(s: GameState, min: u8, max: u8, min_matches: bool) -> bool {
    &&& !s.played.spec_has(min, max)
    &&& match s.double {
        Some(d) => matching_pip(min, max, min_matches) == d.pips,
        None => s.endpoints[matching_pip(min, max, min_matches) as int] > 0,
    }
}

/// The error a rejected play reports: `AlreadyPlayed` wins over
/// `InvalidMove`.
pub open spec fn play_error(s: GameState, min: u8, max: u8, min_matches: bool) -> PlayError {
    if s.played.spec_has(min, max) {
        PlayError::AlreadyPlayed
    } else {
        PlayError::InvalidMove
    }
}

/// An accepted play would run a `u8` counter past its top: an arm count or
/// an endpoint count at 255. The host keeps counts far below this; the
/// precondition only rules the machine limit out.
pub open spec fn play_would_overflow(s: GameState, min: u8, max: u8, min_matches: bool) -> bool {
    &&& play_accepted(s, min, max, min_matches)
    &&& match s.double {
        Some(d) => d.count == u8::MAX || s.endpoints[far_pip(min, max, min_matches) as int]
            == u8::MAX,
        None => min != max && s.endpoints[far_pip(min, max, min_matches) as int] == u8::MAX,
    }
}

/// How an accepted play transforms the board: the domino joins `played`, and
/// one of the three success branches updates `double` and `endpoints`. The
/// hand is not part of the board.
pub open spec fn play_post(pre: GameState, post: GameState, min: u8, max: u8, min_matches: bool) -> bool {
    let previous = matching_pip(min, max, min_matches);
    let next = far_pip(min, max, min_matches);
    &&& with_domino(pre.played, post.played, min, max)
    &&& match pre.double {
        Some(d) => {
            // Feeding the double: the arm opens a fresh endpoint at its far
            // end without consuming one, and the branch clears exactly when
            // the arm count reaches the required total.
            &&& post.endpoints@ == pre.endpoints@.update(
                next as int,
                (pre.endpoints[next as int] + 1) as u8,
            )
            &&& post.double == (if d.count + 1 >= d.spec_max_count() {
                None
            } else {
                Some(DoubleDomino { pips: d.pips, count: (d.count + 1) as u8, first: d.first })
            })
        },
        None => {
            if min == max {
                // Opening a chickenfoot: the double consumes an endpoint and
                // needs three arms before the board reopens.
                &&& post.endpoints@ == pre.endpoints@.update(
                    previous as int,
                    (pre.endpoints[previous as int] - 1) as u8,
                )
                &&& post.double == Some(DoubleDomino { pips: min, count: 0, first: false })
            } else {
                // Ordinary chain play: consume one endpoint, open another.
                &&& post.endpoints@ == pre.endpoints@.update(
                    previous as int,
                    (pre.endpoints[previous as int] - 1) as u8,
                ).update(next as int, (pre.endpoints@.update(
                    previous as int,
                    (pre.endpoints[previous as int] - 1) as u8,
                )[next as int] + 1) as u8)
                &&& post.double is None
            }
        },
    }
}

/// `toggle_played` flips one board membership and touches nothing else.
pub open spec fn toggle_played_post(pre: GameState, post: GameState, min: u8, max: u8) -> bool {
    &&& toggled_domino(pre.played, post.played, min, max)
    &&& post.double == pre.double
    &&& post.endpoints == pre.endpoints
    &&& post.hand == pre.hand
}

/// `set_double_active` installs a blank double or clears it, and touches
/// nothing else.
pub open spec fn set_double_active_post(pre: GameState, post: GameState, active: bool) -> bool {
    &&& post.double == (if active {
        Some(DoubleDomino { pips: 0, count: 0, first: false })
    } else {
        None
    })
    &&& post.endpoints == pre.endpoints
    &&& post.played == pre.played
    &&& post.hand == pre.hand
}

/// `edit_double` overwrites every field of the in-progress double and
/// touches nothing else.
pub open spec fn edit_double_post(
    pre: GameState,
    post: GameState,
    pips: u8,
    count: u8,
    first: bool,
) -> bool {
    &&& post.double == Some(DoubleDomino { pips, count, first })
    &&& post.endpoints == pre.endpoints
    &&& post.played == pre.played
    &&& post.hand == pre.hand
}

/// `start_game` resets the board to exactly the chosen first double, without
/// consuming or producing any endpoint count.
pub open spec fn start_game_post(pre: GameState, post: GameState) -> bool {
    &&& pre.double matches Some(d) ==> forall|i: u8, j: u8|
        valid_domino(i, j) ==> (#[trigger] post.played.spec_has(i, j) <==> (i == d.pips && j
            == d.pips))
    &&& post.double == pre.double
    &&& post.endpoints == pre.endpoints
    &&& post.hand == pre.hand
}

/// `set_endpoint` overwrites one endpoint counter and touches nothing else.
pub open spec fn set_endpoint_post(pre: GameState, post: GameState, pips: u8, count: u8) -> bool {
    &&& post.endpoints@ == pre.endpoints@.update(pips as int, count)
    &&& post.double == pre.double
    &&& post.played == pre.played
    &&& post.hand == pre.hand
}

/// `add_to_hand` inserts one hand membership and touches nothing else.
pub open spec fn add_to_hand_post(pre: GameState, post: GameState, min: u8, max: u8) -> bool {
    &&& with_domino(pre.hand, post.hand, min, max)
    &&& post.double == pre.double
    &&& post.endpoints == pre.endpoints
    &&& post.played == pre.played
}

/// `remove_from_hand` removes one hand membership and touches nothing else.
pub open spec fn remove_from_hand_post(pre: GameState, post: GameState, min: u8, max: u8) -> bool {
    &&& without_domino(pre.hand, post.hand, min, max)
    &&& post.double == pre.double
    &&& post.endpoints == pre.endpoints
    &&& post.played == pre.played
}

/// `play_from_hand` transforms the board as `play` does and additionally
/// drops the domino from the hand.
pub open spec fn play_from_hand_post(
    pre: GameState,
    post: GameState,
    min: u8,
    max: u8,
    min_matches: bool,
) -> bool {
    &&& play_post(pre, post, min, max, min_matches)
    &&& without_domino(pre.hand, post.hand, min, max)
}

impl GameState {
    /// The one internal invariant: an in-progress double carries a
    /// representable pip value.
    pub open spec fn wf(self) -> bool {
        self.double matches Some(d) ==> d.wf()
    }

    /// Play the domino `(min, max)`, its `min` end touching the board if
    /// `min_matches`. On `Err` the state is untouched.
    pub fn play(&mut self, min: u8, max: u8, min_matches: bool) -> (r: Result<(), PlayError>)
        requires
            valid_domino(min, max),
            !play_would_overflow(*old(self), min, max, min_matches),
        ensures
            r is Ok <==> play_accepted(*old(self), min, max, min_matches),
            r matches Err(e) ==> *final(self) == *old(self) && e == play_error(
                *old(self),
                min,
                max,
                min_matches,
            ),
            r is Ok ==> play_post(*old(self), *final(self), min, max, min_matches)
                && final(self).hand == old(self).hand,
            old(self).wf() ==> final(self).wf(),
    {
        if self.played.has(min, max) {
            return Err(PlayError::AlreadyPlayed);
        }
        let (previous, next) = if min_matches {
            (min, max)
        } else {
            (max, min)
        };

        match self.double {
            Some(d) => {
                // Play onto the in-progress double.
                if d.pips != previous {
                    return Err(PlayError::InvalidMove);
                }
                self.endpoints[next as usize] = self.endpoints[next as usize] + 1;
                let grown = d.count + 1;
                if grown >= d.max_count() {
                    self.double = None;
                } else {
                    self.double = Some(
                        DoubleDomino { pips: d.pips, count: grown, first: d.first },
                    );
                }
                self.played.add(min, max);
                Ok(())
            },
            None => {
                if min == max {
                    // Play a double: open a chickenfoot branch.
                    if self.endpoints[previous as usize] == 0 {
                        return Err(PlayError::InvalidMove);
                    }
                    self.endpoints[previous as usize] = self.endpoints[previous as usize] - 1;
                    self.double = Some(DoubleDomino { pips: min, count: 0, first: false });
                    self.played.add(min, max);
                    Ok(())
                } else {
                    // Ordinary chain play.
                    if self.endpoints[previous as usize] == 0 {
                        return Err(PlayError::InvalidMove);
                    }
                    self.endpoints[previous as usize] = self.endpoints[previous as usize] - 1;
                    self.endpoints[next as usize] = self.endpoints[next as usize] + 1;
                    self.played.add(min, max);
                    Ok(())
                }
            },
        }
    }

    /// `play`, for a domino not tracked in any hand.
    pub fn play_other(&mut self, min: u8, max: u8, min_matches: bool) -> (r: Result<(), PlayError>)
        requires
            valid_domino(min, max),
            !play_would_overflow(*old(self), min, max, min_matches),
        ensures
            r is Ok <==> play_accepted(*old(self), min, max, min_matches),
            r matches Err(e) ==> *final(self) == *old(self) && e == play_error(
                *old(self),
                min,
                max,
                min_matches,
            ),
            r is Ok ==> play_post(*old(self), *final(self), min, max, min_matches)
                && final(self).hand == old(self).hand,
            old(self).wf() ==> final(self).wf(),
    {
        self.play(min, max, min_matches)
    }

    /// `play`, and on success additionally remove the domino from the hand.
    pub fn play_from_hand(&mut self, min: u8, max: u8, min_matches: bool) -> (r: Result<
        (),
        PlayError,
    >)
        requires
            valid_domino(min, max),
            !play_would_overflow(*old(self), min, max, min_matches),
        ensures
            r is Ok <==> play_accepted(*old(self), min, max, min_matches),
            r matches Err(e) ==> *final(self) == *old(self) && e == play_error(
                *old(self),
                min,
                max,
                min_matches,
            ),
            r is Ok ==> play_from_hand_post(*old(self), *final(self), min, max, min_matches),
            old(self).wf() ==> final(self).wf(),
    {
        match self.play(min, max, min_matches) {
            Ok(()) => {
                self.hand.remove(min, max);
                Ok(())
            },
            Err(e) => Err(e),
        }
    }

    /// Start the session: reset the board to exactly the chosen first
    /// double. Valid only while the game-opening double is pending; it
    /// bypasses `play` on purpose, since the very first domino has no prior
    /// endpoint to consume.
    pub fn start_game(&mut self)
        requires
            old(self).wf(),
            old(self).double matches Some(d) && d.first,
        ensures
            start_game_post(*old(self), *final(self)),
            final(self).wf(),
    {
        let d = self.double.unwrap();
        self.played.clear();
        self.played.add(d.pips, d.pips);
    }

    /// Flip one board membership directly, bypassing `play` validation; used
    /// for manual correction.
    pub fn toggle_played(&mut self, min: u8, max: u8)
        requires
            valid_domino(min, max),
        ensures
            toggle_played_post(*old(self), *final(self), min, max),
            old(self).wf() ==> final(self).wf(),
    {
        self.played.toggle(min, max);
    }

    /// Install a blank double, or clear the pending one.
    pub fn set_double_active(&mut self, active: bool)
        ensures
            set_double_active_post(*old(self), *final(self), active),
            final(self).wf(),
    {
        self.double = if active {
            Some(DoubleDomino::default())
        } else {
            None
        };
    }

    /// Overwrite the fields of the in-progress double. The arm count is
    /// deliberately not validated against `max_count`: the host clamps it.
    pub fn edit_double(&mut self, pips: u8, count: u8, first: bool)
        requires
            old(self).double is Some,
            pips <= PIP_MAX,
        ensures
            edit_double_post(*old(self), *final(self), pips, count, first),
            final(self).wf(),
    {
        self.double = Some(DoubleDomino { pips, count, first });
    }

    /// Overwrite one endpoint counter directly; used for manual correction.
    pub fn set_endpoint(&mut self, pips: u8, count: u8)
        requires
            pips <= PIP_MAX,
            count <= PIP_MAX,
        ensures
            set_endpoint_post(*old(self), *final(self), pips, count),
            old(self).wf() ==> final(self).wf(),
    {
        self.endpoints[pips as usize] = count;
    }

    /// Add a drawn domino to the player's hand.
    pub fn add_to_hand(&mut self, min: u8, max: u8)
        requires
            valid_domino(min, max),
        ensures
            add_to_hand_post(*old(self), *final(self), min, max),
            old(self).wf() ==> final(self).wf(),
    {
        self.hand.add(min, max);
    }

    /// Discard a domino from the player's hand.
    pub fn remove_from_hand(&mut self, min: u8, max: u8)
        requires
            valid_domino(min, max),
        ensures
            remove_from_hand_post(*old(self), *final(self), min, max),
            old(self).wf() ==> final(self).wf(),
    {
        self.hand.remove(min, max);
    }
}

impl Default for GameState {
    /// The fresh session: waiting for the very first double to be chosen and
    /// started.
    fn default() -> (r: GameState)
        ensures
            r.double == Some(DoubleDomino { pips: 0, count: 0, first: true }),
            forall|p: int| 0 <= p < 13 ==> (#[trigger] r.endpoints[p]) == 0,
            forall|i: u8, j: u8| valid_domino(i, j) ==> !(#[trigger] r.played.spec_has(i, j)),
            forall|i: u8, j: u8| valid_domino(i, j) ==> !(#[trigger] r.hand.spec_has(i, j)),
            r.wf(),
    {
        GameState {
            double: Some(DoubleDomino { pips: 0, count: 0, first: true }),
            endpoints: [0u8; 13],
            played: DominoSet::new(),
            hand: DominoSet::new(),
        }
    }
}

} // verus!
