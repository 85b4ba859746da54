//! The turn driver: which move is attempted in a tick, and whose turn it is.

use crate::stone::Stone;
use vstd::prelude::*;

verus! {

/// The move that a tick attempts.
#[derive(Clone, Copy, Debug, PartialEq, Eq, Hash, Structural)]
pub enum MoveChoice {
    /// A pass for the given player: no legal move exists.
    Pass(Stone),
    /// The legal move at the given position of the list that the rules
    /// engine returned.
    Play(usize),
}

/// The local state of the turn driver: the turn marker.
#[derive(Clone, Copy, Debug, PartialEq, Eq, Hash, Structural)]
pub struct TurnDriver {
    turn: Stone,
}

/// The move chosen for `turn` among `legal_moves` legal moves when the random
/// source gave `random`: a pass when there is no legal move, and otherwise
/// the move at the position that `random` is reduced to.
pub open spec fn chosen_move(turn: Stone, legal_moves: usize, random: u64) -> MoveChoice {
    if legal_moves == 0 {
        MoveChoice::Pass(turn)
    } else {
        MoveChoice::Play(((random as usize) % legal_moves) as usize)
    }
}

/// The turn marker after `ticks` ticks, starting from `initial`.
pub open spec fn marker_after(initial: Stone, ticks: nat) -> Stone
    decreases ticks,
{
    if ticks == 0 {
        initial
    } else {
        marker_after(initial, (ticks - 1) as nat).opposite()
    }
}

/// A random number from the generator of the current thread.
///
/// Calls `rand::random::<u64>()`. Nothing is claimed of the number: every
/// `u64` may come back, and two calls may differ.
#[verifier::external_body]
fn random_u64() -> u64 {
    rand::random::<u64>()
}

/// Chooses the move for `turn` among `legal_moves` legal moves, given the
/// number that the random source gave.
pub fn choose_move(turn: Stone, legal_moves: usize, random: u64) -> (choice: MoveChoice)
    ensures
        choice == chosen_move(turn, legal_moves, random),
        legal_moves == 0 ==> choice == MoveChoice::Pass(turn),
        legal_moves > 0 ==> (choice matches MoveChoice::Play(index) && index < legal_moves),
{
    if legal_moves == 0 {
        MoveChoice::Pass(turn)
    } else {
        MoveChoice::Play((random as usize) % legal_moves)
    }
}

impl TurnDriver {
    /// A driver whose first tick moves for `first`.
    pub fn new(first: Stone) -> (driver: TurnDriver)
        ensures
            driver.turn() == first,
    {
        TurnDriver { turn: first }
    }

    /// The turn marker: the player for whom the next tick moves.
    pub closed spec fn spec_turn(&self) -> Stone {
        self.turn
    }

    /// The turn marker: the player for whom the next tick moves.
    #[verifier::when_used_as_spec(spec_turn)]
    pub fn turn(&self) -> (turn: Stone)
        ensures
            turn == self.spec_turn(),
    {
        self.turn
    }
}

/// One tick of the turn driver, between asking the rules engine for the
/// legal moves of the player at turn and applying the move. `legal_moves` is
/// the length of the list that the engine returned. With no legal move the
/// choice is a pass for that player, never nothing; otherwise it is one of
/// the listed moves, picked with a fresh random number. The turn marker flips
/// in every tick, before the move is applied and whatever its outcome.
pub fn tick_game(driver: &mut TurnDriver, legal_moves: usize) -> (choice: MoveChoice)
    ensures
        final(driver).turn() == old(driver).turn().opposite(),
        legal_moves == 0 ==> choice == MoveChoice::Pass(old(driver).turn()),
        legal_moves > 0 ==> (choice matches MoveChoice::Play(index) && index < legal_moves),
{
    let turn = driver.turn;
    let choice = if legal_moves == 0 {
        MoveChoice::Pass(turn)
    } else {
        choose_move(turn, legal_moves, random_u64())
    };
    driver.turn = turn.opposite();
    choice
}

/// With no legal move the chosen move is a pass for the player at turn,
/// whatever the random source gives.
pub proof fn law_no_legal_move_is_pass(turn: Stone, random: u64)
    ensures
        chosen_move(turn, 0, random) == MoveChoice::Pass(turn),
{
}

/// The turn marker alternates strictly: after an even number of ticks it is
/// the initial player, after an odd number the other one.
pub proof fn law_marker_alternates(initial: Stone, ticks: nat)
    ensures
        marker_after(initial, ticks) == if ticks % 2 == 0 {
            initial
        } else {
            initial.opposite()
        },
    decreases ticks,
{
    if ticks > 0 {
        law_marker_alternates(initial, (ticks - 1) as nat);
    }
}

/// One tick moves the marker by one step of `marker_after`, so `ticks` more
/// ticks from a marker that is `done` ticks from `initial` end at
/// `marker_after(initial, done + ticks)`.
pub proof fn law_marker_composes(initial: Stone, done: nat, ticks: nat)
    ensures
        marker_after(marker_after(initial, done), ticks) == marker_after(initial, done + ticks),
    decreases ticks,
{
    if ticks > 0 {
        law_marker_composes(initial, done, (ticks - 1) as nat);
    }
}

} // verus!
