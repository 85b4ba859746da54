//! What each input asks of the state machine. A handler only records a
//! request: the machine applies it between ticks.

use crate::machine::StateMachine;
use crate::states::{AppState, GamePhase, ScreenState};
use vstd::prelude::*;

verus! {

/// What a handler leaves to the caller to do outside the state machine.
#[derive(Clone, Copy, Debug, PartialEq, Eq, Hash, Structural)]
pub enum Effect {
    /// Nothing.
    Nothing,
    /// Return the session to its initial empty board.
    ResetSession,
    /// Ask every window to close.
    CloseWindows,
}

/// "Game Start" on the title screen: asks for the game screen.
pub fn on_game_start(machine: &mut StateMachine)
    requires
        old(machine).wf(),
    ensures
        final(machine).wf(),
        final(machine)@ == old(machine)@.request_screen(ScreenState::InGame),
{
    machine.request_screen(ScreenState::InGame);
}

/// "Settings" on the title screen: asks for the settings screen.
pub fn on_settings(machine: &mut StateMachine)
    requires
        old(machine).wf(),
    ensures
        final(machine).wf(),
        final(machine)@ == old(machine)@.request_screen(ScreenState::Settings),
{
    machine.request_screen(ScreenState::Settings);
}

/// "Back To Title" in the pause menu and on the game-over screen: asks for
/// the title screen.
pub fn on_back_to_title(machine: &mut StateMachine)
    requires
        old(machine).wf(),
    ensures
        final(machine).wf(),
        final(machine)@ == old(machine)@.request_screen(ScreenState::Title),
{
    machine.request_screen(ScreenState::Title);
}

/// "Resume" in the pause menu: while the game is paused the running phase
/// is asked for. In any other state nothing is asked: a game that is over
/// runs again only by a reset.
pub fn on_resume(machine: &mut StateMachine)
    requires
        old(machine).wf(),
    ensures
        final(machine).wf(),
        final(machine)@ == if old(machine)@.state == AppState::InGame(GamePhase::Paused) {
            old(machine)@.request_phase(GamePhase::Running)
        } else {
            old(machine)@
        },
{
    match machine.state() {
        AppState::InGame(GamePhase::Paused) => {
            machine.request_phase(GamePhase::Running);
        },
        _ => {},
    }
}

/// "Reset" on the game-over screen: while the game is over the session is
/// reset at once and the running phase is asked for. In any other state
/// nothing is asked and the session is left alone.
pub fn on_reset_game(machine: &mut StateMachine) -> (effect: Effect)
    requires
        old(machine).wf(),
    ensures
        final(machine).wf(),
        final(machine)@ == if old(machine)@.state == AppState::InGame(GamePhase::GameOver) {
            old(machine)@.request_phase(GamePhase::Running)
        } else {
            old(machine)@
        },
        effect == if old(machine)@.state == AppState::InGame(GamePhase::GameOver) {
            Effect::ResetSession
        } else {
            Effect::Nothing
        },
{
    match machine.state() {
        AppState::InGame(GamePhase::GameOver) => {
            machine.request_phase(GamePhase::Running);
            Effect::ResetSession
        },
        _ => Effect::Nothing,
    }
}

/// "Exit" on the title screen: every window is asked to close. The state
/// machine is not involved.
pub fn on_exit() -> (effect: Effect)
    ensures
        effect == Effect::CloseWindows,
{
    Effect::CloseWindows
}

/// The pause key during a game. When it was pressed in this tick, a paused
/// game asks to run and any other phase asks to pause; the machine refuses
/// the latter once the game is over, and also once the end of the running
/// game is on record, whichever of the two was handled first. When it was
/// not pressed nothing is asked.
pub fn toggle_pause(escape_pressed: bool, machine: &mut StateMachine)
    requires
        old(machine).wf(),
    ensures
        final(machine).wf(),
        final(machine)@ == if !escape_pressed {
            old(machine)@
        } else if old(machine)@.state.phase() == Some(GamePhase::Paused) {
            old(machine)@.request_phase(GamePhase::Running)
        } else {
            old(machine)@.request_phase(GamePhase::Paused)
        },
{
    if escape_pressed {
        match machine.phase() {
            Some(GamePhase::Paused) => {
                machine.request_phase(GamePhase::Running);
            },
            _ => {
                machine.request_phase(GamePhase::Paused);
            },
        }
    }
}

/// The escape key on the settings screen: when it was pressed in this tick
/// the title screen is asked for.
pub fn next_state(escape_pressed: bool, machine: &mut StateMachine)
    requires
        old(machine).wf(),
    ensures
        final(machine).wf(),
        final(machine)@ == if escape_pressed {
            old(machine)@.request_screen(ScreenState::Title)
        } else {
            old(machine)@
        },
{
    if escape_pressed {
        machine.request_screen(ScreenState::Title);
    }
}

/// The end of a turn driver tick: `can_continue` is what the rules engine
/// answered when the move was applied. When the game cannot continue the
/// game-over phase is asked for; otherwise nothing is asked.
pub fn on_move_applied(can_continue: bool, machine: &mut StateMachine)
    requires
        old(machine).wf(),
    ensures
        final(machine).wf(),
        final(machine)@ == if can_continue {
            old(machine)@
        } else {
            old(machine)@.request_phase(GamePhase::GameOver)
        },
{
    if !can_continue {
        machine.request_phase(GamePhase::GameOver);
    }
}

} // verus!
