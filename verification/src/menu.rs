//! The buttons of the menus, the scopes that show them, and what pressing
//! one asks for.

use crate::handlers::{
    on_back_to_title, on_exit, on_game_start, on_reset_game, on_resume, on_settings, Effect,
};
use crate::machine::{MachineModel, StateMachine};
use crate::states::{AppState, GamePhase, Scope, ScreenState};
use vstd::prelude::*;

verus! {

/// A button of one of the menus.
#[derive(Clone, Copy, Debug, PartialEq, Eq, Hash, Structural)]
pub enum MenuButton {
    GameStart,
    Settings,
    Exit,
    Resume,
    BackToTitle,
    Reset,
}

/// The buttons that a scope shows, top to bottom.
pub open spec fn menu_of(scope: Scope) -> Seq<MenuButton> {
    match scope {
        Scope::Screen(ScreenState::Title) => seq![
            MenuButton::GameStart,
            MenuButton::Settings,
            MenuButton::Exit,
        ],
        Scope::Phase(GamePhase::Paused) => seq![MenuButton::Resume, MenuButton::BackToTitle],
        Scope::Phase(GamePhase::GameOver) => seq![MenuButton::Reset, MenuButton::BackToTitle],
        _ => Seq::empty(),
    }
}

impl MenuButton {
    /// The text on the button.
    pub open spec fn spec_label(self) -> Seq<char> {
        match self {
            MenuButton::GameStart => "Game Start"@,
            MenuButton::Settings => "Settings"@,
            MenuButton::Exit => "Exit"@,
            MenuButton::Resume => "Resume"@,
            MenuButton::BackToTitle => "Back To Title"@,
            MenuButton::Reset => "Reset"@,
        }
    }

    /// The text on the button.
    pub fn label(self) -> (label: &'static str)
        ensures
            label@ == self.spec_label(),
    {
        match self {
            MenuButton::GameStart => "Game Start",
            MenuButton::Settings => "Settings",
            MenuButton::Exit => "Exit",
            MenuButton::Resume => "Resume",
            MenuButton::BackToTitle => "Back To Title",
            MenuButton::Reset => "Reset",
        }
    }

    /// Whether the button exists in `state`: a button lives in the menu of
    /// an active scope.
    pub open spec fn spec_shown_in(self, state: AppState) -> bool {
        match self {
            MenuButton::GameStart | MenuButton::Settings | MenuButton::Exit => state
                == AppState::Title,
            MenuButton::Resume => state == AppState::InGame(GamePhase::Paused),
            MenuButton::BackToTitle => state == AppState::InGame(GamePhase::Paused) || state
                == AppState::InGame(GamePhase::GameOver),
            MenuButton::Reset => state == AppState::InGame(GamePhase::GameOver),
        }
    }

    /// Whether the button exists in `state`.
    #[verifier::when_used_as_spec(spec_shown_in)]
    pub fn shown_in(self, state: AppState) -> (shown: bool)
        ensures
            shown == self.spec_shown_in(state),
    {
        match (self, state) {
            (MenuButton::GameStart, AppState::Title) => true,
            (MenuButton::Settings, AppState::Title) => true,
            (MenuButton::Exit, AppState::Title) => true,
            (MenuButton::Resume, AppState::InGame(GamePhase::Paused)) => true,
            (MenuButton::BackToTitle, AppState::InGame(GamePhase::Paused)) => true,
            (MenuButton::BackToTitle, AppState::InGame(GamePhase::GameOver)) => true,
            (MenuButton::Reset, AppState::InGame(GamePhase::GameOver)) => true,
            _ => false,
        }
    }

    /// What pressing the button asks of the machine.
    pub open spec fn pressed(self, machine: MachineModel) -> MachineModel {
        if !self.spec_shown_in(machine.state) {
            machine
        } else {
            match self {
                MenuButton::GameStart => machine.request_screen(ScreenState::InGame),
                MenuButton::Settings => machine.request_screen(ScreenState::Settings),
                MenuButton::Exit => machine,
                MenuButton::Resume => machine.request_phase(GamePhase::Running),
                MenuButton::BackToTitle => machine.request_screen(ScreenState::Title),
                MenuButton::Reset => machine.request_phase(GamePhase::Running),
            }
        }
    }

    /// What pressing the button in `state` leaves to the caller.
    pub open spec fn effect(self, state: AppState) -> Effect {
        if !self.spec_shown_in(state) {
            Effect::Nothing
        } else {
            match self {
                MenuButton::Exit => Effect::CloseWindows,
                MenuButton::Reset => Effect::ResetSession,
                _ => Effect::Nothing,
            }
        }
    }
}

/// The buttons that a scope shows, top to bottom.
pub fn menu_buttons(scope: Scope) -> (buttons: Vec<MenuButton>)
    ensures
        buttons@ == menu_of(scope),
{
    let mut buttons: Vec<MenuButton> = Vec::new();
    match scope {
        Scope::Screen(ScreenState::Title) => {
            buttons.push(MenuButton::GameStart);
            buttons.push(MenuButton::Settings);
            buttons.push(MenuButton::Exit);
        },
        Scope::Phase(GamePhase::Paused) => {
            buttons.push(MenuButton::Resume);
            buttons.push(MenuButton::BackToTitle);
        },
        Scope::Phase(GamePhase::GameOver) => {
            buttons.push(MenuButton::Reset);
            buttons.push(MenuButton::BackToTitle);
        },
        _ => {},
    }
    assert(buttons@ =~= menu_of(scope));
    buttons
}

/// A click on a menu button. A button that the current state does not show
/// does nothing. Otherwise the button's request is recorded with the
/// machine, and the caller is told what is left to do outside it.
pub fn on_button_clicked(button: MenuButton, machine: &mut StateMachine) -> (effect: Effect)
    requires
        old(machine).wf(),
    ensures
        final(machine).wf(),
        final(machine)@ == button.pressed(old(machine)@),
        effect == button.effect(old(machine)@.state),
{
    if !button.shown_in(machine.state()) {
        return Effect::Nothing;
    }
    match button {
        MenuButton::GameStart => {
            on_game_start(machine);
            Effect::Nothing
        },
        MenuButton::Settings => {
            on_settings(machine);
            Effect::Nothing
        },
        MenuButton::Exit => on_exit(),
        MenuButton::Resume => {
            on_resume(machine);
            Effect::Nothing
        },
        MenuButton::BackToTitle => {
            on_back_to_title(machine);
            Effect::Nothing
        },
        MenuButton::Reset => on_reset_game(machine),
    }
}

/// A button exists in a state exactly when the menu of a scope that is
/// active in that state holds it.
pub proof fn law_buttons_live_in_their_menu(button: MenuButton, state: AppState)
    ensures
        button.shown_in(state) <==> exists|scope: Scope|
            state.has_scope(scope) && #[trigger] menu_of(scope).contains(button),
{
    if button.shown_in(state) {
        let scope = match state {
            AppState::InGame(phase) => Scope::Phase(phase),
            _ => Scope::Screen(state.screen()),
        };
        let menu = menu_of(scope);
        match button {
            MenuButton::GameStart => {
                assert(menu[0] == button);
            },
            MenuButton::Settings => {
                assert(menu[1] == button);
            },
            MenuButton::Exit => {
                assert(menu[2] == button);
            },
            MenuButton::Resume => {
                assert(menu[0] == button);
            },
            MenuButton::BackToTitle => {
                assert(menu[1] == button);
            },
            MenuButton::Reset => {
                assert(menu[0] == button);
            },
        }
        assert(state.has_scope(scope) && menu_of(scope).contains(button));
    }
}

/// Every request that a shown button makes is one that the machine takes:
/// pressing a button that exists is never refused.
pub proof fn law_shown_button_is_taken(button: MenuButton, machine: MachineModel)
    requires
        button.shown_in(machine.state),
    ensures
        match button {
            MenuButton::GameStart => button.pressed(machine).next_screen == Some(
                ScreenState::InGame,
            ),
            MenuButton::Settings => button.pressed(machine).next_screen == Some(
                ScreenState::Settings,
            ),
            MenuButton::BackToTitle => button.pressed(machine).next_screen == Some(
                ScreenState::Title,
            ),
            MenuButton::Resume | MenuButton::Reset => button.pressed(machine).next_phase == Some(
                GamePhase::Running,
            ),
            MenuButton::Exit => button.pressed(machine) == machine,
        },
{
}

} // verus!
