//! Which systems run in a tick, and which setup runs when a scope is
//! entered.

use crate::machine::{MachineModel, ScopedEntity, StateMachine};
use crate::states::{leaves_scope, AppState, GamePhase, Scope, ScreenState};
use crate::traces::law_destroyed_when_scope_left;
use vstd::prelude::*;

verus! {

/// A system whose running depends on the state.
#[derive(Clone, Copy, Debug, PartialEq, Eq, Hash, Structural)]
pub enum System {
    /// Listens to the pause key.
    TogglePause,
    /// The turn driver.
    TickGame,
    /// The board render sync.
    UpdateInGame,
    /// Refreshes the settings screen.
    UpdateSetting,
    /// Listens to the escape key on the settings screen.
    NextState,
}

/// The setup that runs when a scope is entered.
#[derive(Clone, Copy, Debug, PartialEq, Eq, Hash, Structural)]
pub enum SetupHandler {
    /// The title menu.
    TitleUi,
    /// The session is reset and the board with its grid is spawned.
    InGameUi,
    /// The pause menu.
    PauseMenu,
    /// The result of the game and the game-over menu.
    GameOverUi,
}

/// The systems that run in a tick in `state`, in order: the turn driver and
/// after it the board render sync only while a game is running, the pause
/// key in a game that is not over, the settings systems on the settings
/// screen.
pub open spec fn systems_of(state: AppState) -> Seq<System> {
    match state {
        AppState::InGame(GamePhase::Running) => seq![
            System::TogglePause,
            System::TickGame,
            System::UpdateInGame,
        ],
        AppState::InGame(GamePhase::Paused) => seq![System::TogglePause],
        AppState::Settings => seq![System::UpdateSetting, System::NextState],
        _ => Seq::empty(),
    }
}

/// The setup that is registered for a scope, if any.
pub open spec fn spec_setup_handler(scope: Scope) -> Option<SetupHandler> {
    match scope {
        Scope::Screen(ScreenState::Title) => Some(SetupHandler::TitleUi),
        Scope::Screen(ScreenState::InGame) => Some(SetupHandler::InGameUi),
        Scope::Phase(GamePhase::Paused) => Some(SetupHandler::PauseMenu),
        Scope::Phase(GamePhase::GameOver) => Some(SetupHandler::GameOverUi),
        _ => None,
    }
}

impl SetupHandler {
    /// The scope that everything the setup creates is tied to: the root it
    /// spawns lives while that scope is active.
    pub open spec fn spec_scope(self) -> Scope {
        match self {
            SetupHandler::TitleUi => Scope::Screen(ScreenState::Title),
            SetupHandler::InGameUi => Scope::Screen(ScreenState::InGame),
            SetupHandler::PauseMenu => Scope::Phase(GamePhase::Paused),
            SetupHandler::GameOverUi => Scope::Phase(GamePhase::GameOver),
        }
    }

    /// The scope that everything the setup creates is tied to.
    #[verifier::when_used_as_spec(spec_scope)]
    pub fn scope(self) -> (scope: Scope)
        ensures
            scope == self.spec_scope(),
    {
        match self {
            SetupHandler::TitleUi => Scope::Screen(ScreenState::Title),
            SetupHandler::InGameUi => Scope::Screen(ScreenState::InGame),
            SetupHandler::PauseMenu => Scope::Phase(GamePhase::Paused),
            SetupHandler::GameOverUi => Scope::Phase(GamePhase::GameOver),
        }
    }
}

/// Ties the root that a setup spawned to the scope of that setup, so that
/// the root, and with it everything under it, is destroyed when that scope
/// is left. Returns whether the root was registered: the scope of the setup
/// must be active, as it is when the setup runs for a scope just entered.
pub fn register_root(machine: &mut StateMachine, handler: SetupHandler, root: u64) -> (registered:
    bool)
    requires
        old(machine).wf(),
    ensures
        final(machine).wf(),
        registered == old(machine)@.state.has_scope(handler.scope()),
        final(machine)@ == old(machine)@.spawn(handler.scope(), root),
{
    machine.spawn_scoped(handler.scope(), root)
}

/// The systems that run in a tick in `state`, in order.
pub fn systems_in(state: AppState) -> (systems: Vec<System>)
    ensures
        systems@ == systems_of(state),
{
    let mut systems: Vec<System> = Vec::new();
    match state {
        AppState::InGame(GamePhase::Running) => {
            systems.push(System::TogglePause);
            systems.push(System::TickGame);
            systems.push(System::UpdateInGame);
        },
        AppState::InGame(GamePhase::Paused) => {
            systems.push(System::TogglePause);
        },
        AppState::Settings => {
            systems.push(System::UpdateSetting);
            systems.push(System::NextState);
        },
        _ => {},
    }
    assert(systems@ =~= systems_of(state));
    systems
}

/// The setup that is registered for a scope, if any.
#[verifier::when_used_as_spec(spec_setup_handler)]
pub fn setup_handler(scope: Scope) -> (handler: Option<SetupHandler>)
    ensures
        handler == spec_setup_handler(scope),
{
    match scope {
        Scope::Screen(ScreenState::Title) => Some(SetupHandler::TitleUi),
        Scope::Screen(ScreenState::InGame) => Some(SetupHandler::InGameUi),
        Scope::Phase(GamePhase::Paused) => Some(SetupHandler::PauseMenu),
        Scope::Phase(GamePhase::GameOver) => Some(SetupHandler::GameOverUi),
        _ => None,
    }
}

/// The turn driver and the board render sync run exactly while a game is
/// running, the sync right after the driver; the pause key is listened to
/// exactly in a game that is not over.
pub proof fn law_turn_systems_only_while_running(state: AppState)
    ensures
        systems_of(state).contains(System::TickGame) <==> state.turns_advance(),
        systems_of(state).contains(System::UpdateInGame) <==> state.turns_advance(),
        systems_of(state).contains(System::TogglePause) <==> state.pause_toggle_listens(),
        state.turns_advance() ==> systems_of(state)[1] == System::TickGame && systems_of(state)[2]
            == System::UpdateInGame,
{
    let systems = systems_of(state);
    if state.turns_advance() {
        assert(systems[0] == System::TogglePause);
        assert(systems[1] == System::TickGame);
        assert(systems[2] == System::UpdateInGame);
    } else if state.pause_toggle_listens() {
        assert(systems[0] == System::TogglePause);
    }
}

/// A setup is registered for the scope that its root is tied to, and for no
/// other: the root of a setup lives exactly as long as the scope whose
/// entering ran the setup.
pub proof fn law_setup_is_tied_to_its_scope(handler: SetupHandler, scope: Scope)
    ensures
        setup_handler(handler.scope()) == Some(handler),
        setup_handler(scope) == Some(handler) ==> scope == handler.scope(),
{
}

/// The root of a setup that ran for a scope just entered is registered, is
/// alive while that scope stays active, and is destroyed by the application
/// that leaves the scope.
pub proof fn law_root_lives_with_its_scope(
    machine: MachineModel,
    handler: SetupHandler,
    root: u64,
)
    requires
        machine.wf(),
        machine.state.has_scope(handler.scope()),
    ensures
        ({
            let entity = ScopedEntity { scope: handler.scope(), id: root };
            let registered = machine.spawn(handler.scope(), root);
            &&& registered.wf()
            &&& registered.entities.contains(entity)
            &&& registered.despawned().contains(entity) <==> leaves_scope(
                registered.state,
                registered.target_state(),
                handler.scope(),
            )
            &&& registered.apply().entities.contains(entity) <==> !leaves_scope(
                registered.state,
                registered.target_state(),
                handler.scope(),
            )
        }),
{
    let entity = ScopedEntity { scope: handler.scope(), id: root };
    let registered = machine.spawn(handler.scope(), root);
    assert(registered.entities[machine.entities.len() as int] == entity);
    law_destroyed_when_scope_left(registered, entity);
}

} // verus!
