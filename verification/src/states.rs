//! The screen state, the game phase nested under it, and the scopes that
//! entities are tied to.

use vstd::prelude::*;

verus! {

/// Top-level application mode. Exactly one is active at a time.
#[derive(Clone, Copy, Debug, PartialEq, Eq, Hash, Structural)]
pub enum ScreenState {
    Title,
    InGame,
    Settings,
}

/// Sub-state of the in-game screen: whether turns advance.
#[derive(Clone, Copy, Debug, PartialEq, Eq, Hash, Structural)]
pub enum GamePhase {
    Running,
    GameOver,
    Paused,
}

/// The composed state: a screen, and a phase exactly under the in-game screen.
#[derive(Clone, Copy, Debug, PartialEq, Eq, Hash, Structural)]
pub enum AppState {
    Title,
    InGame(GamePhase),
    Settings,
}

/// What an entity's lifetime is tied to: it lives while the scope is active.
#[derive(Clone, Copy, Debug, PartialEq, Eq, Hash, Structural)]
pub enum Scope {
    Screen(ScreenState),
    Phase(GamePhase),
}

impl Default for ScreenState {
    fn default() -> (screen: ScreenState)
        ensures
            screen == ScreenState::Title,
    {
        ScreenState::Title
    }
}

impl Default for GamePhase {
    fn default() -> (phase: GamePhase)
        ensures
            phase == GamePhase::Running,
    {
        GamePhase::Running
    }
}

impl Default for AppState {
    fn default() -> (state: AppState)
        ensures
            state == AppState::Title,
    {
        AppState::Title
    }
}

impl ScreenState {
    /// The screen moves that exist: between the title and each of the other
    /// two screens, never directly between those two.
    pub open spec fn spec_can_move_to(self, target: ScreenState) -> bool {
        (self == ScreenState::Title && target != ScreenState::Title) || (self
            != ScreenState::Title && target == ScreenState::Title)
    }

    /// Whether a move from this screen to `target` exists.
    #[verifier::when_used_as_spec(spec_can_move_to)]
    pub fn can_move_to(self, target: ScreenState) -> (valid: bool)
        ensures
            valid == self.spec_can_move_to(target),
    {
        match (self, target) {
            (ScreenState::Title, ScreenState::InGame) => true,
            (ScreenState::Title, ScreenState::Settings) => true,
            (ScreenState::InGame, ScreenState::Title) => true,
            (ScreenState::Settings, ScreenState::Title) => true,
            _ => false,
        }
    }

    /// The composed state that entering this screen starts in: the in-game
    /// screen starts with the running phase.
    pub open spec fn spec_entry_state(self) -> AppState {
        match self {
            ScreenState::Title => AppState::Title,
            ScreenState::InGame => AppState::InGame(GamePhase::Running),
            ScreenState::Settings => AppState::Settings,
        }
    }

    /// The composed state that entering this screen starts in.
    #[verifier::when_used_as_spec(spec_entry_state)]
    pub fn entry_state(self) -> (state: AppState)
        ensures
            state == self.spec_entry_state(),
    {
        match self {
            ScreenState::Title => AppState::Title,
            ScreenState::InGame => AppState::InGame(GamePhase::Running),
            ScreenState::Settings => AppState::Settings,
        }
    }
}

impl GamePhase {
    /// The phase moves that exist: pausing and resuming a running game,
    /// ending a running game, and restarting an ended one.
    pub open spec fn spec_can_move_to(self, target: GamePhase) -> bool {
        match (self, target) {
            (GamePhase::Running, GamePhase::Paused) => true,
            (GamePhase::Paused, GamePhase::Running) => true,
            (GamePhase::Running, GamePhase::GameOver) => true,
            (GamePhase::GameOver, GamePhase::Running) => true,
            _ => false,
        }
    }

    /// Whether a move from this phase to `target` exists.
    #[verifier::when_used_as_spec(spec_can_move_to)]
    pub fn can_move_to(self, target: GamePhase) -> (valid: bool)
        ensures
            valid == self.spec_can_move_to(target),
    {
        match (self, target) {
            (GamePhase::Running, GamePhase::Paused) => true,
            (GamePhase::Paused, GamePhase::Running) => true,
            (GamePhase::Running, GamePhase::GameOver) => true,
            (GamePhase::GameOver, GamePhase::Running) => true,
            _ => false,
        }
    }
}

impl AppState {
    /// The active screen.
    pub open spec fn spec_screen(self) -> ScreenState {
        match self {
            AppState::Title => ScreenState::Title,
            AppState::InGame(_) => ScreenState::InGame,
            AppState::Settings => ScreenState::Settings,
        }
    }

    /// The active screen.
    #[verifier::when_used_as_spec(spec_screen)]
    pub fn screen(self) -> (screen: ScreenState)
        ensures
            screen == self.spec_screen(),
    {
        match self {
            AppState::Title => ScreenState::Title,
            AppState::InGame(_) => ScreenState::InGame,
            AppState::Settings => ScreenState::Settings,
        }
    }

    /// The active phase, if the game screen is active.
    pub open spec fn spec_phase(self) -> Option<GamePhase> {
        match self {
            AppState::InGame(phase) => Some(phase),
            _ => None,
        }
    }

    /// The active phase, if the game screen is active.
    #[verifier::when_used_as_spec(spec_phase)]
    pub fn phase(self) -> (phase: Option<GamePhase>)
        ensures
            phase == self.spec_phase(),
    {
        match self {
            AppState::InGame(phase) => Some(phase),
            _ => None,
        }
    }

    /// Whether `scope` is active in this state.
    pub open spec fn spec_has_scope(self, scope: Scope) -> bool {
        match scope {
            Scope::Screen(screen) => self.spec_screen() == screen,
            Scope::Phase(phase) => self.spec_phase() == Some(phase),
        }
    }

    /// Whether `scope` is active in this state.
    #[verifier::when_used_as_spec(spec_has_scope)]
    pub fn has_scope(self, scope: Scope) -> (active: bool)
        ensures
            active == self.spec_has_scope(scope),
    {
        match scope {
            Scope::Screen(screen) => self.screen() == screen,
            Scope::Phase(phase) => match self {
                AppState::InGame(current) => current == phase,
                _ => false,
            },
        }
    }

    /// The active scopes, the screen first and the phase under it after.
    pub open spec fn spec_scopes(self) -> Seq<Scope> {
        match self {
            AppState::InGame(phase) => seq![Scope::Screen(ScreenState::InGame), Scope::Phase(phase)],
            _ => seq![Scope::Screen(self.spec_screen())],
        }
    }

    /// The active scopes, the screen first and the phase under it after.
    pub fn scopes(self) -> (scopes: Vec<Scope>)
        ensures
            scopes@ == self.spec_scopes(),
    {
        let mut scopes: Vec<Scope> = Vec::new();
        scopes.push(Scope::Screen(self.screen()));
        if let AppState::InGame(phase) = self {
            scopes.push(Scope::Phase(phase));
        }
        scopes
    }

    /// Whether the turn driver and the board render sync run in this state:
    /// only while a game is running.
    pub open spec fn spec_turns_advance(self) -> bool {
        self == AppState::InGame(GamePhase::Running)
    }

    /// Whether the turn driver and the board render sync run in this state.
    #[verifier::when_used_as_spec(spec_turns_advance)]
    pub fn turns_advance(self) -> (runs: bool)
        ensures
            runs == self.spec_turns_advance(),
    {
        match self {
            AppState::InGame(GamePhase::Running) => true,
            _ => false,
        }
    }

    /// Whether the pause toggle is listened to in this state: in a game that
    /// is not over.
    pub open spec fn spec_pause_toggle_listens(self) -> bool {
        self == AppState::InGame(GamePhase::Running) || self == AppState::InGame(GamePhase::Paused)
    }

    /// Whether the pause toggle is listened to in this state.
    #[verifier::when_used_as_spec(spec_pause_toggle_listens)]
    pub fn pause_toggle_listens(self) -> (listens: bool)
        ensures
            listens == self.spec_pause_toggle_listens(),
    {
        match self {
            AppState::InGame(GamePhase::Running) => true,
            AppState::InGame(GamePhase::Paused) => true,
            _ => false,
        }
    }
}

/// The scopes that a move from `before` to `after` leaves, the phase before
/// the screen above it.
pub open spec fn exited_scopes(before: AppState, after: AppState) -> Seq<Scope> {
    let phase_part = match before.spec_phase() {
        Some(phase) if after.spec_phase() != Some(phase) => seq![Scope::Phase(phase)],
        _ => Seq::<Scope>::empty(),
    };
    let screen_part = if before.spec_screen() != after.spec_screen() {
        seq![Scope::Screen(before.spec_screen())]
    } else {
        Seq::<Scope>::empty()
    };
    phase_part + screen_part
}

/// The scopes that a move from `before` to `after` enters, the screen before
/// the phase under it.
pub open spec fn entered_scopes(before: AppState, after: AppState) -> Seq<Scope> {
    let screen_part = if before.spec_screen() != after.spec_screen() {
        seq![Scope::Screen(after.spec_screen())]
    } else {
        Seq::<Scope>::empty()
    };
    let phase_part = match after.spec_phase() {
        Some(phase) if before.spec_phase() != Some(phase) => seq![Scope::Phase(phase)],
        _ => Seq::<Scope>::empty(),
    };
    screen_part + phase_part
}

/// Whether a move from `before` to `after` leaves `scope`.
pub open spec fn leaves_scope(before: AppState, after: AppState, scope: Scope) -> bool {
    before.spec_has_scope(scope) && !after.spec_has_scope(scope)
}

/// A phase is defined exactly while the game screen is active.
pub proof fn law_phase_defined_iff_in_game(state: AppState)
    ensures
        state.phase().is_some() <==> state.screen() == ScreenState::InGame,
{
}

/// The scopes listed as left are exactly those active before and not after;
/// those listed as entered are exactly those active after and not before.
pub proof fn law_scope_lists_exact(before: AppState, after: AppState, scope: Scope)
    ensures
        exited_scopes(before, after).contains(scope) <==> leaves_scope(before, after, scope),
        entered_scopes(before, after).contains(scope) <==> leaves_scope(after, before, scope),
        before == after ==> exited_scopes(before, after).len() == 0 && entered_scopes(
            before,
            after,
        ).len() == 0,
{
    let exited = exited_scopes(before, after);
    let entered = entered_scopes(before, after);
    if leaves_scope(before, after, scope) {
        match scope {
            Scope::Phase(_) => {
                assert(exited[0] == scope);
            },
            Scope::Screen(_) => {
                assert(exited[exited.len() - 1] == scope);
            },
        }
    }
    if leaves_scope(after, before, scope) {
        match scope {
            Scope::Phase(_) => {
                assert(entered[entered.len() - 1] == scope);
            },
            Scope::Screen(_) => {
                assert(entered[0] == scope);
            },
        }
    }
}

} // verus!
