//! The layered state machine: transition requests are recorded during a tick
//! and applied between ticks, and entities tied to a scope are destroyed when
//! the scope is left.

use crate::states::{
    entered_scopes, exited_scopes, leaves_scope, AppState, GamePhase, Scope, ScreenState,
};
use vstd::prelude::*;

verus! {

/// An entity together with the scope that its lifetime is tied to.
#[derive(Clone, Copy, Debug, PartialEq, Eq, Hash, Structural)]
pub struct ScopedEntity {
    pub scope: Scope,
    pub id: u64,
}

/// The mathematical state of the machine.
pub struct MachineModel {
    /// The state that systems observe during the current tick.
    pub state: AppState,
    /// The screen asked for since the last application, if any.
    pub next_screen: Option<ScreenState>,
    /// The phase asked for since the last application, if any.
    pub next_phase: Option<GamePhase>,
    /// The living scoped entities, in the order they were spawned.
    pub entities: Seq<ScopedEntity>,
}

/// The entities that a move from `before` to `after` destroys.
pub open spec fn leaving(before: AppState, after: AppState) -> spec_fn(ScopedEntity) -> bool {
    |entity: ScopedEntity| leaves_scope(before, after, entity.scope)
}

/// The entities that a move from `before` to `after` keeps.
pub open spec fn staying(before: AppState, after: AppState) -> spec_fn(ScopedEntity) -> bool {
    |entity: ScopedEntity| !leaves_scope(before, after, entity.scope)
}

impl MachineModel {
    /// The machine at startup: the title screen, nothing asked for, no
    /// entities.
    pub open spec fn initial() -> MachineModel {
        MachineModel {
            state: AppState::Title,
            next_screen: None,
            next_phase: None,
            entities: Seq::empty(),
        }
    }

    /// A request for `target` is taken if it names the active screen or a
    /// screen that the active one can move to.
    pub open spec fn accepts_screen(self, target: ScreenState) -> bool {
        target == self.state.screen() || self.state.screen().can_move_to(target)
    }

    /// Whether the end of a running game is on record: the game runs and
    /// the game-over phase was asked for since the last application.
    pub open spec fn end_recorded(self) -> bool {
        self.state == AppState::InGame(GamePhase::Running) && self.next_phase == Some(
            GamePhase::GameOver,
        )
    }

    /// A request for `target` is taken if a phase is active and `target` is
    /// that phase or one that it can move to. While the end of a running
    /// game is on record, only the game-over phase is taken, so that the end
    /// is not lost to a later request of the same tick.
    pub open spec fn accepts_phase(self, target: GamePhase) -> bool {
        match self.state.phase() {
            Some(phase) => (target == phase || phase.can_move_to(target)) && (self.end_recorded()
                ==> target == GamePhase::GameOver),
            None => false,
        }
    }

    /// Every recorded request is one that the current state takes, and every
    /// living entity is tied to an active scope.
    pub open spec fn wf(self) -> bool {
        &&& self.next_screen matches Some(target) ==> self.accepts_screen(target)
        &&& self.next_phase matches Some(target) ==> self.accepts_phase(target)
        &&& forall|i: int|
            0 <= i < self.entities.len() ==> self.state.has_scope(
                (#[trigger] self.entities[i]).scope,
            )
    }

    /// Records a request for a screen; the last request taken wins.
    pub open spec fn request_screen(self, target: ScreenState) -> MachineModel {
        if self.accepts_screen(target) {
            MachineModel { next_screen: Some(target), ..self }
        } else {
            self
        }
    }

    /// Records a request for a phase; the last request taken wins, and
    /// nothing is taken in place of the end of a running game.
    pub open spec fn request_phase(self, target: GamePhase) -> MachineModel {
        if self.accepts_phase(target) {
            MachineModel { next_phase: Some(target), ..self }
        } else {
            self
        }
    }

    /// Registers an entity under an active scope; for an inactive scope
    /// nothing is registered.
    pub open spec fn spawn(self, scope: Scope, id: u64) -> MachineModel {
        if self.state.has_scope(scope) {
            MachineModel { entities: self.entities.push(ScopedEntity { scope, id }), ..self }
        } else {
            self
        }
    }

    /// The state that applying the recorded requests leads to. A change of
    /// screen decides alone: the phase under the game screen starts as
    /// running and ends with the screen. Otherwise a recorded phase replaces
    /// the active one.
    pub open spec fn target_state(self) -> AppState {
        match self.next_screen {
            Some(target) if target != self.state.screen() => target.entry_state(),
            _ => match (self.state, self.next_phase) {
                (AppState::InGame(_), Some(phase)) => AppState::InGame(phase),
                _ => self.state,
            },
        }
    }

    /// The entities that applying the recorded requests destroys: those tied
    /// to a scope that is left, in spawn order.
    pub open spec fn despawned(self) -> Seq<ScopedEntity> {
        self.entities.filter(leaving(self.state, self.target_state()))
    }

    /// The machine after the recorded requests are applied.
    pub open spec fn apply(self) -> MachineModel {
        MachineModel {
            state: self.target_state(),
            next_screen: None,
            next_phase: None,
            entities: self.entities.filter(staying(self.state, self.target_state())),
        }
    }
}

/// What one application of the recorded requests did.
#[derive(Debug)]
pub struct TransitionReport {
    /// The state before the application.
    pub before: AppState,
    /// The state after it.
    pub after: AppState,
    /// The scopes left, a phase before the screen above it.
    pub exited: Vec<Scope>,
    /// The scopes entered, a screen before the phase under it.
    pub entered: Vec<Scope>,
    /// The entities destroyed, in spawn order.
    pub despawned: Vec<ScopedEntity>,
}

impl TransitionReport {
    /// Whether the application changed the state.
    pub open spec fn spec_changed(&self) -> bool {
        self.before != self.after
    }

    /// Whether the application changed the state.
    #[verifier::when_used_as_spec(spec_changed)]
    pub fn changed(&self) -> (changed: bool)
        ensures
            changed == self.spec_changed(),
    {
        self.before != self.after
    }

    /// Whether the application entered the game screen, which is when the
    /// session is reset and the board grid is spawned.
    pub open spec fn spec_starts_game(&self) -> bool {
        self.before.screen() != ScreenState::InGame && self.after.screen() == ScreenState::InGame
    }

    /// Whether the application entered the game screen.
    #[verifier::when_used_as_spec(spec_starts_game)]
    pub fn starts_game(&self) -> (starts: bool)
        ensures
            starts == self.spec_starts_game(),
    {
        self.before.screen() != ScreenState::InGame && self.after.screen() == ScreenState::InGame
    }
}

/// The layered state machine with its recorded requests and scoped entities.
#[derive(Debug)]
pub struct StateMachine {
    state: AppState,
    next_screen: Option<ScreenState>,
    next_phase: Option<GamePhase>,
    entities: Vec<ScopedEntity>,
}

impl View for StateMachine {
    type V = MachineModel;

    closed spec fn view(&self) -> MachineModel {
        MachineModel {
            state: self.state,
            next_screen: self.next_screen,
            next_phase: self.next_phase,
            entities: self.entities@,
        }
    }
}

impl StateMachine {
    /// The invariant of the machine, which every operation keeps.
    pub open spec fn wf(&self) -> bool {
        self@.wf()
    }

    /// The machine at startup: the title screen is active.
    pub fn new() -> (machine: StateMachine)
        ensures
            machine@ == MachineModel::initial(),
            machine.wf(),
    {
        StateMachine {
            state: AppState::Title,
            next_screen: None,
            next_phase: None,
            entities: Vec::new(),
        }
    }

    /// The scopes that are active at startup and whose setup the caller
    /// runs once then: the title screen alone.
    pub fn startup_scopes() -> (scopes: Vec<Scope>)
        ensures
            scopes@ == MachineModel::initial().state.spec_scopes(),
            scopes@ == seq![Scope::Screen(ScreenState::Title)],
    {
        let scopes = AppState::Title.scopes();
        assert(scopes@ =~= seq![Scope::Screen(ScreenState::Title)]);
        scopes
    }

    /// The state that systems observe during the current tick.
    pub fn state(&self) -> (state: AppState)
        ensures
            state == self@.state,
    {
        self.state
    }

    /// The active screen.
    pub fn screen(&self) -> (screen: ScreenState)
        ensures
            screen == self@.state.screen(),
    {
        self.state.screen()
    }

    /// The active phase, if the game screen is active.
    pub fn phase(&self) -> (phase: Option<GamePhase>)
        ensures
            phase == self@.state.phase(),
    {
        self.state.phase()
    }

    /// The screen asked for since the last application, if any.
    pub fn pending_screen(&self) -> (pending: Option<ScreenState>)
        ensures
            pending == self@.next_screen,
    {
        self.next_screen
    }

    /// The phase asked for since the last application, if any.
    pub fn pending_phase(&self) -> (pending: Option<GamePhase>)
        ensures
            pending == self@.next_phase,
    {
        self.next_phase
    }

    /// The living scoped entities, in spawn order.
    pub fn entities(&self) -> (entities: &Vec<ScopedEntity>)
        ensures
            entities@ == self@.entities,
    {
        &self.entities
    }

    /// Asks for a move to `target`. Nothing changes before the next
    /// application. Returns whether the request was taken: asking for the
    /// active screen is taken and changes nothing when applied; asking for a
    /// screen that the active one cannot move to is refused.
    pub fn request_screen(&mut self, target: ScreenState) -> (taken: bool)
        requires
            old(self).wf(),
        ensures
            final(self).wf(),
            taken == old(self)@.accepts_screen(target),
            final(self)@ == old(self)@.request_screen(target),
    {
        let taken = target == self.state.screen() || self.state.screen().can_move_to(target);
        if taken {
            self.next_screen = Some(target);
        }
        taken
    }

    /// Asks for a move to the phase `target`. Nothing changes before the next
    /// application. Returns whether the request was taken: it is refused
    /// outside the game screen, for a phase that the active one cannot move
    /// to, and for any phase but game over once the end of the running game
    /// is on record.
    pub fn request_phase(&mut self, target: GamePhase) -> (taken: bool)
        requires
            old(self).wf(),
        ensures
            final(self).wf(),
            taken == old(self)@.accepts_phase(target),
            final(self)@ == old(self)@.request_phase(target),
    {
        let end_recorded = match (self.state, self.next_phase) {
            (AppState::InGame(GamePhase::Running), Some(GamePhase::GameOver)) => true,
            _ => false,
        };
        let taken = match self.state {
            AppState::InGame(phase) => (target == phase || phase.can_move_to(target)) && (
            !end_recorded || target == GamePhase::GameOver),
            _ => false,
        };
        if taken {
            self.next_phase = Some(target);
        }
        taken
    }

    /// Ties the entity `id` to `scope`, to be destroyed when the scope is
    /// left. Returns whether it was registered: only an active scope takes
    /// entities.
    pub fn spawn_scoped(&mut self, scope: Scope, id: u64) -> (registered: bool)
        requires
            old(self).wf(),
        ensures
            final(self).wf(),
            registered == old(self)@.state.has_scope(scope),
            final(self)@ == old(self)@.spawn(scope, id),
    {
        let registered = self.state.has_scope(scope);
        if registered {
            self.entities.push(ScopedEntity { scope, id });
        }
        registered
    }

    /// Applies the recorded requests, which is done between ticks. The
    /// entities tied to each scope that is left are removed from the machine
    /// and handed back for destruction; the report lists the scopes left and
    /// entered, for which the caller runs the setup.
    pub fn apply_transitions(&mut self) -> (report: TransitionReport)
        requires
            old(self).wf(),
        ensures
            final(self).wf(),
            final(self)@ == old(self)@.apply(),
            report.before == old(self)@.state,
            report.after == old(self)@.target_state(),
            report.exited@ == exited_scopes(report.before, report.after),
            report.entered@ == entered_scopes(report.before, report.after),
            report.despawned@ == old(self)@.despawned(),
    {
        let before = self.state;
        let after = match self.next_screen {
            Some(target) if target != before.screen() => target.entry_state(),
            _ => match (before, self.next_phase) {
                (AppState::InGame(_), Some(phase)) => AppState::InGame(phase),
                _ => before,
            },
        };
        let exited = scopes_left(before, after);
        let entered = scopes_entered(before, after);
        let mut kept: Vec<ScopedEntity> = Vec::new();
        let mut despawned: Vec<ScopedEntity> = Vec::new();
        let ghost all = self.entities@;
        let count = self.entities.len();
        let mut i: usize = 0;
        while i < count
            invariant
                i <= count,
                count == all.len(),
                self.entities@ == all,
                kept@ == all.take(i as int).filter(staying(before, after)),
                despawned@ == all.take(i as int).filter(leaving(before, after)),
            decreases count - i,
        {
            let entity = self.entities[i];
            proof {
                all.lemma_take_succ_push(i as int);
                all.take(i as int).lemma_filter_push(entity, staying(before, after));
                all.take(i as int).lemma_filter_push(entity, leaving(before, after));
            }
            if before.has_scope(entity.scope) && !after.has_scope(entity.scope) {
                despawned.push(entity);
            } else {
                kept.push(entity);
            }
            i += 1;
        }
        proof {
            all.lemma_take_len();
            lemma_kept_are_active(old(self)@);
        }
        self.state = after;
        self.next_screen = None;
        self.next_phase = None;
        self.entities = kept;
        TransitionReport { before, after, exited, entered, despawned }
    }
}

/// The scopes that a move from `before` to `after` leaves, a phase before the
/// screen above it.
pub fn scopes_left(before: AppState, after: AppState) -> (scopes: Vec<Scope>)
    ensures
        scopes@ == exited_scopes(before, after),
{
    let mut scopes: Vec<Scope> = Vec::new();
    if let AppState::InGame(phase) = before {
        if !after.has_scope(Scope::Phase(phase)) {
            scopes.push(Scope::Phase(phase));
        }
    }
    if before.screen() != after.screen() {
        scopes.push(Scope::Screen(before.screen()));
    }
    scopes
}

/// The scopes that a move from `before` to `after` enters, a screen before
/// the phase under it.
pub fn scopes_entered(before: AppState, after: AppState) -> (scopes: Vec<Scope>)
    ensures
        scopes@ == entered_scopes(before, after),
{
    let mut scopes: Vec<Scope> = Vec::new();
    if before.screen() != after.screen() {
        scopes.push(Scope::Screen(after.screen()));
    }
    if let AppState::InGame(phase) = after {
        if !before.has_scope(Scope::Phase(phase)) {
            scopes.push(Scope::Phase(phase));
        }
    }
    scopes
}

/// After an application every entity that is kept is tied to a scope that is
/// active in the new state.
pub(crate) proof fn lemma_kept_are_active(machine: MachineModel)
    requires
        machine.wf(),
    ensures
        machine.apply().wf(),
{
    let before = machine.state;
    let after = machine.target_state();
    let kept = machine.entities.filter(staying(before, after));
    assert forall|i: int| 0 <= i < kept.len() implies after.has_scope((#[trigger] kept[i]).scope) by {
        machine.entities.lemma_filter_pred(staying(before, after), i);
        machine.entities.lemma_filter_contains_rev(staying(before, after), kept[i]);
        let j = choose|j: int| 0 <= j < machine.entities.len() && machine.entities[j] == kept[i];
        assert(before.has_scope(machine.entities[j].scope));
    }
}

} // verus!
