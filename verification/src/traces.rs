//! Runs of the state machine over whole sequences of requests, and what holds
//! of every run.

use crate::machine::{leaving, staying, lemma_kept_are_active, MachineModel, ScopedEntity};
use crate::states::{
    entered_scopes, exited_scopes, law_scope_lists_exact, leaves_scope, AppState, GamePhase, Scope,
    ScreenState,
};
use vstd::multiset::Multiset;
use vstd::prelude::*;
use vstd::multiset::lemma_multiset_empty_len;
use vstd::seq_lib::{lemma_multiset_commutative, to_multiset_build, to_multiset_len};

verus! {

/// One thing that can be asked of the machine.
pub enum Request {
    /// Ask for a screen.
    Screen(ScreenState),
    /// Ask for a phase.
    Phase(GamePhase),
    /// Tie an entity to a scope.
    Spawn(Scope, u64),
    /// Apply what was asked for, as is done between ticks.
    Apply,
}

/// The machine after one request.
pub open spec fn step(machine: MachineModel, request: Request) -> MachineModel {
    match request {
        Request::Screen(target) => machine.request_screen(target),
        Request::Phase(target) => machine.request_phase(target),
        Request::Spawn(scope, id) => machine.spawn(scope, id),
        Request::Apply => machine.apply(),
    }
}

/// The entities that one request destroys.
pub open spec fn step_destroyed(machine: MachineModel, request: Request) -> Seq<ScopedEntity> {
    match request {
        Request::Apply => machine.despawned(),
        _ => Seq::empty(),
    }
}

/// The entities that one request registers.
pub open spec fn step_spawned(machine: MachineModel, request: Request) -> Seq<ScopedEntity> {
    match request {
        Request::Spawn(scope, id) if machine.state.has_scope(scope) => seq![
            ScopedEntity { scope, id },
        ],
        _ => Seq::empty(),
    }
}

/// The machine after a sequence of requests, taken in order.
pub open spec fn run(machine: MachineModel, requests: Seq<Request>) -> MachineModel
    decreases requests.len(),
{
    if requests.len() == 0 {
        machine
    } else {
        step(run(machine, requests.drop_last()), requests.last())
    }
}

/// Every entity destroyed during a run, in the order of destruction.
pub open spec fn destroyed(machine: MachineModel, requests: Seq<Request>) -> Seq<ScopedEntity>
    decreases requests.len(),
{
    if requests.len() == 0 {
        Seq::empty()
    } else {
        destroyed(machine, requests.drop_last()) + step_destroyed(
            run(machine, requests.drop_last()),
            requests.last(),
        )
    }
}

/// Every entity registered during a run, in the order of registration.
pub open spec fn spawned(machine: MachineModel, requests: Seq<Request>) -> Seq<ScopedEntity>
    decreases requests.len(),
{
    if requests.len() == 0 {
        Seq::empty()
    } else {
        spawned(machine, requests.drop_last()) + step_spawned(
            run(machine, requests.drop_last()),
            requests.last(),
        )
    }
}

/// When nothing asked for changes the state, applying leaves no scope,
/// enters none, destroys no entity and keeps every entity in place.
pub proof fn law_unchanged_state_no_churn(machine: MachineModel)
    requires
        machine.target_state() == machine.state,
    ensures
        machine.apply().state == machine.state,
        machine.apply().entities == machine.entities,
        machine.despawned() == Seq::<ScopedEntity>::empty(),
        exited_scopes(machine.state, machine.target_state()) == Seq::<Scope>::empty(),
        entered_scopes(machine.state, machine.target_state()) == Seq::<Scope>::empty(),
{
    lemma_same_state_filters(machine.entities, machine.state);
}

/// Asking again for the active screen is taken and, when applied, does what
/// asking for no screen does; with no phase asked for either, that is
/// nothing: no scope is left or entered and no entity is destroyed.
pub proof fn law_same_screen_again(machine: MachineModel)
    ensures
        machine.accepts_screen(machine.state.screen()),
        machine.request_screen(machine.state.screen()).apply() == (MachineModel {
            next_screen: None,
            ..machine
        }).apply(),
        machine.request_screen(machine.state.screen()).despawned() == (MachineModel {
            next_screen: None,
            ..machine
        }).despawned(),
        machine.next_phase is None ==> {
            let asked = machine.request_screen(machine.state.screen());
            &&& asked.apply().state == machine.state
            &&& asked.apply().entities == machine.entities
            &&& asked.despawned() == Seq::<ScopedEntity>::empty()
            &&& exited_scopes(machine.state, asked.target_state()) == Seq::<Scope>::empty()
            &&& entered_scopes(machine.state, asked.target_state()) == Seq::<Scope>::empty()
        },
{
    if machine.next_phase is None {
        law_unchanged_state_no_churn(machine.request_screen(machine.state.screen()));
    }
}

/// Asking again for the active phase adds nothing to what is on record.
/// While the end of a running game is on record, the request is refused and
/// the record stays. Otherwise it is taken and, when applied, does what
/// asking for no phase does; with no screen asked for either, that is
/// nothing: no scope is left or entered and no entity is destroyed.
pub proof fn law_same_phase_again(machine: MachineModel, phase: GamePhase)
    requires
        machine.state == AppState::InGame(phase),
    ensures
        machine.end_recorded() ==> machine.request_phase(phase) == machine,
        !machine.end_recorded() ==> {
            &&& machine.accepts_phase(phase)
            &&& machine.request_phase(phase).apply() == (MachineModel {
                next_phase: None,
                ..machine
            }).apply()
            &&& machine.request_phase(phase).despawned() == (MachineModel {
                next_phase: None,
                ..machine
            }).despawned()
        },
        !machine.end_recorded() && machine.next_screen is None ==> {
            let asked = machine.request_phase(phase);
            &&& asked.apply().state == machine.state
            &&& asked.apply().entities == machine.entities
            &&& asked.despawned() == Seq::<ScopedEntity>::empty()
            &&& exited_scopes(machine.state, asked.target_state()) == Seq::<Scope>::empty()
            &&& entered_scopes(machine.state, asked.target_state()) == Seq::<Scope>::empty()
        },
{
    if !machine.end_recorded() && machine.next_screen is None {
        law_unchanged_state_no_churn(machine.request_phase(phase));
    }
}

/// The end of a running game is not lost to another request of the same
/// tick: whether the game-over phase is asked for before or after another
/// phase, it is the phase on record, and the game is over after the
/// application unless the game screen is left.
pub proof fn law_game_end_is_kept(machine: MachineModel, other: GamePhase)
    requires
        machine.state == AppState::InGame(GamePhase::Running),
    ensures
        machine.request_phase(GamePhase::GameOver).request_phase(other).next_phase == Some(
            GamePhase::GameOver,
        ),
        machine.request_phase(other).request_phase(GamePhase::GameOver).next_phase == Some(
            GamePhase::GameOver,
        ),
        machine.next_screen is None ==> {
            &&& machine.request_phase(GamePhase::GameOver).request_phase(other).apply().state
                == AppState::InGame(GamePhase::GameOver)
            &&& machine.request_phase(other).request_phase(GamePhase::GameOver).apply().state
                == AppState::InGame(GamePhase::GameOver)
        },
{
}

/// Once the end of a running game is on record, it stays on record through
/// every run of requests up to the next application.
pub proof fn law_run_keeps_game_end(machine: MachineModel, requests: Seq<Request>)
    requires
        machine.end_recorded(),
        forall|i: int| 0 <= i < requests.len() ==> !(#[trigger] requests[i] is Apply),
    ensures
        run(machine, requests).end_recorded(),
    decreases requests.len(),
{
    if requests.len() > 0 {
        law_run_keeps_game_end(machine, requests.drop_last());
    }
}

/// An application destroys an entity exactly when the scope it is tied to is
/// left, and keeps it exactly when that scope is not left.
pub proof fn law_destroyed_when_scope_left(machine: MachineModel, entity: ScopedEntity)
    requires
        machine.entities.contains(entity),
    ensures
        machine.despawned().contains(entity) <==> leaves_scope(
            machine.state,
            machine.target_state(),
            entity.scope,
        ),
        machine.apply().entities.contains(entity) <==> !leaves_scope(
            machine.state,
            machine.target_state(),
            entity.scope,
        ),
{
    let before = machine.state;
    let after = machine.target_state();
    let i = choose|i: int| 0 <= i < machine.entities.len() && machine.entities[i] == entity;
    if leaves_scope(before, after, entity.scope) {
        machine.entities.lemma_filter_contains(leaving(before, after), i);
    } else {
        machine.entities.lemma_filter_contains(staying(before, after), i);
    }
    let gone = machine.despawned();
    if gone.contains(entity) {
        let j = choose|j: int| 0 <= j < gone.len() && gone[j] == entity;
        machine.entities.lemma_filter_pred(leaving(before, after), j);
    }
    let kept = machine.apply().entities;
    if kept.contains(entity) {
        let j = choose|j: int| 0 <= j < kept.len() && kept[j] == entity;
        machine.entities.lemma_filter_pred(staying(before, after), j);
    }
}

/// In every state that a run reaches, the requests on record are ones the
/// state takes and every living entity is tied to an active scope: nothing
/// tied to a scope outlives it, so nothing is found from an earlier visit
/// when the scope is entered again.
pub proof fn law_run_keeps_invariant(machine: MachineModel, requests: Seq<Request>)
    requires
        machine.wf(),
    ensures
        run(machine, requests).wf(),
    decreases requests.len(),
{
    if requests.len() > 0 {
        law_run_keeps_invariant(machine, requests.drop_last());
        let reached = run(machine, requests.drop_last());
        match requests.last() {
            Request::Apply => {
                lemma_kept_are_active(reached);
            },
            _ => {},
        }
    }
}

/// A scope that an application enters holds no entity right after it:
/// nothing from an earlier visit is found when a scope is entered again.
pub proof fn law_entered_scope_is_empty(machine: MachineModel, scope: Scope, entity: ScopedEntity)
    requires
        machine.wf(),
        entered_scopes(machine.state, machine.target_state()).contains(scope),
        machine.apply().entities.contains(entity),
    ensures
        entity.scope != scope,
{
    let before = machine.state;
    let after = machine.target_state();
    law_scope_lists_exact(before, after, scope);
    machine.entities.lemma_filter_contains_rev(staying(before, after), entity);
    let i = choose|i: int| 0 <= i < machine.entities.len() && machine.entities[i] == entity;
    assert(before.has_scope(machine.entities[i].scope));
}

/// Over every run, each entity that was alive at the start or registered on
/// the way is either still alive at the end or was destroyed exactly once.
pub proof fn law_destroyed_exactly_once(machine: MachineModel, requests: Seq<Request>)
    ensures
        machine.entities.to_multiset().add(spawned(machine, requests).to_multiset()) == run(
            machine,
            requests,
        ).entities.to_multiset().add(destroyed(machine, requests).to_multiset()),
    decreases requests.len(),
{
    broadcast use vstd::multiset::group_multiset_axioms;

    if requests.len() == 0 {
        lemma_no_entities();
        assert(machine.entities.to_multiset().add(Multiset::empty())
            =~= machine.entities.to_multiset());
    } else {
        let earlier = requests.drop_last();
        let reached = run(machine, earlier);
        let request = requests.last();
        law_destroyed_exactly_once(machine, earlier);
        lemma_multiset_commutative(spawned(machine, earlier), step_spawned(reached, request));
        lemma_multiset_commutative(destroyed(machine, earlier), step_destroyed(reached, request));
        lemma_step_conserves(reached, request);
        let start = machine.entities.to_multiset();
        let spawned_earlier = spawned(machine, earlier).to_multiset();
        let spawned_now = step_spawned(reached, request).to_multiset();
        let destroyed_earlier = destroyed(machine, earlier).to_multiset();
        let destroyed_now = step_destroyed(reached, request).to_multiset();
        let alive_earlier = reached.entities.to_multiset();
        let alive_now = step(reached, request).entities.to_multiset();
        assert(spawned(machine, requests).to_multiset() == spawned_earlier.add(spawned_now));
        assert(destroyed(machine, requests).to_multiset() == destroyed_earlier.add(destroyed_now));
        assert(start.add(spawned_earlier) == alive_earlier.add(destroyed_earlier));
        assert(alive_earlier.add(spawned_now) == alive_now.add(destroyed_now));
        assert forall|entity: ScopedEntity|
            start.add(spawned_earlier.add(spawned_now)).count(entity) == alive_now.add(
                destroyed_earlier.add(destroyed_now),
            ).count(entity) by {
            assert(start.add(spawned_earlier).count(entity) == alive_earlier.add(
                destroyed_earlier,
            ).count(entity));
            assert(alive_earlier.add(spawned_now).count(entity) == alive_now.add(
                destroyed_now,
            ).count(entity));
        }
        assert(start.add(spawned_earlier.add(spawned_now)) =~= alive_now.add(
            destroyed_earlier.add(destroyed_now),
        ));
    }
}

/// Every composed state is reached by some run from startup: what holds of
/// every reachable state is what holds of every state.
pub proof fn law_every_state_is_reached(state: AppState)
    ensures
        exists|requests: Seq<Request>| (#[trigger] run(MachineModel::initial(), requests)).state
            == state,
{
    let start = MachineModel::initial();
    let none = Seq::<Request>::empty();
    assert(run(start, none).state == AppState::Title);
    match state {
        AppState::Title => {},
        AppState::Settings => {
            let asked = none.push(Request::Screen(ScreenState::Settings));
            lemma_run_push(start, none, Request::Screen(ScreenState::Settings));
            lemma_run_push(start, asked, Request::Apply);
            assert(run(start, asked.push(Request::Apply)).state == state);
        },
        AppState::InGame(phase) => {
            let asked = none.push(Request::Screen(ScreenState::InGame));
            let entered = asked.push(Request::Apply);
            lemma_run_push(start, none, Request::Screen(ScreenState::InGame));
            lemma_run_push(start, asked, Request::Apply);
            assert(run(start, entered).state == AppState::InGame(GamePhase::Running));
            if phase != GamePhase::Running {
                let asked_phase = entered.push(Request::Phase(phase));
                lemma_run_push(start, entered, Request::Phase(phase));
                lemma_run_push(start, asked_phase, Request::Apply);
                assert(run(start, asked_phase.push(Request::Apply)).state == state);
            }
        },
    }
}

/// A run with one more request at its end is the run without it followed by
/// that request.
proof fn lemma_run_push(machine: MachineModel, requests: Seq<Request>, request: Request)
    ensures
        run(machine, requests.push(request)) == step(run(machine, requests), request),
{
    assert(requests.push(request).drop_last() =~= requests);
}

/// One request conserves the entities: those alive before and those it
/// registers are those alive after and those it destroys.
proof fn lemma_step_conserves(machine: MachineModel, request: Request)
    ensures
        machine.entities.to_multiset().add(step_spawned(machine, request).to_multiset()) == step(
            machine,
            request,
        ).entities.to_multiset().add(step_destroyed(machine, request).to_multiset()),
{
    broadcast use vstd::multiset::group_multiset_axioms;

    let nothing = Seq::<ScopedEntity>::empty();
    lemma_no_entities();
    match request {
        Request::Apply => {
            lemma_partition_conserves(machine.entities, machine.state, machine.target_state());
            assert(machine.entities.to_multiset().add(nothing.to_multiset())
                =~= machine.entities.to_multiset());
        },
        Request::Spawn(scope, id) => {
            if machine.state.has_scope(scope) {
                let entity = ScopedEntity { scope, id };
                to_multiset_build(machine.entities, entity);
                to_multiset_build(nothing, entity);
                assert(seq![entity] =~= nothing.push(entity));
                assert(machine.entities.to_multiset().add(seq![entity].to_multiset())
                    =~= machine.entities.push(entity).to_multiset().add(nothing.to_multiset()));
            } else {
                assert(machine.entities.to_multiset().add(nothing.to_multiset())
                    =~= machine.entities.to_multiset().add(nothing.to_multiset()));
            }
        },
        _ => {},
    }
}

/// Splitting the entities into those that stay and those that leave loses
/// none and adds none.
proof fn lemma_partition_conserves(entities: Seq<ScopedEntity>, before: AppState, after: AppState)
    ensures
        entities.to_multiset() == entities.filter(staying(before, after)).to_multiset().add(
            entities.filter(leaving(before, after)).to_multiset(),
        ),
    decreases entities.len(),
{
    broadcast use vstd::multiset::group_multiset_axioms;

    let kept = entities.filter(staying(before, after));
    let gone = entities.filter(leaving(before, after));
    if entities.len() == 0 {
        reveal(Seq::filter);
        lemma_no_entities();
        assert(entities =~= Seq::<ScopedEntity>::empty());
        assert(entities.to_multiset() =~= kept.to_multiset().add(gone.to_multiset()));
    } else {
        let rest = entities.drop_last();
        let last = entities.last();
        lemma_partition_conserves(rest, before, after);
        assert(entities =~= rest.push(last));
        rest.lemma_filter_push(last, staying(before, after));
        rest.lemma_filter_push(last, leaving(before, after));
        to_multiset_build(rest, last);
        to_multiset_build(rest.filter(staying(before, after)), last);
        to_multiset_build(rest.filter(leaving(before, after)), last);
        assert(entities.to_multiset() =~= kept.to_multiset().add(gone.to_multiset()));
    }
}

/// The empty sequence holds no entity.
proof fn lemma_no_entities()
    ensures
        Seq::<ScopedEntity>::empty().to_multiset() == Multiset::<ScopedEntity>::empty(),
{
    to_multiset_len(Seq::<ScopedEntity>::empty());
    lemma_multiset_empty_len(Seq::<ScopedEntity>::empty().to_multiset());
}

/// With no change of state no entity leaves and every entity stays.
proof fn lemma_same_state_filters(entities: Seq<ScopedEntity>, state: AppState)
    ensures
        entities.filter(leaving(state, state)) == Seq::<ScopedEntity>::empty(),
        entities.filter(staying(state, state)) == entities,
    decreases entities.len(),
{
    if entities.len() == 0 {
        reveal(Seq::filter);
    } else {
        let rest = entities.drop_last();
        let last = entities.last();
        lemma_same_state_filters(rest, state);
        assert(entities =~= rest.push(last));
        rest.lemma_filter_push(last, staying(state, state));
        rest.lemma_filter_push(last, leaving(state, state));
    }
}

} // verus!
