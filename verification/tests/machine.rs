use igo_app::machine::{scopes_entered, scopes_left};
use igo_app::{
    next_state, on_back_to_title, on_exit, on_game_start, on_move_applied, on_reset_game,
    on_resume, on_settings, register_root, setup_handler, systems_in, toggle_pause, AppState,
    Effect, GamePhase, Scope, ScopedEntity, ScreenState, SetupHandler, StateMachine, System,
};

fn in_phase(phase: GamePhase) -> StateMachine {
    let mut machine = StateMachine::new();
    assert!(machine.request_screen(ScreenState::InGame));
    machine.apply_transitions();
    if phase != GamePhase::Running {
        assert!(machine.request_phase(phase));
        machine.apply_transitions();
    }
    assert_eq!(machine.state(), AppState::InGame(phase));
    machine
}

fn entity(scope: Scope, id: u64) -> ScopedEntity {
    ScopedEntity { scope, id }
}

#[test]
fn machine_starts_on_title() {
    let machine = StateMachine::new();
    assert_eq!(machine.state(), AppState::Title);
    assert_eq!(machine.screen(), ScreenState::Title);
    assert_eq!(machine.phase(), None);
    assert_eq!(machine.pending_screen(), None);
    assert_eq!(machine.pending_phase(), None);
    assert!(machine.entities().is_empty());
}

#[test]
fn request_is_deferred_until_applied() {
    let mut machine = StateMachine::new();
    assert!(machine.request_screen(ScreenState::InGame));
    assert_eq!(machine.state(), AppState::Title);
    assert_eq!(machine.pending_screen(), Some(ScreenState::InGame));
    let report = machine.apply_transitions();
    assert_eq!(machine.state(), AppState::InGame(GamePhase::Running));
    assert_eq!(machine.pending_screen(), None);
    assert_eq!(report.before, AppState::Title);
    assert_eq!(report.after, AppState::InGame(GamePhase::Running));
    assert!(report.changed());
}

#[test]
fn entering_the_game_reports_scopes_root_first() {
    let mut machine = StateMachine::new();
    machine.request_screen(ScreenState::InGame);
    let report = machine.apply_transitions();
    assert_eq!(report.exited, vec![Scope::Screen(ScreenState::Title)]);
    assert_eq!(
        report.entered,
        vec![Scope::Screen(ScreenState::InGame), Scope::Phase(GamePhase::Running)]
    );
    assert!(report.starts_game());
}

#[test]
fn leaving_the_game_reports_scopes_leaf_first() {
    let mut machine = in_phase(GamePhase::Paused);
    machine.request_screen(ScreenState::Title);
    let report = machine.apply_transitions();
    assert_eq!(
        report.exited,
        vec![Scope::Phase(GamePhase::Paused), Scope::Screen(ScreenState::InGame)]
    );
    assert_eq!(report.entered, vec![Scope::Screen(ScreenState::Title)]);
    assert!(!report.starts_game());
    assert_eq!(machine.phase(), None);
}

#[test]
fn scope_lists_for_a_phase_change() {
    let before = AppState::InGame(GamePhase::Running);
    let after = AppState::InGame(GamePhase::GameOver);
    assert_eq!(scopes_left(before, after), vec![Scope::Phase(GamePhase::Running)]);
    assert_eq!(scopes_entered(before, after), vec![Scope::Phase(GamePhase::GameOver)]);
    assert_eq!(scopes_left(before, before), Vec::<Scope>::new());
    assert_eq!(scopes_entered(before, before), Vec::<Scope>::new());
}

#[test]
fn direct_move_between_game_and_settings_is_refused() {
    let mut machine = in_phase(GamePhase::Running);
    assert!(!machine.request_screen(ScreenState::Settings));
    assert_eq!(machine.pending_screen(), None);
    machine.apply_transitions();
    assert_eq!(machine.state(), AppState::InGame(GamePhase::Running));

    let mut machine = StateMachine::new();
    machine.request_screen(ScreenState::Settings);
    machine.apply_transitions();
    assert_eq!(machine.state(), AppState::Settings);
    assert!(!machine.request_screen(ScreenState::InGame));
    machine.apply_transitions();
    assert_eq!(machine.state(), AppState::Settings);
}

#[test]
fn phase_request_outside_the_game_is_refused() {
    let mut machine = StateMachine::new();
    assert!(!machine.request_phase(GamePhase::Running));
    assert!(!machine.request_phase(GamePhase::Paused));
    assert_eq!(machine.pending_phase(), None);
    machine.apply_transitions();
    assert_eq!(machine.state(), AppState::Title);
}

#[test]
fn phase_moves_that_do_not_exist_are_refused() {
    let mut machine = in_phase(GamePhase::Paused);
    assert!(!machine.request_phase(GamePhase::GameOver));
    let mut machine = in_phase(GamePhase::GameOver);
    assert!(!machine.request_phase(GamePhase::Paused));
    machine.apply_transitions();
    assert_eq!(machine.state(), AppState::InGame(GamePhase::GameOver));
}

#[test]
fn last_request_taken_wins() {
    let mut machine = in_phase(GamePhase::Running);
    assert!(machine.request_phase(GamePhase::Paused));
    assert!(machine.request_phase(GamePhase::GameOver));
    machine.apply_transitions();
    assert_eq!(machine.state(), AppState::InGame(GamePhase::GameOver));

    let mut machine = StateMachine::new();
    assert!(machine.request_screen(ScreenState::InGame));
    assert!(machine.request_screen(ScreenState::Settings));
    machine.apply_transitions();
    assert_eq!(machine.state(), AppState::Settings);
}

#[test]
fn refused_request_keeps_the_one_on_record() {
    let mut machine = in_phase(GamePhase::GameOver);
    assert!(machine.request_phase(GamePhase::Running));
    assert!(!machine.request_phase(GamePhase::Paused));
    assert_eq!(machine.pending_phase(), Some(GamePhase::Running));
}

#[test]
fn leaving_the_game_drops_a_phase_request() {
    let mut machine = in_phase(GamePhase::Paused);
    assert!(machine.request_phase(GamePhase::Running));
    assert!(machine.request_screen(ScreenState::Title));
    machine.apply_transitions();
    assert_eq!(machine.state(), AppState::Title);
    assert_eq!(machine.pending_phase(), None);
    machine.request_screen(ScreenState::InGame);
    machine.apply_transitions();
    assert_eq!(machine.state(), AppState::InGame(GamePhase::Running));
}

#[test]
fn same_screen_request_produces_no_churn() {
    let mut machine = StateMachine::new();
    assert!(machine.spawn_scoped(Scope::Screen(ScreenState::Title), 1));
    assert!(machine.spawn_scoped(Scope::Screen(ScreenState::Title), 2));
    assert!(machine.request_screen(ScreenState::Title));
    let report = machine.apply_transitions();
    assert!(!report.changed());
    assert!(report.exited.is_empty());
    assert!(report.entered.is_empty());
    assert!(report.despawned.is_empty());
    assert_eq!(machine.state(), AppState::Title);
    assert_eq!(
        machine.entities(),
        &vec![
            entity(Scope::Screen(ScreenState::Title), 1),
            entity(Scope::Screen(ScreenState::Title), 2)
        ]
    );
}

#[test]
fn same_phase_request_produces_no_churn() {
    let mut machine = in_phase(GamePhase::Paused);
    machine.spawn_scoped(Scope::Phase(GamePhase::Paused), 5);
    machine.spawn_scoped(Scope::Screen(ScreenState::InGame), 6);
    assert!(machine.request_phase(GamePhase::Paused));
    let report = machine.apply_transitions();
    assert!(!report.changed());
    assert!(report.despawned.is_empty());
    assert!(report.exited.is_empty());
    assert!(report.entered.is_empty());
    assert_eq!(machine.entities().len(), 2);
}

#[test]
fn applying_nothing_changes_nothing() {
    let mut machine = in_phase(GamePhase::Running);
    machine.spawn_scoped(Scope::Phase(GamePhase::Running), 9);
    let report = machine.apply_transitions();
    assert!(!report.changed());
    assert!(report.despawned.is_empty());
    assert_eq!(machine.entities(), &vec![entity(Scope::Phase(GamePhase::Running), 9)]);
}

#[test]
fn spawn_under_inactive_scope_is_refused() {
    let mut machine = StateMachine::new();
    assert!(!machine.spawn_scoped(Scope::Screen(ScreenState::InGame), 1));
    assert!(!machine.spawn_scoped(Scope::Phase(GamePhase::Running), 2));
    assert!(machine.entities().is_empty());
    let mut machine = in_phase(GamePhase::Running);
    assert!(!machine.spawn_scoped(Scope::Phase(GamePhase::Paused), 3));
    assert!(machine.spawn_scoped(Scope::Phase(GamePhase::Running), 4));
}

#[test]
fn entities_are_destroyed_when_their_scope_is_left() {
    let mut machine = in_phase(GamePhase::Running);
    machine.spawn_scoped(Scope::Screen(ScreenState::InGame), 10);
    machine.spawn_scoped(Scope::Phase(GamePhase::Running), 11);
    machine.spawn_scoped(Scope::Screen(ScreenState::InGame), 12);
    machine.request_phase(GamePhase::Paused);
    let report = machine.apply_transitions();
    assert_eq!(report.despawned, vec![entity(Scope::Phase(GamePhase::Running), 11)]);
    assert_eq!(
        machine.entities(),
        &vec![
            entity(Scope::Screen(ScreenState::InGame), 10),
            entity(Scope::Screen(ScreenState::InGame), 12)
        ]
    );
    machine.spawn_scoped(Scope::Phase(GamePhase::Paused), 13);
    machine.request_screen(ScreenState::Title);
    let report = machine.apply_transitions();
    assert_eq!(
        report.despawned,
        vec![
            entity(Scope::Screen(ScreenState::InGame), 10),
            entity(Scope::Screen(ScreenState::InGame), 12),
            entity(Scope::Phase(GamePhase::Paused), 13)
        ]
    );
    assert!(machine.entities().is_empty());
}

#[test]
fn nothing_lingers_after_re_entry() {
    let mut machine = StateMachine::new();
    machine.spawn_scoped(Scope::Screen(ScreenState::Title), 1);
    machine.request_screen(ScreenState::InGame);
    let first = machine.apply_transitions();
    assert_eq!(first.despawned, vec![entity(Scope::Screen(ScreenState::Title), 1)]);
    machine.request_screen(ScreenState::Title);
    let second = machine.apply_transitions();
    assert!(second.despawned.is_empty());
    assert!(machine.entities().is_empty());
    machine.spawn_scoped(Scope::Screen(ScreenState::Title), 2);
    machine.request_screen(ScreenState::Settings);
    let third = machine.apply_transitions();
    assert_eq!(third.despawned, vec![entity(Scope::Screen(ScreenState::Title), 2)]);
}

#[test]
fn every_entity_is_destroyed_exactly_once_over_a_walk() {
    let mut machine = StateMachine::new();
    let mut spawned = Vec::new();
    let mut destroyed = Vec::new();
    let mut next_id = 0u64;
    let walk = [
        ScreenState::InGame,
        ScreenState::Title,
        ScreenState::Settings,
        ScreenState::Title,
        ScreenState::InGame,
        ScreenState::InGame,
        ScreenState::Title,
    ];
    for target in walk {
        for scope in machine.state().scopes() {
            assert!(machine.spawn_scoped(scope, next_id));
            spawned.push(next_id);
            next_id += 1;
        }
        machine.request_screen(target);
        let report = machine.apply_transitions();
        for gone in &report.despawned {
            assert!(!destroyed.contains(&gone.id), "{} destroyed twice", gone.id);
            destroyed.push(gone.id);
        }
        for alive in machine.entities() {
            assert!(machine.state().has_scope(alive.scope));
        }
    }
    let mut accounted: Vec<u64> = destroyed.clone();
    accounted.extend(machine.entities().iter().map(|e| e.id));
    accounted.sort();
    assert_eq!(accounted, spawned);
}

#[test]
fn title_buttons_ask_for_their_screens() {
    let mut machine = StateMachine::new();
    on_game_start(&mut machine);
    assert_eq!(machine.pending_screen(), Some(ScreenState::InGame));
    on_settings(&mut machine);
    assert_eq!(machine.pending_screen(), Some(ScreenState::Settings));
    machine.apply_transitions();
    assert_eq!(machine.state(), AppState::Settings);
}

#[test]
fn exit_closes_the_windows() {
    assert_eq!(on_exit(), Effect::CloseWindows);
}

#[test]
fn back_to_title_leaves_the_game() {
    let mut machine = in_phase(GamePhase::GameOver);
    on_back_to_title(&mut machine);
    machine.apply_transitions();
    assert_eq!(machine.state(), AppState::Title);
}

#[test]
fn pause_key_toggles_between_running_and_paused() {
    let mut machine = in_phase(GamePhase::Running);
    toggle_pause(false, &mut machine);
    assert_eq!(machine.pending_phase(), None);
    toggle_pause(true, &mut machine);
    assert_eq!(machine.pending_phase(), Some(GamePhase::Paused));
    machine.apply_transitions();
    assert_eq!(machine.state(), AppState::InGame(GamePhase::Paused));
    toggle_pause(true, &mut machine);
    machine.apply_transitions();
    assert_eq!(machine.state(), AppState::InGame(GamePhase::Running));
}

#[test]
fn pause_key_is_ignored_once_the_game_is_over() {
    let mut machine = in_phase(GamePhase::GameOver);
    toggle_pause(true, &mut machine);
    assert_eq!(machine.pending_phase(), None);
    machine.apply_transitions();
    assert_eq!(machine.state(), AppState::InGame(GamePhase::GameOver));
    let mut machine = StateMachine::new();
    toggle_pause(true, &mut machine);
    machine.apply_transitions();
    assert_eq!(machine.state(), AppState::Title);
}

#[test]
fn resume_returns_to_running() {
    let mut machine = in_phase(GamePhase::Paused);
    on_resume(&mut machine);
    machine.apply_transitions();
    assert_eq!(machine.state(), AppState::InGame(GamePhase::Running));
}

#[test]
fn escape_leaves_the_settings_screen() {
    let mut machine = StateMachine::new();
    on_settings(&mut machine);
    machine.apply_transitions();
    next_state(false, &mut machine);
    assert_eq!(machine.pending_screen(), None);
    next_state(true, &mut machine);
    assert_eq!(machine.pending_screen(), Some(ScreenState::Title));
    machine.apply_transitions();
    assert_eq!(machine.state(), AppState::Title);
}

#[test]
fn game_ends_when_the_move_cannot_continue() {
    let mut machine = in_phase(GamePhase::Running);
    on_move_applied(true, &mut machine);
    assert_eq!(machine.pending_phase(), None);
    on_move_applied(false, &mut machine);
    assert_eq!(machine.pending_phase(), Some(GamePhase::GameOver));
    let report = machine.apply_transitions();
    assert_eq!(machine.state(), AppState::InGame(GamePhase::GameOver));
    assert_eq!(report.entered, vec![Scope::Phase(GamePhase::GameOver)]);
}

#[test]
fn no_tick_runs_after_game_over_until_reset() {
    let mut machine = in_phase(GamePhase::Running);
    assert!(systems_in(machine.state()).contains(&System::TickGame));
    on_move_applied(false, &mut machine);
    machine.apply_transitions();
    for _ in 0..3 {
        assert!(!machine.state().turns_advance());
        assert!(!systems_in(machine.state()).contains(&System::TickGame));
        assert!(!systems_in(machine.state()).contains(&System::UpdateInGame));
        machine.apply_transitions();
    }
    assert_eq!(on_reset_game(&mut machine), Effect::ResetSession);
    let report = machine.apply_transitions();
    assert_eq!(machine.state(), AppState::InGame(GamePhase::Running));
    assert!(!report.starts_game());
    assert!(machine.state().turns_advance());
    assert!(systems_in(machine.state()).contains(&System::TickGame));
}

#[test]
fn reset_keeps_the_game_screen_entities() {
    let mut machine = in_phase(GamePhase::GameOver);
    machine.spawn_scoped(Scope::Screen(ScreenState::InGame), 81);
    machine.spawn_scoped(Scope::Phase(GamePhase::GameOver), 82);
    on_reset_game(&mut machine);
    let report = machine.apply_transitions();
    assert_eq!(report.despawned, vec![entity(Scope::Phase(GamePhase::GameOver), 82)]);
    assert_eq!(machine.entities(), &vec![entity(Scope::Screen(ScreenState::InGame), 81)]);
}

#[test]
fn every_state_is_reached_from_startup() {
    assert_eq!(StateMachine::new().state(), AppState::Title);
    let mut machine = StateMachine::new();
    machine.request_screen(ScreenState::Settings);
    machine.apply_transitions();
    assert_eq!(machine.state(), AppState::Settings);
    for phase in [GamePhase::Running, GamePhase::Paused, GamePhase::GameOver] {
        assert_eq!(in_phase(phase).state(), AppState::InGame(phase));
    }
}

#[test]
fn entered_scope_holds_no_entity() {
    let mut machine = in_phase(GamePhase::Running);
    machine.spawn_scoped(Scope::Phase(GamePhase::Running), 1);
    machine.request_phase(GamePhase::Paused);
    machine.apply_transitions();
    machine.spawn_scoped(Scope::Phase(GamePhase::Paused), 2);
    machine.request_phase(GamePhase::Running);
    let report = machine.apply_transitions();
    assert_eq!(report.entered, vec![Scope::Phase(GamePhase::Running)]);
    assert!(machine
        .entities()
        .iter()
        .all(|alive| alive.scope != Scope::Phase(GamePhase::Running)));
    assert_eq!(report.despawned, vec![entity(Scope::Phase(GamePhase::Paused), 2)]);
}

#[test]
fn title_is_the_one_scope_set_up_at_startup() {
    assert_eq!(StateMachine::startup_scopes(), vec![Scope::Screen(ScreenState::Title)]);
    assert_eq!(StateMachine::startup_scopes(), StateMachine::new().state().scopes());
    let handlers: Vec<Option<SetupHandler>> =
        StateMachine::startup_scopes().iter().map(|scope| setup_handler(*scope)).collect();
    assert_eq!(handlers, vec![Some(SetupHandler::TitleUi)]);
}

#[test]
fn game_end_is_kept_when_the_pause_key_comes_after_it() {
    let mut machine = in_phase(GamePhase::Running);
    on_move_applied(false, &mut machine);
    toggle_pause(true, &mut machine);
    assert_eq!(machine.pending_phase(), Some(GamePhase::GameOver));
    machine.apply_transitions();
    assert_eq!(machine.state(), AppState::InGame(GamePhase::GameOver));
    assert!(!machine.state().turns_advance());
}

#[test]
fn game_end_is_kept_when_the_pause_key_comes_before_it() {
    let mut machine = in_phase(GamePhase::Running);
    toggle_pause(true, &mut machine);
    on_move_applied(false, &mut machine);
    assert_eq!(machine.pending_phase(), Some(GamePhase::GameOver));
    machine.apply_transitions();
    assert_eq!(machine.state(), AppState::InGame(GamePhase::GameOver));
}

#[test]
fn recorded_game_end_refuses_every_other_phase() {
    let mut machine = in_phase(GamePhase::Running);
    assert!(machine.request_phase(GamePhase::GameOver));
    assert!(!machine.request_phase(GamePhase::Paused));
    assert!(!machine.request_phase(GamePhase::Running));
    assert!(machine.request_phase(GamePhase::GameOver));
    assert_eq!(machine.pending_phase(), Some(GamePhase::GameOver));
    machine.apply_transitions();
    assert_eq!(machine.state(), AppState::InGame(GamePhase::GameOver));
    assert!(machine.request_phase(GamePhase::Running));
}

#[test]
fn leaving_the_game_still_wins_over_its_end() {
    let mut machine = in_phase(GamePhase::Running);
    on_move_applied(false, &mut machine);
    on_back_to_title(&mut machine);
    machine.apply_transitions();
    assert_eq!(machine.state(), AppState::Title);
}

#[test]
fn resume_asks_nothing_unless_paused() {
    let mut machine = in_phase(GamePhase::GameOver);
    on_resume(&mut machine);
    assert_eq!(machine.pending_phase(), None);
    machine.apply_transitions();
    assert_eq!(machine.state(), AppState::InGame(GamePhase::GameOver));
    let mut machine = in_phase(GamePhase::Running);
    on_resume(&mut machine);
    assert_eq!(machine.pending_phase(), None);
    let mut machine = StateMachine::new();
    on_resume(&mut machine);
    assert_eq!(machine.pending_phase(), None);
}

#[test]
fn reset_asks_nothing_unless_the_game_is_over() {
    for phase in [GamePhase::Running, GamePhase::Paused] {
        let mut machine = in_phase(phase);
        assert_eq!(on_reset_game(&mut machine), Effect::Nothing);
        assert_eq!(machine.pending_phase(), None);
    }
    let mut machine = StateMachine::new();
    assert_eq!(on_reset_game(&mut machine), Effect::Nothing);
    let mut machine = in_phase(GamePhase::GameOver);
    assert_eq!(on_reset_game(&mut machine), Effect::ResetSession);
    assert_eq!(machine.pending_phase(), Some(GamePhase::Running));
}

#[test]
fn root_of_a_setup_is_tied_to_the_scope_of_the_setup() {
    let mut machine = StateMachine::new();
    assert!(register_root(&mut machine, SetupHandler::TitleUi, 1));
    assert!(!register_root(&mut machine, SetupHandler::InGameUi, 2));
    assert_eq!(machine.entities(), &vec![entity(Scope::Screen(ScreenState::Title), 1)]);
    machine.request_screen(ScreenState::InGame);
    let report = machine.apply_transitions();
    assert_eq!(report.despawned, vec![entity(Scope::Screen(ScreenState::Title), 1)]);
    for scope in &report.entered {
        if let Some(handler) = setup_handler(*scope) {
            assert_eq!(handler.scope(), *scope);
            assert!(register_root(&mut machine, handler, 10));
        }
    }
    assert_eq!(machine.entities(), &vec![entity(Scope::Screen(ScreenState::InGame), 10)]);
}

#[test]
fn board_root_does_not_outlive_the_game_screen() {
    let mut machine = in_phase(GamePhase::Running);
    assert!(register_root(&mut machine, SetupHandler::InGameUi, 100));
    machine.request_screen(ScreenState::Title);
    let left = machine.apply_transitions();
    assert_eq!(left.despawned, vec![entity(Scope::Screen(ScreenState::InGame), 100)]);
    machine.request_screen(ScreenState::InGame);
    let entered = machine.apply_transitions();
    assert!(entered.despawned.is_empty());
    assert!(machine.entities().is_empty());
    assert!(register_root(&mut machine, SetupHandler::InGameUi, 101));
    assert_eq!(machine.entities(), &vec![entity(Scope::Screen(ScreenState::InGame), 101)]);
}

#[test]
fn game_over_root_goes_by_reset_and_by_leaving() {
    let mut machine = in_phase(GamePhase::GameOver);
    assert!(register_root(&mut machine, SetupHandler::GameOverUi, 7));
    on_reset_game(&mut machine);
    let report = machine.apply_transitions();
    assert_eq!(report.despawned, vec![entity(Scope::Phase(GamePhase::GameOver), 7)]);
    on_move_applied(false, &mut machine);
    machine.apply_transitions();
    assert!(machine.entities().is_empty());
    assert!(register_root(&mut machine, SetupHandler::GameOverUi, 8));
    on_back_to_title(&mut machine);
    let report = machine.apply_transitions();
    assert_eq!(report.despawned, vec![entity(Scope::Phase(GamePhase::GameOver), 8)]);
    assert!(machine.entities().is_empty());
}
