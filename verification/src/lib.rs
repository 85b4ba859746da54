//! Orchestration layer of a turn-based board game: the layered application
//! state machine, the turn driver, the board render sync and the diagnostics
//! overlay, each as verified decisions over plain values.

pub mod board;
pub mod handlers;
pub mod machine;
pub mod menu;
pub mod overlay;
pub mod schedule;
pub mod states;
pub mod stone;
pub mod traces;
pub mod turn;
pub mod ui_button;

pub use board::{
    is_star, setup_in_game_ui, star_points, update_in_game, Board, BoardCell, BoardGrid, BoardLayout,
    BoardModel, GridModel, StonePos,
};
pub use handlers::{
    next_state, on_back_to_title, on_exit, on_game_start, on_move_applied, on_reset_game,
    on_resume, on_settings, toggle_pause, Effect,
};
pub use machine::{MachineModel, ScopedEntity, StateMachine, TransitionReport};
pub use menu::{menu_buttons, on_button_clicked, MenuButton};
pub use overlay::{
    get_color, not_available_text, on_change_average_frame_time_visibility,
    on_change_average_visibility, on_change_frame_time_visibility, on_change_visibility,
    reading_color, startup_commands, FpsCounterOption, Measure, NumberFormat, OverlayColor,
    OverlayCommand, OverlayKind, OverlayMachine, OverlayModel, OverlaySlot, OverlayVisibility,
    Statistic,
};
pub use schedule::{register_root, setup_handler, systems_in, SetupHandler, System};
pub use states::{AppState, GamePhase, Scope, ScreenState};
pub use stone::Stone;
pub use turn::{choose_move, tick_game, MoveChoice, TurnDriver};
pub use ui_button::{button_interaction_event, ButtonClicked, ButtonFeedback, Gray, Interaction};
