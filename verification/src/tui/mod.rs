//! The states of the terminal interface and how key presses move between them.

pub mod app_state;
pub mod events;

pub use app_state::TuiState;
pub use events::{handle_event, run_step, Key, LoopAction, TuiEvent};
