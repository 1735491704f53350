//! A small menu system for a game: a main menu, a new-game screen and a
//! credits screen, switched by button presses.
//!
//! The library decides what a frame does (the next screen, whether the
//! current screen's elements are torn down, how many exit requests are sent)
//! and describes each screen's elements; the host engine spawns them.
pub mod laws;
pub mod screens;
pub mod state;

pub use state::{state_system, AppState, ButtonEvent, ButtonTag, FrameActions, Interaction};
pub use screens::{screen_for, setup_credits_screen, setup_main_menu, setup_new_screen, Element, ElementKind, Screen};
