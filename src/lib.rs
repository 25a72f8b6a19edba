//! Retained-mode UI runtime for a small hardware token.
//!
//! Widgets lay themselves out in rectangles, consume input events and paint
//! into a display list (`display::Canvas`) that the host hands to the
//! rendering backend. The three-position devices get the button widget, the
//! state machine that turns two physical buttons into left, middle and
//! right (`button_controller`), hold-to-confirm, and the choice engine
//! (`choice`) with the passphrase screen built on it. The touch devices get
//! a touch button and the bootloader screens. The host loop, timers and
//! input drivers stay outside: `timer` and `bootloader` give it the
//! decisions to make.

pub mod geometry;
pub mod display;
pub mod event;
pub mod timer;
pub mod tr_theme;
pub mod button;
pub mod pad;
pub mod common;
pub mod hold_to_confirm;
pub mod button_controller;
mod bounded;
pub mod choice;
pub mod textbox;
pub mod passphrase;
pub mod component;
pub mod tt_button;
pub mod tt_theme;
pub mod text_block;
pub mod icon;
pub mod install;
pub mod wipe;
pub mod bld_intro;
pub mod bld_menu;
pub mod bld_progress;
pub mod bootloader;
