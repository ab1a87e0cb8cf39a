//! Core of a terminal music-player client: approximate string matching over
//! track metadata, the track catalog with its two cursors, and the modal
//! keyboard state machine that turns key events into transport commands.
//!
//! The library makes no call on the player and reads no key itself. The
//! program around it hands `UI::process` each key event, hands the command
//! that comes back to `UI::perform`, and makes the player calls that
//! `perform` returns, in order.

pub mod catalog;
pub mod command;
pub mod fuzzy_search;
pub mod keys;
pub mod machine;
pub mod order;
pub mod parser;
pub mod states;
pub mod text;
pub mod track;
pub mod transport;
pub mod ui;
pub mod utils;
