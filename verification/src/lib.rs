//! Verified core of a keyboard-driven window switcher: hotkey parsing,
//! window-list filtering and ordering, the switcher's selection and
//! visibility state machine, and the tray's decisions.

pub mod config;
pub mod text;
pub mod hotkey;
pub mod window;
pub mod filter;
pub mod order;

pub mod switcher;
pub mod tray;
