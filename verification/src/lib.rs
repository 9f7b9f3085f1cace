//! Verified core of a vim-like PDF viewer: error values, editor modes,
//! window titles, status-line texts, location handling and the rules
//! that turn key and scroll events into window actions.

pub mod cli;
pub mod constants;
pub mod controls;
pub mod error;
pub mod mode;
pub mod text;
pub mod util;
