//! A tqdm-style progress line: the options of a bar, the text of each field
//! of its line, and the indicatif bar that shows them.
//!
//! The library computes on integers and text. A scale that is a double is
//! carried through by its bits; the fields whose numbers are doubles are
//! left to the caller, who has `slots::rate_slot` to put the rate together.

pub mod bar;
pub mod config;
pub mod outside;
pub mod plan;
pub mod scale;
pub mod slots;
pub mod text;

pub use crate::bar::{progress_bar, progress_bar_at, style, BarError};
pub use crate::config::{Config, Finish};
pub use crate::scale::Scale;
