//! Single-line ANSI terminal progress bars that fill the available width.
//!
//! A [`Bar`] turns a fractional [`Progress`] value into a textual bar made of
//! fill glyphs, a percent or completion indicator, bracket caps, and a
//! trailing cursor-reposition sequence, so that repeated prints overwrite the
//! same terminal line. The width is either fixed by the caller or resolved
//! from the terminal at render time.

mod bar;
mod digits;
mod laws;
mod progress;
mod render;

pub use crate::bar::Bar;
pub use crate::progress::Progress;
