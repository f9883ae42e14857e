//! Decision logic of a first-person fly camera: which input counts, how the
//! look angles and the speed are bounded, and how the cursor lock toggles.
//!
//! Single-precision numbers are held by their IEEE-754 bit patterns (`u32`),
//! so that every bound is a statement about integers.

pub mod cursor;
pub mod keyboard;
pub mod keys;
pub mod look;
pub mod motion;
pub mod settings;
pub mod single;
