//! Verified core of a filesystem package for the Rhai scripting engine.
//!
//! Scripts are untrusted, so every decision that bounds what a script can make
//! the host do is taken here and proved: how an open-mode token maps to access
//! flags, how many bytes a read may allocate under the host's ceilings, what a
//! finished read, write or seek hands back to the script, how paths combine,
//! and which directory entries a listing keeps. The operating-system calls
//! themselves are made by the caller, who passes their outcomes in as plain
//! values.

pub mod dir;
pub mod error;
pub mod file;
pub mod mode;
pub mod path;
mod text;
