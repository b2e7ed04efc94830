//! Startup core of a desktop/mobile application shell.
//!
//! The library assembles the set of platform capabilities for a build target,
//! accumulates them in an ordered builder, validates the embedded
//! configuration against the registered set, and models the linear
//! boot state machine that an outer process driver follows.  The actual
//! windowing runtime and the two capability plugins are external
//! collaborators: this crate decides what is wired in, in which order, and
//! how failures terminate the boot sequence.

pub mod builder;
pub mod config;
pub mod entry;
pub mod laws;
pub mod platform;
