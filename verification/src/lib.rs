//! A safety layer around a native device-capture library: a typestate-driven
//! pipeline lifecycle manager that turns raw native handles into statically
//! checked resources.
//!
//! The native library itself is reached only through the [`native::NativeLayer`]
//! trait, whose contracts track a ghost model of every live handle.  The
//! lifecycle manager proves that each native handle is destroyed exactly once,
//! that illegal operations are rejected at compile time, and that every native
//! error is checked and translated into a typed result.

pub mod errors;
pub mod kinds;
pub mod native;
pub mod context;
pub mod config;
pub mod pipeline;
pub mod scripted;
