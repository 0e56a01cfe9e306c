//! Build-feedback probe for Haskell project directories.
//!
//! The crate locates a cabal manifest among a directory's entries and
//! classifies the outcome of an external compiler-feedback run. Every
//! decision is a function from plain observed values (directory scans,
//! process outcomes) to a result whose fields the contracts pin down;
//! the surrounding I/O lives outside this library.

pub mod laws;
pub mod server;
pub mod text;
