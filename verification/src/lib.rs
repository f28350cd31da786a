//! Debugger backend for the LC-3: the decisions a front end needs around an
//! `lc3_ensemble` simulator, with their contracts.
//!
//! The simulator itself is the one of `lc3_ensemble`; this crate owns it,
//! hands it out for a run and takes it back, names registers, keeps the
//! annotations of the memory pane, and lays out diagnostics.

pub mod text;
pub mod io;
pub mod diag;
pub mod machine;
pub mod regs;
pub mod controller;
pub mod host;
pub mod contents;
pub mod loading;
pub mod timer;
pub mod notices;
pub mod laws;

