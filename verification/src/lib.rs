//! Core of a Hot Module Replacement (HMR) engine driver.
//!
//! The library tracks which scripts a running program has loaded, decides
//! whether a changed source file can be swapped into the running program in
//! place, and drives a bounded retry policy around the engine's
//! source-replacement call.  All protocol transport, file reading and source
//! emitting are external capabilities: the surrounding program performs them
//! and feeds their results back into the decision functions defined here.

pub mod cdp;
pub mod sync;
pub mod urls;
pub mod hmr;
