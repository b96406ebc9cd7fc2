//! A minimal interactive process debugger library.
//!
//! The crate verifies the logic of a tracing debugger: address-level
//! breakpoints that patch a single trap byte into the target's code,
//! a session state machine that dispatches user commands, a symbol
//! table mapping addresses to source locations, and a call-stack walk.
//! The OS-level tracing calls themselves are made through a narrow set
//! of trusted wrappers around the `nix` crate.
//!
//! Alongside the debugger the crate carries two small verified
//! companions: a line differ built on a longest-common-subsequence
//! grid, and elementwise vector helpers.

pub mod breakpoint;
pub mod command;
pub mod debugger;
pub mod diff;
pub mod grid;
pub mod inferior;
pub mod parse;
pub mod symbols;
mod trace;
pub mod warmup;
pub mod word;
