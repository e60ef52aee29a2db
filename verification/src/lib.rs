//! Startup sequencing for a desktop application that ships with a companion
//! executable.
//!
//! The library decides *what* happens during startup and in which order; the
//! surrounding program performs each step against the application host and
//! reports how it went. Every decision is a total function of the build
//! profile, the step in progress and the outcome of that step.

pub mod profile;
pub mod step;
pub mod laws;
