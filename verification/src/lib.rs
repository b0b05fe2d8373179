//! Decision logic of a small program that re-prints a file's contents at a
//! fixed interval until a shutdown signal arrives.
//!
//! The crate holds the verified core: parsing the interval value and building
//! the run configuration ([`config`]), and the session state machine that
//! decides, from each outside input, what the program does next ([`session`]).
//! The surrounding program performs the outside work (reading the argument
//! list, reading the file, printing, sleeping, listening for the signal) and
//! hands each outcome back as an event.

pub mod config;
pub mod laws;
pub mod session;
