//! Finds the files under a directory whose content digest equals a wanted
//! value and orders their deletion.
//!
//! The library touches no file itself. A scan is a state machine that is
//! driven from outside: it names the next filesystem operation and is handed
//! the operation's result.
//!
//! - `cli`, `config`: what a scan is asked to do, and its validation.
//! - `hex`, `digest`: digests as lowercase hexadecimal text, and the forms
//!   by which the digest of an algorithm is recognised.
//! - `confirm`: reading the operator's yes or no.
//! - `visited`: the identities that a scan has handled.
//! - `protocol`: what passes between a scan and its driver.
//! - `machine`: the scan as a transition system over mathematical values.
//! - `scanner`: the scan as a value that computes those transitions.
//! - `laws`: what holds of every run of a scan.

pub mod cli;
pub mod config;
pub mod confirm;
pub mod digest;
pub mod hex;
pub mod laws;
pub mod machine;
pub mod protocol;
pub mod scanner;
pub mod visited;
