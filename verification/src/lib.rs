//! Result types for launching an external process and reporting its outcome.
//!
//! `Command` describes how to invoke a program, `Output` carries the result of
//! one run, and `CommandErr` is a three-variant error value with a contractual
//! one-byte discriminant numbering, meant to be reproduced bit-for-bit by an
//! independently compiled caller. The construction, inspection, cloning and
//! equality discipline of these values is specified and verified here; actually
//! spawning processes is left to the surrounding program.

pub mod command;
pub mod command_err;
pub mod output;

pub use command::Command;
pub use command::CommandView;
pub use command_err::discriminant_CommandErr;
pub use command_err::CommandErr;
pub use command_err::CommandErrView;
pub use output::Output;
pub use output::OutputView;
