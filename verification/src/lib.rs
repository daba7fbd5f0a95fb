//! A local credential vault: records of service, username and password kept
//! behind one master passphrase, with the command and session logic that
//! drives it.

pub mod actions;
pub mod commands;
pub mod error;
pub mod generator;
pub mod policy;
pub mod repl;
pub mod session;
pub mod shell;
pub mod text;
pub mod vault;
