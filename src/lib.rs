//! An interactive shell's core for a ledger database whose driver runs a
//! whole transaction as one body: the protocol that feeds that body one
//! statement at a time, the auto-commit policy, the classification of
//! statement failures, and the parsing of commands, settings and
//! configuration.
pub mod autocommit;
pub mod classify;
pub mod command;
pub mod config;
pub mod environment;
pub mod error;
pub mod modes;
pub mod settings;
pub mod structure;
pub mod text;
pub mod transaction;
