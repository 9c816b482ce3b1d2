//! A local, single-user credential vault.
//!
//! The vault keeps one owner record (a salted SHA3-512 verifier) and a set of
//! named third-party account records whose secrets are sealed with
//! AES-256-GCM, all in a local SQLite store.  Every record-mutating command
//! runs inside a transaction, so a command that fails partway leaves the
//! store unchanged; only initialization runs plainly, since it creates the
//! very tables transactions depend on.

pub mod account;
pub mod args;
pub mod cli;
pub mod db;
pub mod encryption;
pub mod error;
pub mod hashcode;
pub mod random;
pub mod sub_command;
pub mod table;
pub mod user;

pub use args::ArgAccount;
pub use args::ArgUser;
pub use cli::execute;
pub use cli::Command;
pub use error::Error;
