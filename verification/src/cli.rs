//! The command invocation boundary: a caller builds a [`Command`] from
//! plain values and executes it against an open store handle.

use vstd::prelude::*;

use crate::args::ArgAccount;
use crate::args::ArgUser;
use crate::encryption::fits_aead;
use crate::error::Error;
use crate::sub_command;
use crate::sub_command::atomic_outcome;
use crate::sub_command::plain_outcome;
use crate::sub_command::AddAccount;
use crate::sub_command::AddUser;
use crate::sub_command::Initializer;
use crate::sub_command::UpdateUser;

verus! {

/// One user-facing operation, built from plain values by the caller.
pub enum Command {
    /// Create the vault schema.
    Initialize,
    /// Add an owner record.
    AddUser(ArgUser),
    /// Replace an owner record, re-authenticating against the old
    /// credentials first.
    UpdateUser(ArgUser, ArgUser),
    /// Add a sealed account record for an owner; the last value carries
    /// the 32-byte encryption key the vault is configured with.
    AddAccount(ArgUser, ArgAccount, Vec<u8>),
}

/// What a command's inputs must satisfy: only the encryption key's size
/// and the secret's length cap are constrained.
pub open spec fn command_wf(cmd: Command) -> bool {
    match cmd {
        Command::AddAccount(user, account, key) => key@.len() == 32 && fits_aead(
            account.raw_password@,
        ),
        _ => true,
    }
}

/// What executing a command guarantees, by command: initialization runs
/// plainly (it creates the very tables transactions depend on), every
/// other command atomically.
pub open spec fn execute_post(
    cmd: Command,
    pre: rusqlite::Connection,
    post: rusqlite::Connection,
    r: Result<(), Error>,
) -> bool {
    match cmd {
        Command::Initialize => plain_outcome(Initializer {  }, pre, post, r),
        Command::AddUser(u) => atomic_outcome(AddUser { new_user: u }, pre, post, r),
        Command::UpdateUser(o, n) => atomic_outcome(
            UpdateUser { old_user: o, new_user: n },
            pre,
            post,
            r,
        ),
        Command::AddAccount(u, a, k) => atomic_outcome(
            AddAccount { user: u, new_account: a, key: k },
            pre,
            post,
            r,
        ),
    }
}

/// Executes one command against the store behind `conn` and reports its
/// outcome; the store handle is the caller's to open and close.
pub fn execute(conn: &mut rusqlite::Connection, cmd: Command) -> (r: Result<(), Error>)
    requires
        command_wf(cmd),
    ensures
        execute_post(cmd, *old(conn), *final(conn), r),
{
    match cmd {
        Command::Initialize => sub_command::run(Initializer::new(), conn),
        Command::AddUser(u) => sub_command::run(AddUser::new(u), conn),
        Command::UpdateUser(o, n) => sub_command::run(UpdateUser::new(o, n), conn),
        Command::AddAccount(u, a, k) => sub_command::run(AddAccount::new(u, a, k), conn),
    }
}

} // verus!
