//! The command execution framework: one user-facing operation runs as a
//! unit whose writes commit together or not at all.

use vstd::prelude::*;

use crate::db;
use crate::db::committed_view;
use crate::db::in_transaction;
use crate::db::live_view;
use crate::db::quiescent;
use crate::db::store_unchanged;
use crate::db::StoreView;
use crate::error::Error;

pub mod add_account;
pub mod add_user;
pub mod initialize;
pub mod update_user;

pub use add_account::AddAccount;
pub use add_user::AddUser;
pub use initialize::Initializer;
pub use update_user::UpdateUser;

verus! {

/// One user-facing unit of work.  A command brings three spec-level pieces:
/// whether the framework must guard it with a transaction, the relation a
/// successful run establishes between the store before and after, and which
/// errors its business logic may report of a given starting store.
pub trait SubCommand: Sized {
    /// What the command's inputs must satisfy (key sizes, length caps).
    spec fn wf(&self) -> bool;

    /// Whether the framework wraps the run in a transaction.
    spec fn uses_transaction(&self) -> bool;

    /// What a successful run did: how the store it left behind relates to
    /// the store it found.
    spec fn ok_post(&self, pre: StoreView, post: StoreView) -> bool;

    /// Which errors the business logic may report of a starting store.
    spec fn err_allowed(&self, pre: StoreView, e: Error) -> bool;

    fn with_transaction(&self) -> (r: bool)
        ensures
            r == self.uses_transaction(),
    ;

    /// The business logic alone.  It never begins, commits or rolls back a
    /// transaction itself: inside one, nothing it writes becomes durable
    /// (though the engine may take a transaction down with a failed
    /// statement).  An error of the vault's own — anything but a storage
    /// failure — is raised by checks alone and leaves the store untouched.
    fn run(self, conn: &mut rusqlite::Connection) -> (r: Result<(), Error>)
        requires
            self.wf(),
        ensures
            in_transaction(*old(conn)) ==> committed_view(*final(conn)) == committed_view(
                *old(conn),
            ),
            quiescent(*old(conn)) ==> quiescent(*final(conn)),
            r matches Ok(_) ==> in_transaction(*final(conn)) == in_transaction(*old(conn)),
            r matches Ok(_) ==> self.ok_post(live_view(*old(conn)), live_view(*final(conn))),
            r matches Err(e) ==> self.err_allowed(live_view(*old(conn)), e),
            r matches Err(e) && !(e matches Error::StorageError(_)) ==> store_unchanged(
                *old(conn),
                *final(conn),
            ),
    ;
}

/// What the framework guarantees of a transaction-guarded command run on a
/// quiescent handle: on success the command's relation holds between the
/// store before and after and the handle is quiescent again; on any
/// non-fatal failure the store is exactly what it was — no partial write
/// survives; a fatal failure (the commit or rollback itself failed) leaves
/// the store in no promised state.
pub open spec fn atomic_outcome<S: SubCommand>(
    sub_command: S,
    pre: rusqlite::Connection,
    post: rusqlite::Connection,
    r: Result<(), Error>,
) -> bool {
    quiescent(pre) ==> match r {
        Ok(_) => {
            &&& quiescent(post)
            &&& sub_command.ok_post(live_view(pre), live_view(post))
        },
        Err(e) => match e {
            Error::FatalStorageFailure(_) => true,
            _ => {
                &&& quiescent(post)
                &&& live_view(post) == live_view(pre)
                &&& (sub_command.err_allowed(live_view(pre), e) || e matches Error::StorageError(
                    _,
                ))
            },
        },
    }
}

/// What the framework guarantees of a command run without a transaction on
/// a quiescent handle: the command's own contract, every statement durable
/// as it happens.  A storage failure may leave the statements before it
/// applied; an error of the vault's own leaves the store exactly as it was.
pub open spec fn plain_outcome<S: SubCommand>(
    sub_command: S,
    pre: rusqlite::Connection,
    post: rusqlite::Connection,
    r: Result<(), Error>,
) -> bool {
    quiescent(pre) ==> {
        &&& quiescent(post)
        &&& (r matches Ok(_) ==> sub_command.ok_post(live_view(pre), live_view(post)))
        &&& (r matches Err(e) ==> sub_command.err_allowed(live_view(pre), e))
        &&& (r matches Err(e) && !(e matches Error::StorageError(_)) ==> live_view(post)
            == live_view(pre))
    }
}

/// Opens a transaction, runs the command's business logic, and commits on
/// success or rolls back on failure, re-surfacing the original error.  A
/// failed commit or rollback surfaces as [`Error::FatalStorageFailure`]
/// instead, so a caller never retries a store in an unknown state.
pub fn run_with_transaction<S: SubCommand>(sub_command: S, conn: &mut rusqlite::Connection) -> (r:
    Result<(), Error>)
    requires
        sub_command.wf(),
    ensures
        atomic_outcome(sub_command, *old(conn), *final(conn), r),
{
    match db::begin_raw(conn) {
        Ok(_) => (),
        Err(m) => {
            return Err(Error::StorageError(m));
        },
    }
    let result = sub_command.run(conn);
    match result {
        Ok(_) => (),
        Err(e) => {
            match db::rollback_raw(conn) {
                Ok(_) => (),
                Err(m) => {
                    return Err(Error::FatalStorageFailure(m));
                },
            }
            return Err(e);
        },
    }
    match db::commit_raw(conn) {
        Ok(_) => Ok(()),
        Err(m) => Err(Error::FatalStorageFailure(m)),
    }
}

/// Runs the command's business logic with no transaction around it; only
/// initialization asks for this, since it establishes the very tables
/// transactions depend on.
pub fn run_without_transaction<S: SubCommand>(
    sub_command: S,
    conn: &mut rusqlite::Connection,
) -> (r: Result<(), Error>)
    requires
        sub_command.wf(),
    ensures
        plain_outcome(sub_command, *old(conn), *final(conn), r),
{
    sub_command.run(conn)
}

/// Runs one command to completion: behind a transaction where the command
/// asks for one, plainly otherwise.
pub fn run<S: SubCommand>(sub_command: S, conn: &mut rusqlite::Connection) -> (r: Result<
    (),
    Error,
>)
    requires
        sub_command.wf(),
    ensures
        sub_command.uses_transaction() ==> atomic_outcome(
            sub_command,
            *old(conn),
            *final(conn),
            r,
        ),
        !sub_command.uses_transaction() ==> plain_outcome(
            sub_command,
            *old(conn),
            *final(conn),
            r,
        ),
{
    if sub_command.with_transaction() {
        run_with_transaction(sub_command, conn)
    } else {
        run_without_transaction(sub_command, conn)
    }
}

} // verus!
