//! The one-time command that creates the vault's schema.

use vstd::prelude::*;

use crate::account::Account;
use crate::db::empty_account_rows;
use crate::db::empty_user_rows;
use crate::db::StoreView;
use crate::error::Error;
use crate::sub_command::SubCommand;
use crate::table::exists_tables;
use crate::table::vault_tables;
use crate::user::User;

verus! {

/// What a successful initialization did: the store did not yet hold the
/// vault schema (neither table existed), and afterwards both tables exist
/// and are empty.
pub open spec fn initialize_ok(pre: StoreView, post: StoreView) -> bool {
    &&& pre.tables != vault_tables()
    &&& !pre.tables.contains("USER"@)
    &&& !pre.tables.contains("ACCOUNT"@)
    &&& post.tables == pre.tables.insert("USER"@).insert("ACCOUNT"@)
    &&& post.users == empty_user_rows()
    &&& post.accounts == empty_account_rows()
}

/// Which errors initialization may report: `AlreadyInitialized` exactly
/// when the store already holds the vault schema; anything else is a
/// storage failure.
pub open spec fn initialize_err(pre: StoreView, e: Error) -> bool {
    match e {
        Error::AlreadyInitialized => pre.tables == vault_tables(),
        Error::StorageError(_) => true,
        _ => false,
    }
}

/// Creates the `USER` and `ACCOUNT` tables; fails with
/// [`Error::AlreadyInitialized`] if the schema already exists.  It runs
/// outside a transaction, since it establishes the preconditions
/// transactions depend on.
pub struct Initializer {}

impl Initializer {
    pub fn new() -> (r: Initializer) {
        Initializer {  }
    }
}

impl SubCommand for Initializer {
    open spec fn wf(&self) -> bool {
        true
    }

    open spec fn uses_transaction(&self) -> bool {
        false
    }

    open spec fn ok_post(&self, pre: StoreView, post: StoreView) -> bool {
        initialize_ok(pre, post)
    }

    open spec fn err_allowed(&self, pre: StoreView, e: Error) -> bool {
        initialize_err(pre, e)
    }

    fn with_transaction(&self) -> (r: bool) {
        false
    }

    fn run(self, conn: &mut rusqlite::Connection) -> (r: Result<(), Error>) {
        match exists_tables(conn) {
            Ok(true) => {
                return Err(Error::AlreadyInitialized);
            },
            Ok(false) => (),
            Err(e) => {
                return Err(e);
            },
        }
        match User::create_table(conn) {
            Ok(_) => (),
            Err(e) => {
                return Err(e);
            },
        }
        match Account::create_table(conn) {
            Ok(_) => (),
            Err(e) => {
                return Err(e);
            },
        }
        Ok(())
    }
}

} // verus!
