//! The `USER` relation: the vault owner's authentication record and its
//! per-row operations.

use vstd::prelude::*;

use crate::args::ArgUser;
use crate::db;
use crate::db::account_rows;
use crate::db::table_names;
use crate::db::user_rows;
use crate::error::Error;
use crate::hashcode::sha3_512_hashcode;
use crate::hashcode::sha3_512_of;
use crate::random::create_ascii_str;

verus! {

/// Whether, in a user table, the row named `name` exists and its stored
/// verifier matches `raw_password`.
pub open spec fn authenticates_in(
    users: Map<Seq<char>, db::UserRowV>,
    name: Seq<char>,
    raw_password: Seq<char>,
) -> bool {
    &&& users.dom().contains(name)
    &&& users[name].0 == sha3_512_of(raw_password + users[name].1)
}

/// One row of the `USER` table: the unique name, the salted SHA3-512
/// verifier of the password, and the salt it was derived with.
#[derive(Clone, Debug, PartialEq, Eq)]
pub struct User {
    pub user_name: String,
    pub user_password: Vec<u8>,
    pub salt: String,
}

impl User {
    /// The row this record stands for, without its key.
    pub open spec fn row(&self) -> db::UserRowV {
        (self.user_password@, self.salt@)
    }

    /// Whether this record's stored verifier matches a raw password.
    pub open spec fn authenticates(&self, raw_password: Seq<char>) -> bool {
        self.user_password@ == sha3_512_of(raw_password + self.salt@)
    }

    pub fn new(user_name: String, user_password: Vec<u8>, salt: String) -> (r: User)
        ensures
            r.user_name@ == user_name@,
            r.user_password@ == user_password@,
            r.salt@ == salt@,
    {
        User { user_name, user_password, salt }
    }

    /// Derives a record from a raw password: draws a fresh 16-character
    /// salt and stores the salted verifier, never the password itself.
    pub fn from_raw_password(user_name: String, raw_user_password: String) -> (r: User)
        ensures
            r.user_name@ == user_name@,
            r.salt@.len() == 16,
            r.user_password@ == sha3_512_of(raw_user_password@ + r.salt@),
    {
        let salt = create_ascii_str(16);
        let hashed = sha3_512_hashcode(&raw_user_password, &salt);
        Self::new(user_name, hashed, salt)
    }

    /// Loads the record of `user_name`, authenticated against the supplied
    /// raw password.  A missing user and a wrong password collapse to the
    /// same [`Error::AuthenticationFailed`] outcome, which leaves the store
    /// exactly as it was.
    pub fn from_arg_user(conn: &mut rusqlite::Connection, arg_user: ArgUser) -> (r: Result<
        User,
        Error,
    >)
        ensures
            r matches Ok(u) ==> db::store_unchanged(*old(conn), *final(conn)) && user_rows(
                *old(conn),
            ).dom().contains(arg_user.name@) && u.user_name@ == arg_user.name@ && user_rows(
                *old(conn),
            )[arg_user.name@] == u.row() && u.authenticates(arg_user.raw_password@),
            r matches Err(e) ==> match e {
                Error::AuthenticationFailed(n) => n@ == arg_user.name@ && !authenticates_in(
                    user_rows(*old(conn)),
                    arg_user.name@,
                    arg_user.raw_password@,
                ) && db::store_unchanged(*old(conn), *final(conn)),
                Error::StorageError(_) => db::failed_step(*old(conn), *final(conn)),
                _ => false,
            },
    {
        if !User::exists_by_name(conn, &arg_user.name)? {
            return Err(Error::AuthenticationFailed(arg_user.name));
        }
        let user_old = User::select_by_name(conn, &arg_user.name)?;
        user_old.validate_password(arg_user.raw_password)?;
        Ok(user_old)
    }

    /// Reads one row by its primary key; a successful read changes nothing.
    /// A missing row surfaces as a storage error, exactly as the underlying
    /// single-row query reports it.
    pub fn select_by_name(conn: &mut rusqlite::Connection, user_name: &String) -> (r: Result<
        User,
        Error,
    >)
        ensures
            r matches Ok(u) ==> db::store_unchanged(*old(conn), *final(conn)) && user_rows(
                *old(conn),
            ).dom().contains(user_name@) && u.user_name@ == user_name@ && user_rows(*old(conn))[
                user_name@
            ] == u.row(),
            r matches Err(e) ==> e matches Error::StorageError(_) && db::failed_step(
                *old(conn),
                *final(conn),
            ),
            !user_rows(*old(conn)).dom().contains(user_name@) ==> r is Err,
    {
        match db::select_user_raw(conn, user_name) {
            Ok(Some(row)) => Ok(User::new(user_name.clone(), row.0, row.1)),
            Ok(None) => Err(Error::StorageError("query returned no rows".to_owned())),
            Err(m) => Err(Error::StorageError(m)),
        }
    }

    /// Whether a row with this name exists; a successful read changes
    /// nothing.
    pub fn exists_by_name(conn: &mut rusqlite::Connection, user_name: &String) -> (r: Result<
        bool,
        Error,
    >)
        ensures
            r matches Ok(b) ==> db::store_unchanged(*old(conn), *final(conn)) && b == user_rows(
                *old(conn),
            ).dom().contains(user_name@),
            r matches Err(e) ==> e matches Error::StorageError(_) && db::failed_step(
                *old(conn),
                *final(conn),
            ),
    {
        match db::select_user_raw(conn, user_name) {
            Ok(Some(_)) => Ok(true),
            Ok(None) => Ok(false),
            Err(m) => Err(Error::StorageError(m)),
        }
    }

    /// Inserts this record as a new row; the primary key makes a duplicate
    /// name fail as a storage error.
    pub fn insert(self, conn: &mut rusqlite::Connection) -> (r: Result<usize, Error>)
        ensures
            r matches Ok(n) ==> db::step_commits(*old(conn), *final(conn)) && table_names(
                *final(conn),
            ) == table_names(*old(conn)) && account_rows(*final(conn)) == account_rows(*old(conn))
                && n == 1 && !user_rows(*old(conn)).dom().contains(self.user_name@) && user_rows(
                *final(conn),
            ) == user_rows(*old(conn)).insert(self.user_name@, self.row()),
            r matches Err(e) ==> e matches Error::StorageError(_) && db::failed_step(
                *old(conn),
                *final(conn),
            ),
    {
        match db::insert_user_raw(conn, &self.user_name, &self.user_password, &self.salt) {
            Ok(n) => Ok(n),
            Err(m) => Err(Error::StorageError(m)),
        }
    }

    /// Replaces the row keyed by `user_name_old` with this record (which
    /// permits renaming).  With no such row the statement matches nothing
    /// and reports zero changes; callers must check existence first.
    pub fn update(self, conn: &mut rusqlite::Connection, user_name_old: &String) -> (r: Result<
        usize,
        Error,
    >)
        ensures
            r matches Ok(n) ==> db::step_commits(*old(conn), *final(conn)) && table_names(
                *final(conn),
            ) == table_names(*old(conn)) && account_rows(*final(conn)) == account_rows(*old(conn))
                && (if user_rows(*old(conn)).dom().contains(user_name_old@) {
                n == 1 && user_rows(*final(conn)) == user_rows(*old(conn)).remove(
                    user_name_old@,
                ).insert(self.user_name@, self.row())
            } else {
                n == 0 && user_rows(*final(conn)) == user_rows(*old(conn))
            }),
            r matches Err(e) ==> e matches Error::StorageError(_) && db::failed_step(
                *old(conn),
                *final(conn),
            ),
    {
        match db::update_user_raw(
            conn,
            &self.user_name,
            &self.user_password,
            &self.salt,
            user_name_old,
        ) {
            Ok(n) => Ok(n),
            Err(m) => Err(Error::StorageError(m)),
        }
    }

    /// Creates the `USER` table, which starts empty; a store that already
    /// has one rejects the statement.
    pub fn create_table(conn: &mut rusqlite::Connection) -> (r: Result<usize, Error>)
        ensures
            r matches Ok(_) ==> db::step_commits(*old(conn), *final(conn)) && account_rows(
                *final(conn),
            ) == account_rows(*old(conn)) && !table_names(*old(conn)).contains("USER"@)
                && table_names(*final(conn)) == table_names(*old(conn)).insert("USER"@)
                && user_rows(*final(conn)) == db::empty_user_rows(),
            r matches Err(e) ==> e matches Error::StorageError(_) && db::failed_step(
                *old(conn),
                *final(conn),
            ),
    {
        match db::create_user_table_raw(conn) {
            Ok(n) => Ok(n),
            Err(m) => Err(Error::StorageError(m)),
        }
    }

    /// Drops the `USER` table and every row in it; a store without one
    /// rejects the statement.
    pub fn drop_table(conn: &mut rusqlite::Connection) -> (r: Result<usize, Error>)
        ensures
            r matches Ok(_) ==> db::step_commits(*old(conn), *final(conn)) && account_rows(
                *final(conn),
            ) == account_rows(*old(conn)) && table_names(*old(conn)).contains("USER"@)
                && table_names(*final(conn)) == table_names(*old(conn)).remove("USER"@)
                && user_rows(*final(conn)) == db::empty_user_rows(),
            r matches Err(e) ==> e matches Error::StorageError(_) && db::failed_step(
                *old(conn),
                *final(conn),
            ),
    {
        match db::drop_user_table_raw(conn) {
            Ok(n) => Ok(n),
            Err(m) => Err(Error::StorageError(m)),
        }
    }

    /// Recomputes the salted verifier for a raw password and compares it
    /// with the stored one, succeeding exactly on a match.
    pub fn validate_password(&self, raw_password: String) -> (r: Result<(), Error>)
        ensures
            (r matches Ok(_)) <==> self.authenticates(raw_password@),
            r matches Err(e) ==> (e matches Error::AuthenticationFailed(n) && n@
                == self.user_name@),
    {
        let hashed = sha3_512_hashcode(&raw_password, &self.salt);
        let same = self.user_password == hashed;
        proof {
            if same {
                assert(self.user_password@ =~= hashed@);
            } else {
                assert(!(self.user_password@ =~= hashed@));
            }
        }
        if !same {
            return Err(Error::AuthenticationFailed(self.user_name.clone()));
        }
        Ok(())
    }
}

} // verus!
