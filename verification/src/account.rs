//! The `ACCOUNT` relation: a third-party credential entry owned by a user,
//! and its per-row operations.

use vstd::prelude::*;

use crate::db;
use crate::db::account_rows;
use crate::db::table_names;
use crate::db::user_rows;
use crate::error::Error;

verus! {

/// One row of the `ACCOUNT` table, keyed by `(user_name, account_name)`:
/// the secret's ciphertext, the nonce it was sealed with, and the plaintext
/// metadata fields.  The ciphertext is never updated without rotating the
/// nonce, so the two always travel together.
#[derive(Clone, Debug, PartialEq, Eq)]
pub struct Account {
    pub user_name: String,
    pub account_name: String,
    pub password: Vec<u8>,
    pub nonce: Vec<u8>,
    pub account_id: String,
    pub email: String,
    pub url: String,
    pub comment: String,
}

impl Account {
    /// The composite key of this record.
    pub open spec fn key(&self) -> db::AccountKeyV {
        (self.user_name@, self.account_name@)
    }

    /// The row this record stands for, without its key.
    pub open spec fn row(&self) -> db::AccountRowV {
        (self.password@, self.nonce@, self.account_id@, self.email@, self.url@, self.comment@)
    }

    pub fn new(
        user_name: String,
        account_name: String,
        password: Vec<u8>,
        nonce: Vec<u8>,
        account_id: String,
        email: String,
        url: String,
        comment: String,
    ) -> (r: Account)
        ensures
            r.user_name@ == user_name@,
            r.account_name@ == account_name@,
            r.password@ == password@,
            r.nonce@ == nonce@,
            r.account_id@ == account_id@,
            r.email@ == email@,
            r.url@ == url@,
            r.comment@ == comment@,
    {
        Account { user_name, account_name, password, nonce, account_id, email, url, comment }
    }

    /// Whether a row with this `(user, account)` key exists; a successful
    /// read changes nothing.
    pub fn exists_by_key(
        conn: &mut rusqlite::Connection,
        user_name: &String,
        account_name: &String,
    ) -> (r: Result<bool, Error>)
        ensures
            r matches Ok(b) ==> db::store_unchanged(*old(conn), *final(conn)) && b == account_rows(
                *old(conn),
            ).dom().contains((user_name@, account_name@)),
            r matches Err(e) ==> e matches Error::StorageError(_) && db::failed_step(
                *old(conn),
                *final(conn),
            ),
    {
        match db::select_account_raw(conn, user_name, account_name) {
            Ok(Some(_)) => Ok(true),
            Ok(None) => Ok(false),
            Err(m) => Err(Error::StorageError(m)),
        }
    }

    /// Reads one row by its composite key, or `None` if the pair is free;
    /// a successful read changes nothing.
    pub fn select_by_key(
        conn: &mut rusqlite::Connection,
        user_name: &String,
        account_name: &String,
    ) -> (r: Result<Option<Account>, Error>)
        ensures
            r matches Ok(_) ==> db::store_unchanged(*old(conn), *final(conn)),
            r matches Ok(Some(a)) ==> account_rows(*old(conn)).dom().contains(
                (user_name@, account_name@),
            ) && a.key() == (user_name@, account_name@) && account_rows(*old(conn))[
                (user_name@, account_name@)
            ] == a.row(),
            r matches Ok(None) ==> !account_rows(*old(conn)).dom().contains(
                (user_name@, account_name@),
            ),
            r matches Err(e) ==> e matches Error::StorageError(_) && db::failed_step(
                *old(conn),
                *final(conn),
            ),
    {
        match db::select_account_raw(conn, user_name, account_name) {
            Ok(Some(row)) => Ok(
                Some(
                    Account::new(
                        user_name.clone(),
                        account_name.clone(),
                        row.0,
                        row.1,
                        row.2,
                        row.3,
                        row.4,
                        row.5,
                    ),
                ),
            ),
            Ok(None) => Ok(None),
            Err(m) => Err(Error::StorageError(m)),
        }
    }

    /// Creates the `ACCOUNT` table, which starts empty; a store that
    /// already has one rejects the statement.
    pub fn create_table(conn: &mut rusqlite::Connection) -> (r: Result<usize, Error>)
        ensures
            r matches Ok(_) ==> db::step_commits(*old(conn), *final(conn)) && user_rows(
                *final(conn),
            ) == user_rows(*old(conn)) && !table_names(*old(conn)).contains("ACCOUNT"@)
                && table_names(*final(conn)) == table_names(*old(conn)).insert("ACCOUNT"@)
                && account_rows(*final(conn)) == db::empty_account_rows(),
            r matches Err(e) ==> e matches Error::StorageError(_) && db::failed_step(
                *old(conn),
                *final(conn),
            ),
    {
        match db::create_account_table_raw(conn) {
            Ok(n) => Ok(n),
            Err(m) => Err(Error::StorageError(m)),
        }
    }

    /// Drops the `ACCOUNT` table and every row in it; a store without one
    /// rejects the statement.
    pub fn drop_table(conn: &mut rusqlite::Connection) -> (r: Result<usize, Error>)
        ensures
            r matches Ok(_) ==> db::step_commits(*old(conn), *final(conn)) && user_rows(
                *final(conn),
            ) == user_rows(*old(conn)) && table_names(*old(conn)).contains("ACCOUNT"@)
                && table_names(*final(conn)) == table_names(*old(conn)).remove("ACCOUNT"@)
                && account_rows(*final(conn)) == db::empty_account_rows(),
            r matches Err(e) ==> e matches Error::StorageError(_) && db::failed_step(
                *old(conn),
                *final(conn),
            ),
    {
        match db::drop_account_table_raw(conn) {
            Ok(n) => Ok(n),
            Err(m) => Err(Error::StorageError(m)),
        }
    }

    /// Replaces the row keyed by this record's `(user, account)` pair with
    /// its fields: ciphertext, nonce and metadata are replaced together,
    /// never the ciphertext without a fresh nonce.  With no such row the
    /// statement matches nothing and reports zero changes; callers must
    /// check existence first.
    pub fn update(self, conn: &mut rusqlite::Connection) -> (r: Result<usize, Error>)
        ensures
            r matches Ok(n) ==> db::step_commits(*old(conn), *final(conn)) && table_names(
                *final(conn),
            ) == table_names(*old(conn)) && user_rows(*final(conn)) == user_rows(*old(conn)) && (
            if account_rows(*old(conn)).dom().contains(self.key()) {
                n == 1 && account_rows(*final(conn)) == account_rows(*old(conn)).insert(
                    self.key(),
                    self.row(),
                )
            } else {
                n == 0 && account_rows(*final(conn)) == account_rows(*old(conn))
            }),
            r matches Err(e) ==> e matches Error::StorageError(_) && db::failed_step(
                *old(conn),
                *final(conn),
            ),
    {
        match db::update_account_raw(
            conn,
            &self.user_name,
            &self.account_name,
            &self.password,
            &self.nonce,
            &self.account_id,
            &self.email,
            &self.url,
            &self.comment,
        ) {
            Ok(n) => Ok(n),
            Err(m) => Err(Error::StorageError(m)),
        }
    }

    /// Inserts this record as a new row; the composite primary key makes a
    /// duplicate `(user, account)` pair fail as a storage error — an insert
    /// for an existing key fails, it never merges.
    pub fn insert(self, conn: &mut rusqlite::Connection) -> (r: Result<usize, Error>)
        ensures
            r matches Ok(n) ==> db::step_commits(*old(conn), *final(conn)) && table_names(
                *final(conn),
            ) == table_names(*old(conn)) && user_rows(*final(conn)) == user_rows(*old(conn)) && n
                == 1 && !account_rows(*old(conn)).dom().contains(self.key()) && account_rows(
                *final(conn),
            ) == account_rows(*old(conn)).insert(self.key(), self.row()),
            r matches Err(e) ==> e matches Error::StorageError(_) && db::failed_step(
                *old(conn),
                *final(conn),
            ),
    {
        match db::insert_account_raw(
            conn,
            &self.user_name,
            &self.account_name,
            &self.password,
            &self.nonce,
            &self.account_id,
            &self.email,
            &self.url,
            &self.comment,
        ) {
            Ok(n) => Ok(n),
            Err(m) => Err(Error::StorageError(m)),
        }
    }
}

} // verus!
