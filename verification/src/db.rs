//! The relational store, as the verified code sees it.
//!
//! The on-disk state behind a [`rusqlite::Connection`] is modelled by
//! uninterpreted spec functions: the set of table names, the rows of the
//! `USER` and `ACCOUNT` tables, and whether an explicit transaction is open.
//! Each comes in a *live* flavour (what statements on this handle observe,
//! including uncommitted writes) and a *committed* flavour (what is durable).
//! Every SQL statement the vault issues goes through exactly one trusted
//! wrapper below, whose contract states, over those functions, what the
//! statement does according to SQLite's documented behaviour.  In
//! particular, a failed statement promises only [`failed_step`]: SQLite may
//! roll an open transaction back by itself on certain errors.  A wrapper
//! reports the engine's error as its rendered message.

use vstd::prelude::*;

use rusqlite::OptionalExtension;

verus! {

/// One `USER` row without its key: the salted password hash and the salt.
pub type UserRowV = (Seq<u8>, Seq<char>);

/// The composite key of an `ACCOUNT` row: `(user_name, account_name)`.
pub type AccountKeyV = (Seq<char>, Seq<char>);

/// One `ACCOUNT` row without its key: ciphertext, nonce, account id, email,
/// url and comment.
pub type AccountRowV = (Seq<u8>, Seq<u8>, Seq<char>, Seq<char>, Seq<char>, Seq<char>);

#[verifier::external_type_specification]
#[verifier::external_body]
pub struct ExConnection(rusqlite::Connection);

/// The names of the tables this handle currently sees (`sqlite_%` internals
/// excluded), uncommitted DDL included.
pub uninterp spec fn table_names(c: rusqlite::Connection) -> Set<Seq<char>>;

/// The rows of the `USER` table as this handle sees them, keyed by
/// `USER_NAME`; the empty map while the table does not exist.
pub uninterp spec fn user_rows(c: rusqlite::Connection) -> Map<Seq<char>, UserRowV>;

/// The rows of the `ACCOUNT` table as this handle sees them, keyed by
/// `(USER_NAME, ACCOUNT_NAME)`; the empty map while the table does not exist.
pub uninterp spec fn account_rows(c: rusqlite::Connection) -> Map<AccountKeyV, AccountRowV>;

/// The durable counterpart of [`table_names`]: what a fresh handle to the
/// same store would see.
pub uninterp spec fn committed_table_names(c: rusqlite::Connection) -> Set<Seq<char>>;

/// The durable counterpart of [`user_rows`].
pub uninterp spec fn committed_user_rows(c: rusqlite::Connection) -> Map<Seq<char>, UserRowV>;

/// The durable counterpart of [`account_rows`].
pub uninterp spec fn committed_account_rows(c: rusqlite::Connection) -> Map<AccountKeyV, AccountRowV>;

/// Whether an explicit transaction is open on this handle (autocommit off).
pub uninterp spec fn in_transaction(c: rusqlite::Connection) -> bool;

/// Everything one observes through a handle, gathered into one value.
#[verifier::ext_equal]
pub ghost struct StoreView {
    pub tables: Set<Seq<char>>,
    pub users: Map<Seq<char>, UserRowV>,
    pub accounts: Map<AccountKeyV, AccountRowV>,
}

/// The store as statements on this handle observe it.
pub open spec fn live_view(c: rusqlite::Connection) -> StoreView {
    StoreView { tables: table_names(c), users: user_rows(c), accounts: account_rows(c) }
}

/// The store as it is durably committed.
pub open spec fn committed_view(c: rusqlite::Connection) -> StoreView {
    StoreView {
        tables: committed_table_names(c),
        users: committed_user_rows(c),
        accounts: committed_account_rows(c),
    }
}

/// A handle at rest: no transaction open, nothing pending.  A freshly opened
/// connection is quiescent, and every successfully finished command leaves
/// the handle quiescent again.
pub open spec fn quiescent(c: rusqlite::Connection) -> bool {
    &&& !in_transaction(c)
    &&& committed_view(c) == live_view(c)
}

/// Both views and the transaction flag are exactly as they were.
pub open spec fn store_unchanged(pre: rusqlite::Connection, post: rusqlite::Connection) -> bool {
    &&& live_view(post) == live_view(pre)
    &&& committed_view(post) == committed_view(pre)
    &&& in_transaction(post) == in_transaction(pre)
}

/// The engine rolled an open transaction back by itself: autocommit is on
/// again, nothing was committed, and the handle sees the durable state from
/// before.  SQLite documents this outcome for certain errors on a statement
/// within a transaction (disk full, I/O error, out of memory, busy,
/// interrupt).
pub open spec fn auto_rolled_back(pre: rusqlite::Connection, post: rusqlite::Connection) -> bool {
    &&& in_transaction(pre)
    &&& !in_transaction(post)
    &&& live_view(post) == committed_view(pre)
    &&& committed_view(post) == committed_view(pre)
}

/// What a failed statement may leave behind: either nothing changed, or the
/// open transaction went down with it (see [`auto_rolled_back`]).
pub open spec fn failed_step(pre: rusqlite::Connection, post: rusqlite::Connection) -> bool {
    ||| store_unchanged(pre, post)
    ||| auto_rolled_back(pre, post)
}

/// How one successful SQL statement relates the durable state before it to
/// the durable state after it: inside a transaction nothing becomes
/// durable, in autocommit mode the statement's outcome does.
pub open spec fn step_commits(pre: rusqlite::Connection, post: rusqlite::Connection) -> bool {
    &&& in_transaction(post) == in_transaction(pre)
    &&& committed_view(post) == if in_transaction(pre) {
        committed_view(pre)
    } else {
        live_view(post)
    }
}

/// The `USER` table with no rows in it.
pub open spec fn empty_user_rows() -> Map<Seq<char>, UserRowV> {
    Map::empty()
}

/// The `ACCOUNT` table with no rows in it.
pub open spec fn empty_account_rows() -> Map<AccountKeyV, AccountRowV> {
    Map::empty()
}

/// Relies on `rusqlite::Connection::execute_batch` running `BEGIN`: SQLite
/// opens a transaction, changes no data, and refuses to start a transaction
/// within a transaction, so success implies the handle held no pending
/// writes.  This contract names every component of the model directly.
#[verifier::external_body]
pub(crate) fn begin_raw(conn: &mut rusqlite::Connection) -> (r: Result<(), String>)
    ensures
        table_names(*final(conn)) == table_names(*old(conn)),
        user_rows(*final(conn)) == user_rows(*old(conn)),
        account_rows(*final(conn)) == account_rows(*old(conn)),
        committed_table_names(*final(conn)) == committed_table_names(*old(conn)),
        committed_user_rows(*final(conn)) == committed_user_rows(*old(conn)),
        committed_account_rows(*final(conn)) == committed_account_rows(*old(conn)),
        r matches Ok(_) ==> !in_transaction(*old(conn)) && in_transaction(*final(conn))
            && committed_table_names(*old(conn)) == table_names(*old(conn))
            && committed_user_rows(*old(conn)) == user_rows(*old(conn))
            && committed_account_rows(*old(conn)) == account_rows(*old(conn)),
        r matches Err(_) ==> in_transaction(*final(conn)) == in_transaction(*old(conn)),
{
    conn.execute_batch("BEGIN DEFERRED").map_err(|e| format!("{}", e))
}

/// Relies on `rusqlite::Connection::execute_batch` running `COMMIT`: on
/// success the writes of the open transaction become durable.  On failure
/// nothing is promised; SQLite may or may not have rolled back.
#[verifier::external_body]
pub(crate) fn commit_raw(conn: &mut rusqlite::Connection) -> (r: Result<(), String>)
    ensures
        r matches Ok(_) ==> !in_transaction(*final(conn)) && live_view(*final(conn)) == live_view(
            *old(conn),
        ) && committed_view(*final(conn)) == live_view(*old(conn)),
{
    conn.execute_batch("COMMIT").map_err(|e| format!("{}", e))
}

/// Relies on `rusqlite::Connection::execute_batch` running `ROLLBACK`: on
/// success every uncommitted write is discarded and the handle sees the
/// durable state again.  On failure nothing is promised.
#[verifier::external_body]
pub(crate) fn rollback_raw(conn: &mut rusqlite::Connection) -> (r: Result<(), String>)
    ensures
        r matches Ok(_) ==> !in_transaction(*final(conn)) && live_view(*final(conn))
            == committed_view(*old(conn)) && committed_view(*final(conn)) == committed_view(
            *old(conn),
        ),
{
    conn.execute_batch("ROLLBACK").map_err(|e| format!("{}", e))
}

/// Relies on `rusqlite::Connection::execute` running `CREATE TABLE USER`:
/// SQLite refuses to create a table that already exists, so success implies
/// the name was free; the new table starts empty.  A failure promises only
/// [`failed_step`].
#[verifier::external_body]
pub(crate) fn create_user_table_raw(conn: &mut rusqlite::Connection) -> (r: Result<
    usize,
    String,
>)
    ensures
        r matches Ok(_) ==> step_commits(*old(conn), *final(conn)) && account_rows(*final(conn))
            == account_rows(*old(conn)) && !table_names(*old(conn)).contains("USER"@)
            && table_names(*final(conn)) == table_names(*old(conn)).insert("USER"@) && user_rows(
            *final(conn),
        ) == empty_user_rows(),
        r matches Err(_) ==> failed_step(*old(conn), *final(conn)),
{
    conn.execute(
        "CREATE TABLE USER(
            USER_NAME TEXT PRIMARY KEY,
            USER_PASSWORD BLOB NOT NULL,
            SALT TEXT NOT NULL
        )",
        [],
    ).map_err(|e| format!("{}", e))
}

/// Relies on `rusqlite::Connection::execute` running `DROP TABLE USER`:
/// SQLite refuses to drop a table that does not exist; on success the table
/// and its rows are gone.  A failure promises only [`failed_step`].
#[verifier::external_body]
pub(crate) fn drop_user_table_raw(conn: &mut rusqlite::Connection) -> (r: Result<usize, String>)
    ensures
        r matches Ok(_) ==> step_commits(*old(conn), *final(conn)) && account_rows(*final(conn))
            == account_rows(*old(conn)) && table_names(*old(conn)).contains("USER"@)
            && table_names(*final(conn)) == table_names(*old(conn)).remove("USER"@) && user_rows(
            *final(conn),
        ) == empty_user_rows(),
        r matches Err(_) ==> failed_step(*old(conn), *final(conn)),
{
    conn.execute("DROP TABLE USER", []).map_err(|e| format!("{}", e))
}

/// Relies on `rusqlite::Connection::execute` running `CREATE TABLE ACCOUNT`:
/// as for the `USER` table, success implies the name was free and the new
/// table starts empty.  A failure promises only [`failed_step`].
#[verifier::external_body]
pub(crate) fn create_account_table_raw(conn: &mut rusqlite::Connection) -> (r: Result<
    usize,
    String,
>)
    ensures
        r matches Ok(_) ==> step_commits(*old(conn), *final(conn)) && user_rows(*final(conn))
            == user_rows(*old(conn)) && !table_names(*old(conn)).contains("ACCOUNT"@)
            && table_names(*final(conn)) == table_names(*old(conn)).insert("ACCOUNT"@)
            && account_rows(*final(conn)) == empty_account_rows(),
        r matches Err(_) ==> failed_step(*old(conn), *final(conn)),
{
    conn.execute(
        "CREATE TABLE ACCOUNT(
            USER_NAME TEXT,
            ACCOUNT_NAME TEXT,
            ACCOUNT_PASSWORD BLOB NOT NULL,
            NONCE BLOB NOT NULL,
            ACCOUNT_ID TEXT NOT NULL,
            EMAIL TEXT NOT NULL,
            URL TEXT NOT NULL,
            COMMENT TEXT NOT NULL,
            PRIMARY KEY(USER_NAME, ACCOUNT_NAME)
        )",
        [],
    ).map_err(|e| format!("{}", e))
}

/// Relies on `rusqlite::Connection::execute` running `DROP TABLE ACCOUNT`.
/// A failure promises only [`failed_step`].
#[verifier::external_body]
pub(crate) fn drop_account_table_raw(conn: &mut rusqlite::Connection) -> (r: Result<
    usize,
    String,
>)
    ensures
        r matches Ok(_) ==> step_commits(*old(conn), *final(conn)) && user_rows(*final(conn))
            == user_rows(*old(conn)) && table_names(*old(conn)).contains("ACCOUNT"@)
            && table_names(*final(conn)) == table_names(*old(conn)).remove("ACCOUNT"@)
            && account_rows(*final(conn)) == empty_account_rows(),
        r matches Err(_) ==> failed_step(*old(conn), *final(conn)),
{
    conn.execute("DROP TABLE ACCOUNT", []).map_err(|e| format!("{}", e))
}

/// What listing the tables returns: every listed name is a table, every
/// table is listed somewhere, and no name is listed twice.
pub open spec fn list_tables_post(c: rusqlite::Connection, names: Seq<String>) -> bool {
    &&& forall|i: int| 0 <= i < names.len() ==> table_names(c).contains(#[trigger] names[i]@)
    &&& forall|s: Seq<char>|
        #[trigger] table_names(c).contains(s) ==> exists|i: int|
            0 <= i < names.len() && #[trigger] names[i]@ == s
    &&& forall|i: int, j: int|
        0 <= i < names.len() && 0 <= j < names.len() && i != j ==> #[trigger] names[i]@
            != #[trigger] names[j]@
}

/// Relies on `rusqlite::Connection::prepare` and `Statement::query_map` over
/// `SQLITE_MASTER`: the query lists each table's name exactly once
/// (`sqlite_%` internals excluded) and changes nothing when it succeeds.  A
/// failure promises only [`failed_step`].
#[verifier::external_body]
pub(crate) fn list_tables_raw(conn: &mut rusqlite::Connection) -> (r: Result<Vec<String>, String>)
    ensures
        r matches Ok(v) ==> store_unchanged(*old(conn), *final(conn)) && list_tables_post(
            *old(conn),
            v@,
        ),
        r matches Err(_) ==> failed_step(*old(conn), *final(conn)),
{
    let run = || -> Result<Vec<String>, rusqlite::Error> {
        let mut stmt = conn.prepare(
            "SELECT NAME FROM SQLITE_MASTER
             WHERE TYPE = 'table' AND NAME NOT LIKE 'sqlite_%'
             ORDER BY NAME",
        )?;
        let rows = stmt.query_map([], |row| row.get(0))?;
        rows.collect()
    };
    run().map_err(|e| format!("{}", e))
}

/// Relies on `rusqlite::Connection::query_row` with `.optional()` selecting
/// one `USER` row by primary key: `Some` returns exactly the stored hash and
/// salt, `None` means no row has this name, and a successful read changes
/// nothing.  A failure promises only [`failed_step`].
#[verifier::external_body]
pub(crate) fn select_user_raw(conn: &mut rusqlite::Connection, name: &String) -> (r: Result<
    Option<(Vec<u8>, String)>,
    String,
>)
    ensures
        r matches Ok(_) ==> store_unchanged(*old(conn), *final(conn)),
        r matches Ok(Some(row)) ==> user_rows(*old(conn)).dom().contains(name@)
            && user_rows(*old(conn))[name@] == (row.0@, row.1@),
        r matches Ok(None) ==> !user_rows(*old(conn)).dom().contains(name@),
        r matches Err(_) ==> failed_step(*old(conn), *final(conn)),
{
    conn.query_row(
        "SELECT USER_PASSWORD, SALT FROM USER WHERE USER_NAME = ?1",
        (name,),
        |row| Ok((row.get(0)?, row.get(1)?)),
    ).optional().map_err(|e| format!("{}", e))
}

/// Relies on `rusqlite::Connection::execute` running an `INSERT` into
/// `USER`: the primary key makes SQLite refuse a duplicate name.  A failure
/// promises only [`failed_step`].
#[verifier::external_body]
pub(crate) fn insert_user_raw(
    conn: &mut rusqlite::Connection,
    name: &String,
    hash: &Vec<u8>,
    salt: &String,
) -> (r: Result<usize, String>)
    ensures
        r matches Ok(n) ==> step_commits(*old(conn), *final(conn)) && table_names(*final(conn))
            == table_names(*old(conn)) && account_rows(*final(conn)) == account_rows(*old(conn))
            && n == 1 && !user_rows(*old(conn)).dom().contains(name@) && user_rows(*final(conn))
            == user_rows(*old(conn)).insert(name@, (hash@, salt@)),
        r matches Err(_) ==> failed_step(*old(conn), *final(conn)),
{
    conn.execute(
        "INSERT INTO USER (USER_NAME, USER_PASSWORD, SALT) VALUES (?1, ?2, ?3)",
        (name, hash, salt),
    ).map_err(|e| format!("{}", e))
}

/// Relies on `rusqlite::Connection::execute` running an `UPDATE` of the
/// `USER` row keyed by the old name: with no such row the statement matches
/// nothing and reports zero changes; with one, the row is replaced whole,
/// and the primary key makes SQLite refuse a rename onto a taken name.  A
/// failure promises only [`failed_step`].
#[verifier::external_body]
pub(crate) fn update_user_raw(
    conn: &mut rusqlite::Connection,
    name: &String,
    hash: &Vec<u8>,
    salt: &String,
    name_old: &String,
) -> (r: Result<usize, String>)
    ensures
        r matches Ok(n) ==> step_commits(*old(conn), *final(conn)) && table_names(*final(conn))
            == table_names(*old(conn)) && account_rows(*final(conn)) == account_rows(*old(conn))
            && (if user_rows(*old(conn)).dom().contains(name_old@) {
            n == 1 && user_rows(*final(conn)) == user_rows(*old(conn)).remove(name_old@).insert(
                name@,
                (hash@, salt@),
            )
        } else {
            n == 0 && user_rows(*final(conn)) == user_rows(*old(conn))
        }),
        r matches Err(_) ==> failed_step(*old(conn), *final(conn)),
{
    conn.execute(
        "UPDATE USER SET (USER_NAME, USER_PASSWORD, SALT) = (?1, ?2, ?3) WHERE USER_NAME = ?4",
        (name, hash, salt, name_old),
    ).map_err(|e| format!("{}", e))
}

/// Relies on `rusqlite::Connection::query_row` with `.optional()` selecting
/// one `ACCOUNT` row by its composite primary key; a successful read changes
/// nothing.  A failure promises only [`failed_step`].
#[verifier::external_body]
pub(crate) fn select_account_raw(
    conn: &mut rusqlite::Connection,
    user_name: &String,
    account_name: &String,
) -> (r: Result<Option<(Vec<u8>, Vec<u8>, String, String, String, String)>, String>)
    ensures
        r matches Ok(_) ==> store_unchanged(*old(conn), *final(conn)),
        r matches Ok(Some(row)) ==> account_rows(*old(conn)).dom().contains(
            (user_name@, account_name@),
        ) && account_rows(*old(conn))[(user_name@, account_name@)] == (
            row.0@,
            row.1@,
            row.2@,
            row.3@,
            row.4@,
            row.5@,
        ),
        r matches Ok(None) ==> !account_rows(*old(conn)).dom().contains(
            (user_name@, account_name@),
        ),
        r matches Err(_) ==> failed_step(*old(conn), *final(conn)),
{
    conn.query_row(
        "SELECT ACCOUNT_PASSWORD, NONCE, ACCOUNT_ID, EMAIL, URL, COMMENT
         FROM ACCOUNT WHERE USER_NAME = ?1 AND ACCOUNT_NAME = ?2",
        (user_name, account_name),
        |row| {
            Ok((row.get(0)?, row.get(1)?, row.get(2)?, row.get(3)?, row.get(4)?, row.get(5)?))
        },
    ).optional().map_err(|e| format!("{}", e))
}

/// Relies on `rusqlite::Connection::execute` running an `UPDATE` of the
/// `ACCOUNT` row keyed by `(user, account)`: with no such row the statement
/// matches nothing and reports zero changes; with one, every non-key field
/// is replaced together — ciphertext, nonce and metadata travel as a unit.
/// A failure promises only [`failed_step`].
#[verifier::external_body]
pub(crate) fn update_account_raw(
    conn: &mut rusqlite::Connection,
    user_name: &String,
    account_name: &String,
    password: &Vec<u8>,
    nonce: &Vec<u8>,
    account_id: &String,
    email: &String,
    url: &String,
    comment: &String,
) -> (r: Result<usize, String>)
    ensures
        r matches Ok(n) ==> step_commits(*old(conn), *final(conn)) && table_names(*final(conn))
            == table_names(*old(conn)) && user_rows(*final(conn)) == user_rows(*old(conn)) && (
        if account_rows(*old(conn)).dom().contains((user_name@, account_name@)) {
            n == 1 && account_rows(*final(conn)) == account_rows(*old(conn)).insert(
                (user_name@, account_name@),
                (password@, nonce@, account_id@, email@, url@, comment@),
            )
        } else {
            n == 0 && account_rows(*final(conn)) == account_rows(*old(conn))
        }),
        r matches Err(_) ==> failed_step(*old(conn), *final(conn)),
{
    conn.execute(
        "UPDATE ACCOUNT
         SET (ACCOUNT_PASSWORD, NONCE, ACCOUNT_ID, EMAIL, URL, COMMENT)
         = (?3, ?4, ?5, ?6, ?7, ?8)
         WHERE USER_NAME = ?1 AND ACCOUNT_NAME = ?2",
        (user_name, account_name, password, nonce, account_id, email, url, comment),
    ).map_err(|e| format!("{}", e))
}

/// Relies on `rusqlite::Connection::execute` running an `INSERT` into
/// `ACCOUNT`: the composite primary key makes SQLite refuse a duplicate
/// `(user, account)` pair.  A failure promises only [`failed_step`].
#[verifier::external_body]
pub(crate) fn insert_account_raw(
    conn: &mut rusqlite::Connection,
    user_name: &String,
    account_name: &String,
    password: &Vec<u8>,
    nonce: &Vec<u8>,
    account_id: &String,
    email: &String,
    url: &String,
    comment: &String,
) -> (r: Result<usize, String>)
    ensures
        r matches Ok(n) ==> step_commits(*old(conn), *final(conn)) && table_names(*final(conn))
            == table_names(*old(conn)) && user_rows(*final(conn)) == user_rows(*old(conn)) && n
            == 1 && !account_rows(*old(conn)).dom().contains((user_name@, account_name@))
            && account_rows(*final(conn)) == account_rows(*old(conn)).insert(
            (user_name@, account_name@),
            (password@, nonce@, account_id@, email@, url@, comment@),
        ),
        r matches Err(_) ==> failed_step(*old(conn), *final(conn)),
{
    conn.execute(
        "INSERT INTO ACCOUNT
         (USER_NAME, ACCOUNT_NAME, ACCOUNT_PASSWORD, NONCE, ACCOUNT_ID, EMAIL, URL, COMMENT)
         VALUES (?1, ?2, ?3, ?4, ?5, ?6, ?7, ?8)",
        (user_name, account_name, password, nonce, account_id, email, url, comment),
    ).map_err(|e| format!("{}", e))
}

} // verus!
