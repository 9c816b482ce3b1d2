//! Tests of the commands, the execution framework and the vault's
//! end-to-end behaviour.

use rusqlite::Connection;

use pswdmng::encryption::decrypt;
use pswdmng::account::Account;
use pswdmng::sub_command::AddAccount;
use pswdmng::sub_command::AddUser;
use pswdmng::sub_command::Initializer;
use pswdmng::sub_command::SubCommand;
use pswdmng::sub_command::UpdateUser;
use pswdmng::user::User;
use pswdmng::ArgAccount;
use pswdmng::ArgUser;
use pswdmng::Command;
use pswdmng::Error;

fn test_key() -> Vec<u8> {
    String::from("12345678901234567890123456789012").as_bytes().to_vec()
}

fn test_arg_account(name: &str, secret: &str) -> ArgAccount {
    ArgAccount::new(
        String::from(name),
        String::from(secret),
        String::from("id"),
        String::from("a@b.c"),
        String::from("https://site"),
        String::from("note"),
    )
}

#[test]
fn add_user_test_new() {
    let user = ArgUser::new(String::from("name"), String::from("password"));
    let result = AddUser::new(user);
    assert_eq!(result.new_user.name, "name");
    assert_eq!(result.new_user.raw_password, "password");
}

#[test]
fn add_user_test_run() {
    let mut conn = Connection::open_in_memory().unwrap();

    let initializer = Initializer::new();
    initializer.run(&mut conn).unwrap();

    let user = ArgUser::new(String::from("name"), String::from("pass"));
    let add_user = AddUser::new(user);
    assert_eq!(add_user.run(&mut conn), Ok(()));

    let user = ArgUser::new(String::from("name"), String::from("pass"));
    let add_user = AddUser::new(user);
    assert_eq!(
        add_user.run(&mut conn),
        Err(Error::UserAlreadyExists(String::from("name")))
    );

    conn.close().unwrap();
}

#[test]
fn initialize_test_run() {
    let mut conn = Connection::open_in_memory().unwrap();

    let initializer = Initializer::new();
    assert_eq!(initializer.run(&mut conn).unwrap(), ());

    let initializer = Initializer::new();
    assert_eq!(initializer.run(&mut conn), Err(Error::AlreadyInitialized));

    conn.close().unwrap();
}

#[test]
fn update_user_test_new() {
    let old_user = ArgUser::new(String::from("old_name"), String::from("old_pass"));
    let new_user = ArgUser::new(String::from("new_name"), String::from("new_pass"));
    let update_user = UpdateUser::new(old_user, new_user);

    assert_eq!(update_user.old_user.name, String::from("old_name"));
    assert_eq!(update_user.old_user.raw_password, String::from("old_pass"));
    assert_eq!(update_user.new_user.name, String::from("new_name"));
    assert_eq!(update_user.new_user.raw_password, String::from("new_pass"));
}

#[test]
fn test_run_same_name() {
    let mut conn = Connection::open_in_memory().unwrap();
    let initializer = Initializer::new();
    initializer.run(&mut conn).unwrap();

    let user = ArgUser::new(String::from("name"), String::from("pass"));
    let add_user = AddUser::new(user);
    add_user.run(&mut conn).unwrap();
    let created = User::select_by_name(&mut conn, &String::from("name"));

    let old_user = ArgUser::new(String::from("name"), String::from("pass"));
    let new_user = ArgUser::new(String::from("name"), String::from("new_pass"));
    let update_user = UpdateUser::new(old_user, new_user);
    assert_eq!(update_user.run(&mut conn), Ok(()));

    let updated = User::select_by_name(&mut conn, &String::from("name"));
    assert_ne!(updated, created);

    conn.close().unwrap();
}

#[test]
fn test_run_diff_name() {
    let mut conn = Connection::open_in_memory().unwrap();
    let initializer = Initializer::new();
    initializer.run(&mut conn).unwrap();

    let user = ArgUser::new(String::from("name"), String::from("pass"));
    let add_user = AddUser::new(user);
    add_user.run(&mut conn).unwrap();
    let created = User::select_by_name(&mut conn, &String::from("name"));

    let old_user = ArgUser::new(String::from("name"), String::from("pass"));
    let new_user = ArgUser::new(String::from("new_name"), String::from("new_pass"));
    let update_user = UpdateUser::new(old_user, new_user);
    assert_eq!(update_user.run(&mut conn), Ok(()));

    let updated = User::select_by_name(&mut conn, &String::from("new_name"));
    assert_ne!(updated, created);

    conn.close().unwrap();
}

#[test]
fn test_run_err() {
    let mut conn = Connection::open_in_memory().unwrap();
    let initializer = Initializer::new();
    initializer.run(&mut conn).unwrap();

    let user = ArgUser::new(String::from("name"), String::from("pass"));
    let add_user = AddUser::new(user);
    add_user.run(&mut conn).unwrap();

    let user = ArgUser::new(String::from("new_name"), String::from("pass"));
    let add_user = AddUser::new(user);
    add_user.run(&mut conn).unwrap();

    let created = User::select_by_name(&mut conn, &String::from("name"));

    let old_user = ArgUser::new(String::from("_name"), String::from("pass"));
    let new_user = ArgUser::new(String::from("new_name"), String::from("new_pass"));
    let update_user = UpdateUser::new(old_user, new_user);
    assert_eq!(
        update_user.run(&mut conn),
        Err(Error::AuthenticationFailed(String::from("_name")))
    );
    let rollbacked = User::select_by_name(&mut conn, &String::from("name"));
    assert_eq!(rollbacked, created);

    let old_user = ArgUser::new(String::from("name"), String::from("_pass"));
    let new_user = ArgUser::new(String::from("new_name"), String::from("new_pass"));
    let update_user = UpdateUser::new(old_user, new_user);
    assert_eq!(
        update_user.run(&mut conn),
        Err(Error::AuthenticationFailed(String::from("name")))
    );
    let rollbacked = User::select_by_name(&mut conn, &String::from("name"));
    assert_eq!(rollbacked, created);

    let old_user = ArgUser::new(String::from("name"), String::from("pass"));
    let new_user = ArgUser::new(String::from("new_name"), String::from("new_pass"));
    let update_user = UpdateUser::new(old_user, new_user);
    assert_eq!(
        update_user.run(&mut conn),
        Err(Error::UserAlreadyExists(String::from("new_name")))
    );
    let rollbacked = User::select_by_name(&mut conn, &String::from("name"));
    assert_eq!(rollbacked, created);

    conn.close().unwrap();
}

#[test]
fn test_execute_initialize_then_add_user() {
    let mut conn = Connection::open_in_memory().unwrap();

    assert_eq!(pswdmng::execute(&mut conn, Command::Initialize), Ok(()));
    assert_eq!(
        pswdmng::execute(&mut conn, Command::Initialize),
        Err(Error::AlreadyInitialized)
    );

    let alice = ArgUser::new(String::from("alice"), String::from("secret"));
    assert_eq!(pswdmng::execute(&mut conn, Command::AddUser(alice)), Ok(()));

    let alice_again = ArgUser::new(String::from("alice"), String::from("other"));
    assert_eq!(
        pswdmng::execute(&mut conn, Command::AddUser(alice_again)),
        Err(Error::UserAlreadyExists(String::from("alice")))
    );

    conn.close().unwrap();
}

#[test]
fn test_execute_on_uninitialized_store() {
    let mut conn = Connection::open_in_memory().unwrap();
    let user = ArgUser::new(String::from("alice"), String::from("secret"));
    assert!(matches!(
        pswdmng::execute(&mut conn, Command::AddUser(user)),
        Err(Error::StorageError(_))
    ));
    conn.close().unwrap();
}

#[test]
fn test_execute_rename_collision() {
    let mut conn = Connection::open_in_memory().unwrap();
    pswdmng::execute(&mut conn, Command::Initialize).unwrap();
    let alice = ArgUser::new(String::from("alice"), String::from("secret"));
    pswdmng::execute(&mut conn, Command::AddUser(alice)).unwrap();
    let bob = ArgUser::new(String::from("bob"), String::from("hunter"));
    pswdmng::execute(&mut conn, Command::AddUser(bob)).unwrap();

    let alice_row = User::select_by_name(&mut conn, &String::from("alice")).unwrap();
    let bob_row = User::select_by_name(&mut conn, &String::from("bob")).unwrap();

    let old_user = ArgUser::new(String::from("alice"), String::from("secret"));
    let new_user = ArgUser::new(String::from("bob"), String::from("x"));
    assert_eq!(
        pswdmng::execute(&mut conn, Command::UpdateUser(old_user, new_user)),
        Err(Error::UserAlreadyExists(String::from("bob")))
    );

    // Neither row was modified.
    assert_eq!(
        User::select_by_name(&mut conn, &String::from("alice")).unwrap(),
        alice_row
    );
    assert_eq!(
        User::select_by_name(&mut conn, &String::from("bob")).unwrap(),
        bob_row
    );

    conn.close().unwrap();
}

#[test]
fn test_authentication_gate_leaves_store_unchanged() {
    let mut conn = Connection::open_in_memory().unwrap();
    pswdmng::execute(&mut conn, Command::Initialize).unwrap();
    let alice = ArgUser::new(String::from("alice"), String::from("secret"));
    pswdmng::execute(&mut conn, Command::AddUser(alice)).unwrap();

    let before = User::select_by_name(&mut conn, &String::from("alice")).unwrap();

    let old_user = ArgUser::new(String::from("alice"), String::from("wrong"));
    let new_user = ArgUser::new(String::from("alice"), String::from("newpass"));
    assert_eq!(
        pswdmng::execute(&mut conn, Command::UpdateUser(old_user, new_user)),
        Err(Error::AuthenticationFailed(String::from("alice")))
    );

    let after = User::select_by_name(&mut conn, &String::from("alice")).unwrap();
    assert_eq!(after.user_name, before.user_name);
    assert_eq!(after.user_password, before.user_password);
    assert_eq!(after.salt, before.salt);

    conn.close().unwrap();
}

#[test]
fn test_execute_add_account() {
    let mut conn = Connection::open_in_memory().unwrap();
    pswdmng::execute(&mut conn, Command::Initialize).unwrap();
    let alice = ArgUser::new(String::from("alice"), String::from("secret"));
    pswdmng::execute(&mut conn, Command::AddUser(alice)).unwrap();

    let owner = ArgUser::new(String::from("alice"), String::from("secret"));
    let account = test_arg_account("github", "token-123");
    assert_eq!(
        pswdmng::execute(&mut conn, Command::AddAccount(owner, account, test_key())),
        Ok(())
    );

    let stored = Account::select_by_key(&mut conn, &String::from("alice"), &String::from("github"))
        .unwrap()
        .unwrap();
    assert_eq!(stored.nonce.len(), 12);
    assert_ne!(stored.password, "token-123".as_bytes().to_vec());
    assert_eq!(stored.account_id, "id");
    assert_eq!(stored.email, "a@b.c");
    assert_eq!(stored.url, "https://site");
    assert_eq!(stored.comment, "note");
    // The stored ciphertext opens back to the secret under the stored nonce.
    assert_eq!(
        decrypt(&test_key(), &stored.password, &stored.nonce).unwrap(),
        String::from("token-123")
    );

    // The same (user, account) pair is refused the second time.
    let owner = ArgUser::new(String::from("alice"), String::from("secret"));
    let account = test_arg_account("github", "token-456");
    assert_eq!(
        pswdmng::execute(&mut conn, Command::AddAccount(owner, account, test_key())),
        Err(Error::AccountAlreadyExists(
            String::from("alice"),
            String::from("github")
        ))
    );

    // Wrong owner credentials are refused before anything is written.
    let owner = ArgUser::new(String::from("alice"), String::from("wrong"));
    let account = test_arg_account("gitlab", "token-789");
    assert_eq!(
        pswdmng::execute(&mut conn, Command::AddAccount(owner, account, test_key())),
        Err(Error::AuthenticationFailed(String::from("alice")))
    );
    assert_eq!(
        Account::exists_by_key(&mut conn, &String::from("alice"), &String::from("gitlab")),
        Ok(false)
    );

    conn.close().unwrap();
}

#[test]
fn test_atomicity_failed_write_leaves_no_rows() {
    let mut conn = Connection::open_in_memory().unwrap();
    pswdmng::execute(&mut conn, Command::Initialize).unwrap();
    let alice = ArgUser::new(String::from("alice"), String::from("secret"));
    pswdmng::execute(&mut conn, Command::AddUser(alice)).unwrap();

    // Replace the ACCOUNT table with one whose extra NOT NULL column makes
    // the insert fail after authentication and the uniqueness check passed.
    conn.execute("DROP TABLE ACCOUNT", []).unwrap();
    conn.execute(
        "CREATE TABLE ACCOUNT(
            USER_NAME TEXT,
            ACCOUNT_NAME TEXT,
            ACCOUNT_PASSWORD BLOB NOT NULL,
            NONCE BLOB NOT NULL,
            ACCOUNT_ID TEXT NOT NULL,
            EMAIL TEXT NOT NULL,
            URL TEXT NOT NULL,
            COMMENT TEXT NOT NULL,
            EXTRA TEXT NOT NULL,
            PRIMARY KEY(USER_NAME, ACCOUNT_NAME)
        )",
        [],
    )
    .unwrap();

    let owner = ArgUser::new(String::from("alice"), String::from("secret"));
    let account = test_arg_account("github", "token-123");
    assert!(matches!(
        pswdmng::execute(&mut conn, Command::AddAccount(owner, account, test_key())),
        Err(Error::StorageError(_))
    ));

    // No orphan row survived the failed command.
    let count: i64 = conn
        .query_row("SELECT COUNT(*) FROM ACCOUNT", [], |row| row.get(0))
        .unwrap();
    assert_eq!(count, 0);
    // The user table is untouched too.
    assert_eq!(User::exists_by_name(&mut conn, &String::from("alice")), Ok(true));

    conn.close().unwrap();
}
