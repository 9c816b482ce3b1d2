//! The command that adds a third-party account record for a vault user.

use vstd::prelude::*;

use crate::account::Account;
use crate::args::ArgAccount;
use crate::args::ArgAccountV;
use crate::args::ArgUser;
use crate::db::StoreView;
use crate::encryption::aes256gcm_ct;
use crate::encryption::create_nonce;
use crate::encryption::encrypt;
use crate::encryption::fits_aead;
use crate::error::Error;
use crate::sub_command::SubCommand;
use crate::user::authenticates_in;
use crate::user::User;

verus! {

/// What a successful add did: the owner's credentials verified, the
/// `(user, account)` pair was free, and exactly one row was added for it,
/// holding the secret sealed under the key and some fresh 12-byte nonce,
/// with the metadata stored as given.
pub open spec fn add_account_ok(
    user_name: Seq<char>,
    user_password: Seq<char>,
    account: ArgAccountV,
    key: Seq<u8>,
    pre: StoreView,
    post: StoreView,
) -> bool {
    &&& authenticates_in(pre.users, user_name, user_password)
    &&& !pre.accounts.dom().contains((user_name, account.name))
    &&& exists|nonce: Seq<u8>|
        #![auto]
        nonce.len() == 12 && post.accounts == pre.accounts.insert(
            (user_name, account.name),
            (
                aes256gcm_ct(key, nonce, account.raw_password),
                nonce,
                account.account_id,
                account.email,
                account.url,
                account.comment,
            ),
        )
    &&& post.users == pre.users
    &&& post.tables == pre.tables
}

/// Which errors adding an account may report: `AuthenticationFailed`
/// exactly when the owner's credentials do not verify;
/// `AccountAlreadyExists` exactly for the requested pair, after
/// authentication passed and only when the pair is taken; anything else is
/// a storage failure.
pub open spec fn add_account_err(
    user_name: Seq<char>,
    user_password: Seq<char>,
    account_name: Seq<char>,
    pre: StoreView,
    e: Error,
) -> bool {
    match e {
        Error::AuthenticationFailed(n) => n@ == user_name && !authenticates_in(
            pre.users,
            user_name,
            user_password,
        ),
        Error::AccountAlreadyExists(u, a) => u@ == user_name && a@ == account_name
            && pre.accounts.dom().contains((user_name, account_name)) && authenticates_in(
            pre.users,
            user_name,
            user_password,
        ),
        Error::StorageError(_) => true,
        _ => false,
    }
}

/// Account keys are unique per user: once an add of `(user, name)` has
/// succeeded, no later add of the same pair can succeed on the store it
/// left behind, whatever secret, metadata or key either call used.
pub proof fn lemma_add_account_twice(
    user_name: Seq<char>,
    first_password: Seq<char>,
    second_password: Seq<char>,
    first_account: ArgAccountV,
    second_account: ArgAccountV,
    first_key: Seq<u8>,
    second_key: Seq<u8>,
    v0: StoreView,
    v1: StoreView,
    v2: StoreView,
)
    requires
        add_account_ok(user_name, first_password, first_account, first_key, v0, v1),
        second_account.name == first_account.name,
    ensures
        !add_account_ok(user_name, second_password, second_account, second_key, v1, v2),
{
    let nonce = choose|nonce: Seq<u8>|
        #![auto]
        nonce.len() == 12 && v1.accounts == v0.accounts.insert(
            (user_name, first_account.name),
            (
                aes256gcm_ct(first_key, nonce, first_account.raw_password),
                nonce,
                first_account.account_id,
                first_account.email,
                first_account.url,
                first_account.comment,
            ),
        );
    assert(v1.accounts.dom().contains((user_name, first_account.name)));
}

/// Adds a sealed account record: fails with [`Error::AuthenticationFailed`]
/// if the owner's credentials do not verify, and with
/// [`Error::AccountAlreadyExists`] if the `(user, account)` pair is taken;
/// otherwise draws a fresh nonce, seals the secret under the configured
/// key, and inserts the row.
pub struct AddAccount {
    pub user: ArgUser,
    pub new_account: ArgAccount,
    pub key: Vec<u8>,
}

impl AddAccount {
    pub fn new(user: ArgUser, new_account: ArgAccount, key: Vec<u8>) -> (r: AddAccount)
        ensures
            r.user@ == user@,
            r.new_account@ == new_account@,
            r.key@ == key@,
    {
        AddAccount { user, new_account, key }
    }
}

impl SubCommand for AddAccount {
    open spec fn wf(&self) -> bool {
        &&& self.key@.len() == 32
        &&& fits_aead(self.new_account.raw_password@)
    }

    open spec fn uses_transaction(&self) -> bool {
        true
    }

    open spec fn ok_post(&self, pre: StoreView, post: StoreView) -> bool {
        add_account_ok(self.user.name@, self.user.raw_password@, self.new_account@, self.key@, pre, post)
    }

    open spec fn err_allowed(&self, pre: StoreView, e: Error) -> bool {
        add_account_err(self.user.name@, self.user.raw_password@, self.new_account.name@, pre, e)
    }

    fn with_transaction(&self) -> (r: bool) {
        true
    }

    fn run(self, conn: &mut rusqlite::Connection) -> (r: Result<(), Error>) {
        let user = match User::from_arg_user(conn, self.user) {
            Ok(u) => u,
            Err(e) => {
                return Err(e);
            },
        };
        match Account::exists_by_key(conn, &user.user_name, &self.new_account.name) {
            Ok(true) => {
                return Err(Error::AccountAlreadyExists(user.user_name, self.new_account.name));
            },
            Ok(false) => (),
            Err(e) => {
                return Err(e);
            },
        }
        let nonce = create_nonce();
        let ciphertext = encrypt(&self.key, &self.new_account.raw_password, &nonce);
        let account = Account::new(
            user.user_name,
            self.new_account.name,
            ciphertext,
            nonce,
            self.new_account.account_id,
            self.new_account.email,
            self.new_account.url,
            self.new_account.comment,
        );
        match account.insert(conn) {
            Ok(_) => Ok(()),
            Err(e) => Err(e),
        }
    }
}

} // verus!
