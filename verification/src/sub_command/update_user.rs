//! The command that replaces a user's record — name, password, or both.

use vstd::prelude::*;

use crate::args::ArgUser;
use crate::db::StoreView;
use crate::error::Error;
use crate::hashcode::sha3_512_of;
use crate::sub_command::SubCommand;
use crate::user::authenticates_in;
use crate::user::User;

verus! {

/// What a successful update did: the old credentials verified; the new
/// name, if it differs, was free; and exactly the old row was replaced by
/// one holding the new name and the new password's verifier under some
/// fresh 16-character salt.
pub open spec fn update_user_ok(
    old_name: Seq<char>,
    old_password: Seq<char>,
    new_name: Seq<char>,
    new_password: Seq<char>,
    pre: StoreView,
    post: StoreView,
) -> bool {
    &&& authenticates_in(pre.users, old_name, old_password)
    &&& new_name != old_name ==> !pre.users.dom().contains(new_name)
    &&& exists|salt: Seq<char>|
        #![auto]
        salt.len() == 16 && post.users == pre.users.remove(old_name).insert(
            new_name,
            (sha3_512_of(new_password + salt), salt),
        )
    &&& post.tables == pre.tables
    &&& post.accounts == pre.accounts
}

/// Which errors updating a user may report: `AuthenticationFailed` exactly
/// when the old credentials do not verify (a missing user and a wrong
/// password are indistinguishable on purpose); `UserAlreadyExists` exactly
/// for a rename onto a taken name after authentication passed; anything
/// else is a storage failure.
pub open spec fn update_user_err(
    old_name: Seq<char>,
    old_password: Seq<char>,
    new_name: Seq<char>,
    pre: StoreView,
    e: Error,
) -> bool {
    match e {
        Error::AuthenticationFailed(n) => n@ == old_name && !authenticates_in(
            pre.users,
            old_name,
            old_password,
        ),
        Error::UserAlreadyExists(n) => n@ == new_name && new_name != old_name
            && pre.users.dom().contains(new_name) && authenticates_in(
            pre.users,
            old_name,
            old_password,
        ),
        Error::StorageError(_) => true,
        _ => false,
    }
}

/// The authentication gate: with old credentials that do not verify, no
/// store can be the result of a successful update — the command can only
/// fail, and the framework then leaves the store unchanged.
pub proof fn lemma_update_requires_authentication(
    old_name: Seq<char>,
    old_password: Seq<char>,
    new_name: Seq<char>,
    new_password: Seq<char>,
    pre: StoreView,
)
    requires
        !authenticates_in(pre.users, old_name, old_password),
    ensures
        forall|post: StoreView|
            !update_user_ok(old_name, old_password, new_name, new_password, pre, post),
{
}

/// Renaming onto a taken name never succeeds: with both the old and the
/// new name present in the store and distinct, no store can be the result
/// of a successful update.
pub proof fn lemma_rename_collision(
    old_name: Seq<char>,
    old_password: Seq<char>,
    new_name: Seq<char>,
    new_password: Seq<char>,
    pre: StoreView,
)
    requires
        pre.users.dom().contains(new_name),
        new_name != old_name,
    ensures
        forall|post: StoreView|
            !update_user_ok(old_name, old_password, new_name, new_password, pre, post),
{
}

/// Replaces a user's row with a freshly derived one: fails with
/// [`Error::AuthenticationFailed`] if the old name/password do not verify,
/// and with [`Error::UserAlreadyExists`] if renaming onto a taken name.
pub struct UpdateUser {
    pub old_user: ArgUser,
    pub new_user: ArgUser,
}

impl UpdateUser {
    pub fn new(old_user: ArgUser, new_user: ArgUser) -> (r: UpdateUser)
        ensures
            r.old_user@ == old_user@,
            r.new_user@ == new_user@,
    {
        UpdateUser { old_user, new_user }
    }
}

impl SubCommand for UpdateUser {
    open spec fn wf(&self) -> bool {
        true
    }

    open spec fn uses_transaction(&self) -> bool {
        true
    }

    open spec fn ok_post(&self, pre: StoreView, post: StoreView) -> bool {
        update_user_ok(
            self.old_user.name@,
            self.old_user.raw_password@,
            self.new_user.name@,
            self.new_user.raw_password@,
            pre,
            post,
        )
    }

    open spec fn err_allowed(&self, pre: StoreView, e: Error) -> bool {
        update_user_err(
            self.old_user.name@,
            self.old_user.raw_password@,
            self.new_user.name@,
            pre,
            e,
        )
    }

    fn with_transaction(&self) -> (r: bool) {
        true
    }

    fn run(self, conn: &mut rusqlite::Connection) -> (r: Result<(), Error>) {
        match User::exists_by_name(conn, &self.old_user.name) {
            Ok(true) => (),
            Ok(false) => {
                return Err(Error::AuthenticationFailed(self.old_user.name));
            },
            Err(e) => {
                return Err(e);
            },
        }
        let user_old = match User::select_by_name(conn, &self.old_user.name) {
            Ok(u) => u,
            Err(e) => {
                return Err(e);
            },
        };
        match user_old.validate_password(self.old_user.raw_password) {
            Ok(_) => (),
            Err(e) => {
                return Err(e);
            },
        }
        let renaming = !(self.old_user.name == self.new_user.name);
        if renaming {
            match User::exists_by_name(conn, &self.new_user.name) {
                Ok(true) => {
                    return Err(Error::UserAlreadyExists(self.new_user.name));
                },
                Ok(false) => (),
                Err(e) => {
                    return Err(e);
                },
            }
        }
        let user_new = User::from_raw_password(self.new_user.name, self.new_user.raw_password);
        match user_new.update(conn, &self.old_user.name) {
            Ok(_) => Ok(()),
            Err(e) => Err(e),
        }
    }
}

} // verus!
