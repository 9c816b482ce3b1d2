//! The command that adds a vault user.

use vstd::prelude::*;

use crate::args::ArgUser;
use crate::db::StoreView;
use crate::error::Error;
use crate::hashcode::sha3_512_of;
use crate::sub_command::SubCommand;
use crate::user::User;

verus! {

/// What a successful add did: the name was free, and exactly one row was
/// added for it, holding the salted verifier of the raw password under
/// some fresh 16-character salt.
pub open spec fn add_user_ok(
    name: Seq<char>,
    raw_password: Seq<char>,
    pre: StoreView,
    post: StoreView,
) -> bool {
    &&& !pre.users.dom().contains(name)
    &&& exists|salt: Seq<char>|
        #![auto]
        salt.len() == 16 && post.users == pre.users.insert(
            name,
            (sha3_512_of(raw_password + salt), salt),
        )
    &&& post.tables == pre.tables
    &&& post.accounts == pre.accounts
}

/// Which errors adding a user may report: `UserAlreadyExists` exactly for
/// the requested name and only when that name is taken; anything else is a
/// storage failure.
pub open spec fn add_user_err(name: Seq<char>, pre: StoreView, e: Error) -> bool {
    match e {
        Error::UserAlreadyExists(n) => n@ == name && pre.users.dom().contains(name),
        Error::StorageError(_) => true,
        _ => false,
    }
}

/// User names are unique: once an add of `name` has succeeded, no later add
/// of the same name can succeed on the store it left behind, whatever
/// password either call used.
pub proof fn lemma_add_user_twice(
    name: Seq<char>,
    first_password: Seq<char>,
    second_password: Seq<char>,
    v0: StoreView,
    v1: StoreView,
    v2: StoreView,
)
    requires
        add_user_ok(name, first_password, v0, v1),
    ensures
        !add_user_ok(name, second_password, v1, v2),
{
    let salt = choose|salt: Seq<char>|
        #![auto]
        salt.len() == 16 && v1.users == v0.users.insert(
            name,
            (sha3_512_of(first_password + salt), salt),
        );
    assert(v1.users.dom().contains(name));
}

/// Adds a new owner record: fails with [`Error::UserAlreadyExists`] if the
/// name is taken, otherwise derives a fresh salt and verifier and inserts
/// the row.
pub struct AddUser {
    pub new_user: ArgUser,
}

impl AddUser {
    pub fn new(new_user: ArgUser) -> (r: AddUser)
        ensures
            r.new_user@ == new_user@,
    {
        AddUser { new_user }
    }
}

impl SubCommand for AddUser {
    open spec fn wf(&self) -> bool {
        true
    }

    open spec fn uses_transaction(&self) -> bool {
        true
    }

    open spec fn ok_post(&self, pre: StoreView, post: StoreView) -> bool {
        add_user_ok(self.new_user.name@, self.new_user.raw_password@, pre, post)
    }

    open spec fn err_allowed(&self, pre: StoreView, e: Error) -> bool {
        add_user_err(self.new_user.name@, pre, e)
    }

    fn with_transaction(&self) -> (r: bool) {
        true
    }

    fn run(self, conn: &mut rusqlite::Connection) -> (r: Result<(), Error>) {
        match User::exists_by_name(conn, &self.new_user.name) {
            Ok(true) => {
                return Err(Error::UserAlreadyExists(self.new_user.name));
            },
            Ok(false) => (),
            Err(e) => {
                return Err(e);
            },
        }
        let new_user = User::from_raw_password(self.new_user.name, self.new_user.raw_password);
        match new_user.insert(conn) {
            Ok(_) => Ok(()),
            Err(e) => Err(e),
        }
    }
}

} // verus!
