//! Plain value objects handed across the command invocation boundary.

use vstd::prelude::*;

verus! {

/// The caller-supplied credentials of a vault user: a name and the raw
/// (not yet hashed) password.
pub struct ArgUser {
    pub name: String,
    pub raw_password: String,
}

/// The mathematical content of an [`ArgUser`].
pub ghost struct ArgUserV {
    pub name: Seq<char>,
    pub raw_password: Seq<char>,
}

impl View for ArgUser {
    type V = ArgUserV;

    open spec fn view(&self) -> ArgUserV {
        ArgUserV { name: self.name@, raw_password: self.raw_password@ }
    }
}

impl ArgUser {
    pub fn new(name: String, raw_password: String) -> (r: ArgUser)
        ensures
            r@.name == name@,
            r@.raw_password == raw_password@,
    {
        ArgUser { name, raw_password }
    }
}

/// The caller-supplied description of a third-party account record: the
/// account's name, the raw secret to seal, and its plaintext metadata.
pub struct ArgAccount {
    pub name: String,
    pub raw_password: String,
    pub account_id: String,
    pub email: String,
    pub url: String,
    pub comment: String,
}

/// The mathematical content of an [`ArgAccount`].
pub ghost struct ArgAccountV {
    pub name: Seq<char>,
    pub raw_password: Seq<char>,
    pub account_id: Seq<char>,
    pub email: Seq<char>,
    pub url: Seq<char>,
    pub comment: Seq<char>,
}

impl View for ArgAccount {
    type V = ArgAccountV;

    open spec fn view(&self) -> ArgAccountV {
        ArgAccountV {
            name: self.name@,
            raw_password: self.raw_password@,
            account_id: self.account_id@,
            email: self.email@,
            url: self.url@,
            comment: self.comment@,
        }
    }
}

impl ArgAccount {
    pub fn new(
        name: String,
        raw_password: String,
        account_id: String,
        email: String,
        url: String,
        comment: String,
    ) -> (r: ArgAccount)
        ensures
            r@.name == name@,
            r@.raw_password == raw_password@,
            r@.account_id == account_id@,
            r@.email == email@,
            r@.url == url@,
            r@.comment == comment@,
    {
        ArgAccount { name, raw_password, account_id, email, url, comment }
    }
}

} // verus!
