//! The single error type shared by every component of the vault.

use vstd::prelude::*;

verus! {

/// Everything that can go wrong while executing a vault command.
///
/// Storage failures always carry the message of the underlying cause; a
/// failed commit or rollback is reported as `FatalStorageFailure` so that a
/// caller knows the store may be in an indeterminate state and must not
/// retry blindly.
#[derive(Debug, PartialEq, Eq)]
pub enum Error {
    /// The underlying relational engine rejected an operation.
    StorageError(String),
    /// Initialization was attempted on a store that already has the schema.
    AlreadyInitialized,
    /// A user with this name is already present.
    UserAlreadyExists(String),
    /// The `(user, account)` pair is already present.
    AccountAlreadyExists(String, String),
    /// The supplied name/password pair does not verify (missing user and
    /// wrong password collapse to the same outcome on purpose).
    AuthenticationFailed(String),
    /// Authenticated decryption rejected a stored secret.
    DecryptionFailed,
    /// A commit or rollback itself failed; the store state is not guaranteed
    /// consistent.
    FatalStorageFailure(String),
}

} // verus!
