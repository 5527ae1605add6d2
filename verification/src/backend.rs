//! The traits through which the crate reaches the user record and the storage
//! backend. The caller implements them.

use crate::password::is_hash;
use vstd::prelude::*;

verus! {

/// Gives access to the backend that holds the users.
pub trait AuthContext<U> {
    /// The connector that this context holds.
    type Connector: AuthConnector<U>;

    /// Returns the connector to the backend for this context.
    fn auth_connector(&self) -> &Self::Connector;
}

/// A connector to the backend that holds the users.
pub trait AuthConnector<U> {
    /// What the backend fails with. It is handed on, never looked into.
    type Error;

    /// Returns whether a user with the given name exists.
    fn user_exists(&self, name: &str) -> Result<bool, Self::Error>;

    /// Inserts a new user.
    fn insert_user(&self, info: U) -> Result<(), Self::Error>;
}

/// The part of a user record that the authentication scheme reads and writes.
pub trait UserInfo {
    /// Returns the name of the user.
    fn name(&self) -> &str;

    /// Returns the password of this user as the record holds it.
    fn password(&self) -> &str;

    /// Sets a new password for this user. What is handed over is a hash, as
    /// [`hash`](crate::password::hash) gives it, never a plain password.
    fn update_password(&mut self, password: String)
        requires
            is_hash(password@),
    ;
}

} // verus!
