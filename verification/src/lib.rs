//! A task tracker's backend logic: the cookie check in front of every route but
//! login, the task records with their single-field updates, and the contract of
//! the document store that keeps them.

use vstd::prelude::*;

pub mod auth;
pub mod cors;
pub mod db_types;
pub mod error;
pub mod laws;
pub mod memory;
pub mod store;
pub mod task;
pub mod text;
pub mod time;

verus! {

/// The shared secret that a client must present to pass the guard.
#[derive(Debug, PartialEq, Eq)]
pub struct SecretKey(pub String);

impl Clone for SecretKey {
    fn clone(&self) -> (copy: Self)
        ensures
            copy == *self,
    {
        SecretKey(self.0.clone())
    }
}

/// What the request handlers share: the secret that the server was started with.
#[derive(Debug, PartialEq, Eq)]
pub struct ServerState {
    pub key: String,
}

impl Clone for ServerState {
    fn clone(&self) -> (copy: Self)
        ensures
            copy == *self,
    {
        ServerState { key: self.key.clone() }
    }
}

} // verus!
