use vstd::prelude::*;

use crate::entities::{CreateProfile, User};
use crate::errors::{unique_violation_code, ErrorCode};
use crate::events::AppEvent;
use crate::permissions::Permission;

verus! {

/// A failure reported by the relational store.
#[derive(Debug)]
pub enum StoreError {
    /// An error raised by the database engine, with its code when it gave one.
    Database(Option<String>),
    /// Any other failure: connection, pool, protocol.
    Other(String),
}

impl StoreError {
    /// An insert that broke a uniqueness constraint.
    pub open spec fn is_unique_violation(&self) -> bool {
        match self {
            StoreError::Database(Some(code)) => code@ == unique_violation_code(),
            _ => false,
        }
    }

    /// Whether this is the breach of a uniqueness constraint.
    pub fn unique_violation(&self) -> (r: bool)
        ensures
            r == self.is_unique_violation(),
    {
        match self {
            StoreError::Database(Some(code)) => match ErrorCode::from(code.as_str()) {
                ErrorCode::UniqueConstraintViolation => true,
                ErrorCode::Unknown(_) => false,
            },
            _ => false,
        }
    }
}

impl Clone for StoreError {
    fn clone(&self) -> (r: Self)
        ensures
            r == *self,
    {
        match self {
            StoreError::Database(Some(code)) => StoreError::Database(Some(code.clone())),
            StoreError::Database(None) => StoreError::Database(None),
            StoreError::Other(m) => StoreError::Other(m.clone()),
        }
    }
}

/// One step of work that a workflow hands to its host. The host carries it out
/// and answers with a [`Reply`]. Writes between `Begin` and `Commit` belong to
/// one transaction; a workflow that finishes without sending `Commit` leaves its
/// transaction to be rolled back.
#[derive(Debug)]
pub enum Command {
    /// Ask whether the permission is held; answered with `Reply::Found`.
    Exists(Permission),
    /// Open a transaction.
    Begin,
    InsertUser(User),
    InsertProfile(CreateProfile),
    InsertPermission(Permission),
    /// Remove the permission; removing one that is not held changes nothing.
    DeletePermission(Permission),
    /// Remove the user of this identifier.
    DeleteUser(String),
    /// Commit the open transaction.
    Commit,
    /// Broadcast the event to the subscribers of the bus.
    Publish(AppEvent),
}

/// The host's answer to a [`Command`].
#[derive(Debug)]
pub enum Reply {
    /// The command was carried out.
    Done,
    /// The answer to `Command::Exists`.
    Found(bool),
    /// The command failed.
    Failed(StoreError),
}

impl Reply {
    /// A positive answer to a lookup.
    pub open spec fn is_yes(&self) -> bool {
        *self matches Reply::Found(b) && b
    }
}

} // verus!
