//! Errors surfaced by the coordinator and the signers. Outside-crate errors
//! are carried as their rendered text.

use vstd::prelude::*;

verus! {

/// The service-wide error kind.
#[derive(Clone, Debug, PartialEq)]
pub enum TssError {
    DatabaseError(String),
    QueueError(String),
    SerializationError(String),
    HttpClientError(String),
    SigningError(String),
    ConfigError(String),
    IoError(String),
    JWTError(String),
    AuthError(String),
    AuthorizationError(String),
    TimeoutError,
    InvalidPartyId(u16),
    InvalidThreshold(u16),
    InvalidNumberOfParties(u16),
    MessageTooLarge,
    InvalidUuid(String),
    UnexpectedError(String),
}

} // verus!
