//! Threshold ECDSA signing service core: the GG18 protocol engines, the
//! session coordinator's room registry and relay, HD key derivation, and the
//! surrounding validation and authorization rules.

use vstd::prelude::*;

pub mod aead;
pub mod auth;
pub mod codec;
pub mod config;
pub mod error;
pub mod gg18;
pub mod hd_keys;
pub mod keygen;
pub mod manager;
pub mod monitoring;
pub mod registration;
pub mod signer;
pub mod signing_room;
pub mod storage;
pub mod types;

verus! {

/// Largest message body, in bytes, that a signing request may carry.
pub const MAX_MESSAGE_SIZE: usize = 1048576;

} // verus!
