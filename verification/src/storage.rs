//! The pure half of the request/result store: how records are formed and
//! updated. The durable collection itself is an external concern; callers
//! fetch a record, apply one of these functions, and write the result back.

use vstd::prelude::*;

use crate::error::TssError;
use crate::types::{
    KeyGenRequest, KeysToStore, MessageStatus, MessageToSignStored, SignerResult, SigningRequest,
};
use crate::MAX_MESSAGE_SIZE;

verus! {

/// Forms the stored record for a fresh signing request. A message larger
/// than `MAX_MESSAGE_SIZE` bytes is refused and nothing is stored.
pub fn new_signing_record(request: SigningRequest) -> (r: Result<MessageToSignStored, TssError>)
    ensures
        request.message@.len() > MAX_MESSAGE_SIZE ==> r == Err::<MessageToSignStored, TssError>(
            TssError::MessageTooLarge,
        ),
        request.message@.len() <= MAX_MESSAGE_SIZE ==> (r matches Ok(stored)
            && stored.request_id == request.id && stored.message == request.message
            && stored.status == MessageStatus::Pending && stored.signature is None),
{
    if request.message.len() > MAX_MESSAGE_SIZE {
        return Err(TssError::MessageTooLarge);
    }
    Ok(
        MessageToSignStored {
            request_id: request.id,
            message: request.message,
            status: MessageStatus::Pending,
            signature: None,
        },
    )
}

/// Forms the stored record for a fresh key-generation request.
pub fn new_keygen_record(request: KeyGenRequest) -> (r: KeysToStore)
    ensures
        r.request_id == request.id,
        r.status == MessageStatus::Pending,
        r.key_gen_params == request.keygen_params,
        r.keys is None,
{
    KeysToStore {
        request_id: request.id,
        status: MessageStatus::Pending,
        key_gen_params: request.keygen_params,
        keys: None,
    }
}

/// Applies a signer's result to the stored record. Only a record still
/// `Pending` takes the signature and completes; any later post for the same
/// request leaves the record exactly as it is, so the first result wins and
/// replays are harmless.
pub fn apply_signing_result(stored: MessageToSignStored, result: SignerResult) -> (r:
    MessageToSignStored)
    ensures
        stored.status == MessageStatus::Pending ==> r == (MessageToSignStored {
            status: MessageStatus::Completed,
            signature: Some(result.signature),
            ..stored
        }),
        stored.status != MessageStatus::Pending ==> r == stored,
{
    if stored.status == MessageStatus::Pending {
        MessageToSignStored {
            request_id: stored.request_id,
            message: stored.message,
            status: MessageStatus::Completed,
            signature: Some(result.signature),
        }
    } else {
        stored
    }
}

/// Applies finished key bundles to the stored key-generation record; as with
/// signing results, only a `Pending` record is completed.
pub fn apply_keygen_result(stored: KeysToStore, keys: Vec<String>) -> (r: KeysToStore)
    ensures
        stored.status == MessageStatus::Pending ==> r == (KeysToStore {
            status: MessageStatus::Completed,
            keys: Some(keys),
            ..stored
        }),
        stored.status != MessageStatus::Pending ==> r == stored,
{
    if stored.status == MessageStatus::Pending {
        KeysToStore {
            request_id: stored.request_id,
            status: MessageStatus::Completed,
            key_gen_params: stored.key_gen_params,
            keys: Some(keys),
        }
    } else {
        stored
    }
}

} // verus!
