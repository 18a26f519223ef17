//! Plain data carried between the coordinator, the signers and the clients.

use vstd::prelude::*;

verus! {

/// Relay keys are formatted ASCII strings.
pub type Key = String;

/// A stored signing request together with its progress and, once finished,
/// the produced signature.
#[derive(Clone, Debug, PartialEq)]
pub struct MessageToSignStored {
    pub request_id: String,
    pub message: Vec<u8>,
    pub status: MessageStatus,
    pub signature: Option<SignatureData>,
}

/// Progress of a stored request.
#[derive(Clone, Copy, Debug, PartialEq, Eq, Structural)]
pub enum MessageStatus {
    Pending,
    InProgress,
    Completed,
}

impl MessageStatus {
    /// The wire name of the status.
    pub fn as_str(&self) -> (r: &'static str)
        ensures
            self is Pending ==> r@ == "Pending"@,
            self is InProgress ==> r@ == "InProgress"@,
            self is Completed ==> r@ == "Completed"@,
    {
        match self {
            MessageStatus::Pending => "Pending",
            MessageStatus::InProgress => "InProgress",
            MessageStatus::Completed => "Completed",
        }
    }
}

/// The final signature in wire form: `r`, `s`, `x`, `y` are lower-case hex
/// strings without a leading-zero prefix, `recid` is the recovery id, and
/// `msg_int` is the big-endian integer form of the signed 32-byte message.
#[derive(Clone, Debug, PartialEq)]
pub struct SignatureData {
    pub r: String,
    pub s: String,
    pub status: String,
    pub recid: i32,
    pub x: String,
    pub y: String,
    pub msg_int: Vec<u8>,
}

/// What a signer posts back to the coordinator when a session succeeded.
#[derive(Clone, Debug, PartialEq)]
pub struct SignerResult {
    pub request_id: String,
    pub signature: SignatureData,
}

/// An authenticated ciphertext: AES-256-GCM output with its nonce, plus the
/// constant associated-data tag.
#[derive(Clone, Debug, PartialEq)]
pub struct AEAD {
    pub ciphertext: Vec<u8>,
    pub tag: Vec<u8>,
    pub nonce: Vec<u8>,
}

/// A keygen participant's slot: its ordinal and the shared session uuid.
#[derive(Clone, Debug, PartialEq)]
pub struct PartySignup {
    pub number: u16,
    pub uuid: String,
}

/// A lookup request against the relay.
#[derive(Clone, Debug, PartialEq)]
pub struct Index {
    pub key: Key,
}

/// One relay entry: an opaque payload filed under a formatted key.
#[derive(Clone, Debug, PartialEq)]
pub struct Entry {
    pub key: Key,
    pub value: String,
}

/// Per-session signing parameters.
#[derive(Clone, Debug, PartialEq)]
pub struct Params {
    pub parties: u16,
    pub threshold: u16,
    pub path: String,
}

/// Distributed key generation parameters.
#[derive(Clone, Debug, PartialEq)]
pub struct KeyGenParams {
    pub parties: u16,
    pub threshold: u16,
}

/// A stored key-generation request with its progress and, once finished, the
/// serialized key bundles of the successful participants.
#[derive(Clone, Debug, PartialEq)]
pub struct KeysToStore {
    pub request_id: String,
    pub status: MessageStatus,
    pub key_gen_params: KeyGenParams,
    pub keys: Option<Vec<String>>,
}

/// A key-generation job.
#[derive(Clone, Debug, PartialEq)]
pub struct KeyGenRequest {
    pub id: String,
    pub keygen_params: KeyGenParams,
}

/// Body of a signing-room signup call. An empty `party_uuid` announces a new
/// signup; a non-empty one is a re-ping of an existing slot.
#[derive(Clone, Debug, PartialEq)]
pub struct PartySignupRequestBody {
    pub threshold: u16,
    pub room_id: String,
    pub party_number: u16,
    pub party_uuid: String,
}

/// Answer to a signing-room signup: the party's room ordinal and slot uuid.
/// `room_uuid` stays empty until the room is full and the session may start.
#[derive(Clone, Debug, PartialEq)]
pub struct SigningPartySignup {
    pub party_order: u16,
    pub party_uuid: String,
    pub room_uuid: String,
    pub total_joined: u16,
}

/// A coordinator-side error, carried as text on the wire.
#[derive(Clone, Debug, PartialEq)]
pub struct ManagerError {
    pub error: String,
}

/// A signing job handed to the signer processes.
#[derive(Clone, Debug, PartialEq)]
pub struct SigningRequest {
    pub id: String,
    pub message: Vec<u8>,
}

/// A finished signing session as reported to clients.
#[derive(Clone, Debug, PartialEq)]
pub struct SigningResult {
    pub request_id: String,
    pub signature: Option<Vec<u8>>,
    pub status: SigningStatus,
}

/// Lifecycle of a signing session.
#[derive(Clone, Copy, Debug, PartialEq, Eq, Structural)]
pub enum SigningStatus {
    Pending,
    InProgress,
    Completed,
    Failed,
}

impl SigningStatus {
    /// The wire name of the status.
    pub fn as_str(&self) -> (r: &'static str)
        ensures
            self is Pending ==> r@ == "Pending"@,
            self is InProgress ==> r@ == "InProgress"@,
            self is Completed ==> r@ == "Completed"@,
            self is Failed ==> r@ == "Failed"@,
    {
        match self {
            SigningStatus::Pending => "Pending",
            SigningStatus::InProgress => "InProgress",
            SigningStatus::Completed => "Completed",
            SigningStatus::Failed => "Failed",
        }
    }

    /// Parses a wire name back into a status; unknown names are rejected.
    pub fn from_str(s: &str) -> (r: Result<SigningStatus, ()>)
        ensures
            s@ == "Pending"@ ==> r == Ok::<SigningStatus, ()>(SigningStatus::Pending),
            s@ == "InProgress"@ ==> r == Ok::<SigningStatus, ()>(SigningStatus::InProgress),
            s@ == "Completed"@ ==> r == Ok::<SigningStatus, ()>(SigningStatus::Completed),
            s@ == "Failed"@ ==> r == Ok::<SigningStatus, ()>(SigningStatus::Failed),
            s@ != "Pending"@ && s@ != "InProgress"@ && s@ != "Completed"@ && s@ != "Failed"@
                ==> r is Err,
    {
        proof {
            reveal_strlit("Pending");
            reveal_strlit("InProgress");
            reveal_strlit("Completed");
            reveal_strlit("Failed");
            assert("Pending"@ !~= "InProgress"@);
            assert("Pending"@ !~= "Completed"@);
            assert("Pending"@ !~= "Failed"@);
            assert("InProgress"@ !~= "Completed"@);
            assert("InProgress"@ !~= "Failed"@);
            assert("Completed"@ !~= "Failed"@);
        }
        let owned = s.to_owned();
        if owned == String::from_str("Pending") {
            Ok(SigningStatus::Pending)
        } else if owned == String::from_str("InProgress") {
            Ok(SigningStatus::InProgress)
        } else if owned == String::from_str("Completed") {
            Ok(SigningStatus::Completed)
        } else if owned == String::from_str("Failed") {
            Ok(SigningStatus::Failed)
        } else {
            Err(())
        }
    }
}

/// Body of a client signing request.
#[derive(Clone, Debug, PartialEq)]
pub struct SigningRequestDTO {
    pub message: String,
}

/// Answer to a client signing request.
#[derive(Clone, Debug, PartialEq)]
pub struct SigningResponseDTO {
    pub request_id: String,
    pub status: String,
}

/// Body of an administrator's key-generation request.
#[derive(Clone, Debug, PartialEq)]
pub struct KeyGenRequestDTO {
    pub manager_url: String,
    pub threshold: u16,
    pub total_parties: u16,
}

/// Answer to a key-generation request: the serialized bundles.
#[derive(Clone, Debug, PartialEq)]
pub struct KeyGenResponseDTO {
    pub request_id: String,
    pub keys: Vec<String>,
}

/// A freshly issued bearer token.
#[derive(Clone, Debug, PartialEq)]
pub struct TokenResponse {
    pub token: String,
    pub expires_in: u64,
    pub token_type: String,
}

/// Body of a signer registration call.
#[derive(Clone, Debug, PartialEq)]
pub struct SignerRegistrationRequest {
    pub signer_id: u16,
    pub public_key: String,
}

/// Answer to a signer registration call.
#[derive(Clone, Debug, PartialEq)]
pub struct SignerRegistrationResponse {
    pub success: bool,
    pub message: String,
}

} // verus!
