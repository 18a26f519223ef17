//! The per-pair AEAD channel: AES-256-GCM under a Diffie-Hellman-derived
//! key. Keys shorter than 32 bytes are left-padded with zeros; nonces are 12
//! random bytes shipped beside the ciphertext; the associated data is a
//! constant 16-byte zero tag. A zero nonce is never produced and never
//! accepted.

use vstd::prelude::*;

use aes_gcm::aead::{Aead, NewAead, Payload};
use rand::RngCore;

use crate::types::AEAD;

verus! {

/// What AES-256-GCM sealing returns for a key, nonce, associated data and
/// plaintext: a function of its arguments alone.
pub uninterp spec fn aes_seal(
    key: Seq<u8>,
    nonce: Seq<u8>,
    aad: Seq<u8>,
    msg: Seq<u8>,
) -> Seq<u8>;

/// What AES-256-GCM opening returns: the plaintext, or nothing when the
/// ciphertext does not authenticate under the key, nonce and associated
/// data.
pub uninterp spec fn aes_open(
    key: Seq<u8>,
    nonce: Seq<u8>,
    aad: Seq<u8>,
    ciphertext: Seq<u8>,
) -> Option<Seq<u8>>;

/// A short key left-padded with zeros to the 32 bytes of AES-256.
pub open spec fn pad_key(key: Seq<u8>) -> Seq<u8> {
    Seq::<u8>::new((32 - key.len()) as nat, |i: int| 0u8) + key
}

/// Every byte is zero.
pub open spec fn all_zero(b: Seq<u8>) -> bool {
    forall|i: int| 0 <= i < b.len() ==> b[i] == 0u8
}

/// Relies on rand's OsRng: 12 bytes from the operating system's entropy
/// source. Nothing is assumed of their values; the source aborts the
/// process only if the operating system's entropy device itself fails.
#[verifier::external_body]
fn random_nonce_bytes() -> (r: Vec<u8>)
    ensures
        r@.len() == 12,
{
    let mut nonce_bytes = [0u8; 12];
    rand::rngs::OsRng.fill_bytes(&mut nonce_bytes);
    nonce_bytes.to_vec()
}

/// Relies on aes_gcm's Aes256Gcm::encrypt: sealing is a function of key,
/// nonce, associated data and plaintext; the ciphertext is the plaintext's
/// length plus the 16-byte tag; and what it seals, opening under the same
/// key, nonce and associated data gives back.
#[verifier::external_body]
fn aes256gcm_seal(key: &[u8], nonce: &[u8], aad: &[u8], msg: &[u8]) -> (r: Option<Vec<u8>>)
    requires
        key@.len() == 32,
        nonce@.len() == 12,
    ensures
        r matches Some(c) ==> c@ == aes_seal(key@, nonce@, aad@, msg@),
        r matches Some(c) ==> c@.len() == msg@.len() + 16,
        r matches Some(c) ==> aes_open(key@, nonce@, aad@, c@) == Some(msg@),
{
    let cipher = aes_gcm::Aes256Gcm::new(aes_gcm::Key::from_slice(key));
    let payload = Payload { msg, aad };
    cipher.encrypt(aes_gcm::Nonce::from_slice(nonce), payload).ok()
}

/// Relies on aes_gcm's Aes256Gcm::decrypt: opening is a function of key,
/// nonce, associated data and ciphertext, and fails exactly where the
/// ciphertext does not authenticate.
#[verifier::external_body]
fn aes256gcm_open(key: &[u8], nonce: &[u8], aad: &[u8], ciphertext: &[u8]) -> (r: Option<Vec<u8>>)
    requires
        key@.len() == 32,
        nonce@.len() == 12,
    ensures
        r matches Some(m) ==> aes_open(key@, nonce@, aad@, ciphertext@) == Some(m@),
        r is None ==> aes_open(key@, nonce@, aad@, ciphertext@) is None,
{
    let cipher = aes_gcm::Aes256Gcm::new(aes_gcm::Key::from_slice(key));
    let payload = Payload { msg: ciphertext, aad };
    cipher.decrypt(aes_gcm::Nonce::from_slice(nonce), payload).ok()
}

/// The key, zero-padded on the left to 32 bytes.
fn sized_key(key: &[u8]) -> (r: Vec<u8>)
    requires
        key@.len() <= 32,
    ensures
        r@ == pad_key(key@),
        r@.len() == 32,
{
    let mut r: Vec<u8> = Vec::new();
    let pad = 32 - key.len();
    let mut i: usize = 0;
    while i < pad
        invariant
            0 <= i <= pad,
            r@.len() == i,
            forall|j: int| 0 <= j < i ==> r@[j] == 0u8,
        decreases pad - i,
    {
        r.push(0u8);
        i += 1;
    }
    let mut k: usize = 0;
    while k < key.len()
        invariant
            key@.len() <= 32,
            pad == 32 - key@.len(),
            0 <= k <= key@.len(),
            r@.len() == pad + k,
            forall|j: int| 0 <= j < pad ==> r@[j] == 0u8,
            forall|j: int| pad <= j < pad + k ==> r@[j] == key@[j - pad],
        decreases key@.len() - k,
    {
        r.push(key[k]);
        k += 1;
    }
    proof {
        assert(r@ =~= pad_key(key@));
    }
    r
}

/// The constant 16-byte zero tag used as associated data.
fn zero_tag() -> (r: Vec<u8>)
    ensures
        r@.len() == 16,
        all_zero(r@),
{
    let mut r: Vec<u8> = Vec::new();
    let mut i: usize = 0;
    while i < 16
        invariant
            0 <= i <= 16,
            r@.len() == i,
            forall|j: int| 0 <= j < i ==> r@[j] == 0u8,
        decreases 16 - i,
    {
        r.push(0u8);
        i += 1;
    }
    r
}

fn is_all_zero(b: &[u8]) -> (r: bool)
    ensures
        r == all_zero(b@),
{
    let n = b.len();
    let mut i: usize = 0;
    while i < n
        invariant
            n == b@.len(),
            0 <= i <= n,
            forall|j: int| 0 <= j < i ==> b@[j] == 0u8,
        decreases n - i,
    {
        if b[i] != 0u8 {
            return false;
        }
        i += 1;
    }
    true
}

/// Seals a plaintext for a peer: a fresh random 12-byte nonce, the zero tag
/// as associated data. Fails (returning nothing, never a bogus ciphertext)
/// if the cipher refuses or the sampled nonce is zero.
pub fn aes_encrypt(key: &[u8], plaintext: &[u8]) -> (r: Option<AEAD>)
    requires
        key@.len() <= 32,
    ensures
        r matches Some(a) ==> {
            &&& a.nonce@.len() == 12
            &&& !all_zero(a.nonce@)
            &&& a.tag@.len() == 16
            &&& all_zero(a.tag@)
            &&& a.ciphertext@ == aes_seal(pad_key(key@), a.nonce@, a.tag@, plaintext@)
            &&& a.ciphertext@.len() == plaintext@.len() + 16
            &&& aes_open(pad_key(key@), a.nonce@, a.tag@, a.ciphertext@) == Some(plaintext@)
        },
{
    let key_sized = sized_key(key);
    let nonce = random_nonce_bytes();
    if is_all_zero(nonce.as_slice()) {
        return None;
    }
    let tag = zero_tag();
    match aes256gcm_seal(key_sized.as_slice(), nonce.as_slice(), tag.as_slice(), plaintext) {
        Some(ciphertext) => Some(AEAD { ciphertext, tag, nonce }),
        None => None,
    }
}

/// Opens an inbound ciphertext. A zero (or ill-sized) nonce is rejected
/// outright; a ciphertext that does not authenticate opens to the empty
/// plaintext, which deterministically fails the verification downstream.
pub fn aes_decrypt(key: &[u8], aead_pack: AEAD) -> (r: Vec<u8>)
    requires
        key@.len() <= 32,
    ensures
        aead_pack.nonce@.len() == 12 && !all_zero(aead_pack.nonce@) ==> (match aes_open(
            pad_key(key@),
            aead_pack.nonce@,
            aead_pack.tag@,
            aead_pack.ciphertext@,
        ) {
            Some(m) => r@ == m,
            None => r@.len() == 0,
        }),
        aead_pack.nonce@.len() != 12 || all_zero(aead_pack.nonce@) ==> r@.len() == 0,
{
    if aead_pack.nonce.len() != 12 || is_all_zero(aead_pack.nonce.as_slice()) {
        return Vec::new();
    }
    let key_sized = sized_key(key);
    match aes256gcm_open(
        key_sized.as_slice(),
        aead_pack.nonce.as_slice(),
        aead_pack.tag.as_slice(),
        aead_pack.ciphertext.as_slice(),
    ) {
        Some(m) => m,
        None => Vec::new(),
    }
}

/// Sealing and then opening under one key gives the plaintext back: the
/// channel's round trip, checked end to end through `aes_encrypt` and
/// `aes_decrypt`.
pub fn aead_roundtrip(key: &[u8], plaintext: &[u8]) -> (r: Option<Vec<u8>>)
    requires
        key@.len() <= 32,
    ensures
        r matches Some(m) ==> m@ == plaintext@,
{
    match aes_encrypt(key, plaintext) {
        Some(pack) => Some(aes_decrypt(key, pack)),
        None => None,
    }
}

} // verus!
