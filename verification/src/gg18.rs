//! Declarations of the GG18 protocol library's types and the trusted
//! boundary to its cryptographic operations. Every call into the protocol
//! library stands here behind a wrapper; the round-by-round orchestration in
//! `keygen` and `signer` is verified against these. The protocol library's
//! generic types (points, scalars, proofs, Feldman schemes) cannot be
//! declared to the verifier — their bounds name outside traits — so each is
//! carried opaquely in a newtype.

use vstd::prelude::*;

use curv::arithmetic::Converter;
use curv::cryptographic_primitives::proofs::sigma_correct_homomorphic_elgamal_enc::HomoELGamalProof;
use curv::cryptographic_primitives::proofs::sigma_dlog::DLogProof;
use curv::cryptographic_primitives::secret_sharing::feldman_vss::VerifiableSS;
use curv::elliptic::curves::{Point, Scalar, Secp256k1};
use multi_party_ecdsa::protocols::multi_party_ecdsa::gg_2018::party_i::{
    verify as gg18_verify, KeyGenBroadcastMessage1, KeyGenDecommitMessage1, Keys, LocalSignature,
    Parameters, PartyPrivate, Phase5ADecom1, Phase5Com1, Phase5Com2, Phase5DDecom2, SharedKeys,
    SignBroadcastPhase1, SignDecommitPhase1, SignKeys, SignatureRecid,
};
use multi_party_ecdsa::utilities::mta::{MessageA, MessageB};
use sha2::Sha256;

verus! {

/// Whether a round-1 keygen commitment parses from the given JSON text.
pub uninterp spec fn bc1_json_ok(s: Seq<char>) -> bool;

/// Whether a round-2 keygen decommitment parses from the given JSON text.
pub uninterp spec fn decom_json_ok(s: Seq<char>) -> bool;

/// Whether a Feldman commitment vector parses from the given JSON text.
pub uninterp spec fn vss_json_ok(s: Seq<char>) -> bool;

/// Whether a Schnorr proof parses from the given JSON text.
pub uninterp spec fn dlog_json_ok(s: Seq<char>) -> bool;

/// Whether a signing round-1 payload parses from the given JSON text.
pub uninterp spec fn sign_round1_json_ok(s: Seq<char>) -> bool;

/// Whether an MtA answer pair parses from the given JSON text.
pub uninterp spec fn mb_pair_json_ok(s: Seq<char>) -> bool;

/// Whether a scalar share parses from the given JSON text.
pub uninterp spec fn scalar_json_ok(s: Seq<char>) -> bool;

/// Whether a signing round-4 decommitment parses from the given JSON text.
pub uninterp spec fn sign_decommit_json_ok(s: Seq<char>) -> bool;

/// Whether a phase-5A commitment parses from the given JSON text.
pub uninterp spec fn phase5_com1_json_ok(s: Seq<char>) -> bool;

/// Whether a phase-5A decommitment triple parses from the given JSON text.
pub uninterp spec fn phase5a_triple_json_ok(s: Seq<char>) -> bool;

/// Whether a phase-5C commitment parses from the given JSON text.
pub uninterp spec fn phase5_com2_json_ok(s: Seq<char>) -> bool;

/// Whether a phase-5D decommitment parses from the given JSON text.
pub uninterp spec fn phase5d_json_ok(s: Seq<char>) -> bool;

/// Whether a persisted signer bundle parses from the given JSON text.
pub uninterp spec fn bundle_json_ok(s: Seq<char>) -> bool;

/// The plain shape of a parsed signer bundle: the party's ordinal, the
/// number of Feldman schemes, and the number of Paillier keys. A second name
/// beside `bundle_json_ok` for the same parse, carrying what the validation
/// contracts need of it.
pub uninterp spec fn bundle_shape_of(s: Seq<char>) -> (u16, int, int);

/// Whether `(r, s)`, read as big-endian integers, is a valid ECDSA
/// signature over secp256k1 for the public key with affine coordinates
/// `(x, y)` and the message read as a big-endian integer: a function of its
/// arguments alone.
pub uninterp spec fn ecdsa_verifies(
    r: Seq<u8>,
    s: Seq<u8>,
    x: Seq<u8>,
    y: Seq<u8>,
    msg: Seq<u8>,
) -> bool;

/// A secp256k1 curve point, opaque to the verifier.
#[verifier::external_body]
pub struct CurvePoint {
    inner: Point<Secp256k1>,
}

/// A secp256k1 scalar, opaque to the verifier.
#[verifier::external_body]
pub struct CurveScalar {
    inner: Scalar<Secp256k1>,
}

/// A party's long-term key material (Paillier keypair and secret scalar),
/// opaque to the verifier.
#[verifier::external_body]
pub struct PartyKeys {
    inner: Keys,
}

/// A Feldman VSS commitment scheme, opaque to the verifier.
#[verifier::external_body]
pub struct VssScheme {
    inner: VerifiableSS<Secp256k1>,
}

/// A Schnorr proof of knowledge of a discrete log, opaque to the verifier.
#[verifier::external_body]
pub struct DlogProof {
    inner: DLogProof<Secp256k1, Sha256>,
}

/// A homomorphic-ElGamal consistency proof, opaque to the verifier.
#[verifier::external_body]
pub struct HegProof {
    inner: HomoELGamalProof<Secp256k1, Sha256>,
}

/// A Paillier encryption key, opaque to the verifier.
#[verifier::external_body]
pub struct PaillierKey {
    inner: kzen_paillier::EncryptionKey,
}

/// The private signing state (secret share and Paillier decryption key),
/// opaque to the verifier.
#[verifier::external_body]
pub struct PartyPrivateState {
    inner: PartyPrivate,
}

/// This party's ephemeral signing keys, opaque to the verifier.
#[verifier::external_body]
pub struct SignKeysState {
    inner: SignKeys,
}

/// This party's local signature state, opaque to the verifier.
#[verifier::external_body]
pub struct LocalSignatureState {
    inner: LocalSignature,
}

/// A finished signature with its recovery id, opaque to the verifier.
#[verifier::external_body]
pub struct SignatureRecidState {
    inner: SignatureRecid,
}

/// The six parts of a persisted signer bundle.
pub struct SignerBundleParts {
    pub party_keys: PartyKeys,
    pub shared_keys: SharedKeys,
    pub party_id: u16,
    pub vss_scheme_vec: Vec<VssScheme>,
    pub paillier_key_vector: Vec<PaillierKey>,
    pub y_sum: CurvePoint,
}

#[verifier::external_type_specification]
#[verifier::external_body]
pub struct ExKeyGenBroadcastMessage1(KeyGenBroadcastMessage1);

#[verifier::external_type_specification]
#[verifier::external_body]
pub struct ExSignBroadcastPhase1(SignBroadcastPhase1);

#[verifier::external_type_specification]
#[verifier::external_body]
pub struct ExSignDecommitPhase1(SignDecommitPhase1);

#[verifier::external_type_specification]
#[verifier::external_body]
pub struct ExPhase5Com1(Phase5Com1);

#[verifier::external_type_specification]
#[verifier::external_body]
pub struct ExPhase5Com2(Phase5Com2);

#[verifier::external_type_specification]
#[verifier::external_body]
pub struct ExPhase5ADecom1(Phase5ADecom1);

#[verifier::external_type_specification]
#[verifier::external_body]
pub struct ExPhase5DDecom2(Phase5DDecom2);

#[verifier::external_type_specification]
#[verifier::external_body]
pub struct ExMessageA(MessageA);

#[verifier::external_type_specification]
#[verifier::external_body]
pub struct ExMessageB(MessageB);

#[verifier::external_type_specification]
#[verifier::external_body]
pub struct ExKeyGenDecommitMessage1(KeyGenDecommitMessage1);

#[verifier::external_type_specification]
#[verifier::external_body]
pub struct ExSharedKeys(SharedKeys);

/// Relies on curv Point's Clone; nothing is assumed of the copy.
#[verifier::external_body]
pub fn clone_point(x: &CurvePoint) -> CurvePoint {
    CurvePoint { inner: x.inner.clone() }
}

/// Relies on curv Scalar's Clone; nothing is assumed of the copy.
#[verifier::external_body]
pub(crate) fn clone_scalar(x: &CurveScalar) -> CurveScalar {
    CurveScalar { inner: x.inner.clone() }
}

/// Relies on Keys::create: a fresh Paillier keypair and secret scalar for
/// this party ordinal, freshly sampled.
#[verifier::external_body]
pub(crate) fn keys_create(index: u16) -> PartyKeys {
    PartyKeys { inner: Keys::create(index) }
}

/// Relies on Keys::phase1_broadcast_phase3_proof_of_correct_key: the round-1
/// commitment (with proof of correct Paillier key) and its decommitment.
#[verifier::external_body]
pub(crate) fn keys_phase1_broadcast(keys: &PartyKeys) -> (KeyGenBroadcastMessage1, KeyGenDecommitMessage1) {
    keys.inner.phase1_broadcast_phase3_proof_of_correct_key()
}

/// Relies on KeyGenDecommitMessage1's `y_i` field: the sender's ephemeral
/// public point.
#[verifier::external_body]
pub(crate) fn decom_point(decom: &KeyGenDecommitMessage1) -> CurvePoint {
    CurvePoint { inner: decom.y_i.clone() }
}

/// Relies on curv point addition.
#[verifier::external_body]
pub(crate) fn point_add_pts(a: &CurvePoint, b: &CurvePoint) -> CurvePoint {
    CurvePoint { inner: &a.inner + &b.inner }
}

/// Relies on curv point-scalar multiplication and coordinate access: the
/// Diffie-Hellman key with a peer, `x_coord(u_i * Y_peer)` as minimal
/// big-endian bytes — a coordinate is below `2^256`, so at most 32 bytes. A
/// zero product has no coordinate and yields nothing.
#[verifier::external_body]
pub(crate) fn dh_shared_key(peer_point: &CurvePoint, own_keys: &PartyKeys) -> (r: Option<Vec<u8>>)
    ensures
        r matches Some(v) ==> v@.len() <= 32,
{
    let prod = &peer_point.inner * &own_keys.inner.u_i;
    prod.x_coord().map(|x| x.to_bytes())
}

/// Relies on Keys::phase1_verify_com_phase3_verify_correct_key_phase2_distribute:
/// checks every round-1 commitment against its decommitment and every
/// Paillier proof, and produces this party's Feldman VSS scheme and the `n`
/// Shamir shares. Fails exactly where a commitment or proof fails, and on a
/// degenerate peer Paillier modulus or a proof without its eleven response
/// values (on either of which the proof check would panic). Panics on
/// ill-sized inputs or a threshold at or above the share count (Feldman
/// sharing demands `t < n`), which the requires rule out.
#[verifier::external_body]
pub(crate) fn keygen_verify_and_distribute(
    threshold: u16,
    share_count: u16,
    keys: &PartyKeys,
    decom_vec: &Vec<KeyGenDecommitMessage1>,
    bc1_vec: &Vec<KeyGenBroadcastMessage1>,
) -> (r: Option<(VssScheme, Vec<CurveScalar>)>)
    requires
        threshold < share_count,
        decom_vec@.len() == share_count as int,
        bc1_vec@.len() == share_count as int,
    ensures
        r matches Some(p) ==> p.1@.len() == share_count as int,
{
    if bc1_vec.iter().any(|b| b.e.n <= curv::BigInt::from(0u32) || b.correct_key_proof.sigma_vec.len() != 11) {
        return None;
    }
    let params = Parameters { threshold, share_count };
    let res = keys.inner.phase1_verify_com_phase3_verify_correct_key_phase2_distribute(&params, decom_vec.as_slice(), bc1_vec.as_slice());
    match res {
        Ok((vss, shares, _index)) => Some((
            VssScheme { inner: vss },
            shares.into_iter().map(|s| CurveScalar { inner: s }).collect(),
        )),
        Err(_) => None,
    }
}

/// Relies on curv's Scalar-to-BigInt byte conversion: the scalar as minimal
/// big-endian bytes.
#[verifier::external_body]
pub(crate) fn scalar_to_bytes(s: &CurveScalar) -> Vec<u8> {
    s.inner.to_bigint().to_bytes()
}

/// Relies on curv's BigInt-to-Scalar conversion: the bytes read big-endian,
/// reduced modulo the group order.
#[verifier::external_body]
pub(crate) fn scalar_of_bytes(b: &[u8]) -> CurveScalar {
    CurveScalar { inner: Scalar::<Secp256k1>::from_bigint(&curv::BigInt::from_bytes(b)) }
}

/// Relies on Keys::phase2_verify_vss_construct_keypair_phase3_pok_dlog:
/// Feldman-checks every received share, assembles the party's long-term
/// share and the joint key, and proves knowledge of the share. Fails exactly
/// where a share fails its check, and on a scheme without commitments (on
/// which the check would panic). Panics on ill-sized inputs, which the
/// requires rule out.
#[verifier::external_body]
pub(crate) fn keygen_construct_keypair(
    threshold: u16,
    share_count: u16,
    keys: &PartyKeys,
    point_vec: &Vec<CurvePoint>,
    party_shares: &Vec<CurveScalar>,
    vss_scheme_vec: &Vec<VssScheme>,
    party_num: u16,
) -> Option<(SharedKeys, DlogProof)>
    requires
        point_vec@.len() == share_count as int,
        party_shares@.len() == share_count as int,
        vss_scheme_vec@.len() == share_count as int,
{
    if vss_scheme_vec.iter().any(|v| v.inner.commitments.is_empty()) {
        return None;
    }
    let params = Parameters { threshold, share_count };
    let points: Vec<_> = point_vec.iter().map(|p| p.inner.clone()).collect();
    let shares: Vec<_> = party_shares.iter().map(|s| s.inner.clone()).collect();
    let vss: Vec<_> = vss_scheme_vec.iter().map(|v| v.inner.clone()).collect();
    let res = keys.inner.phase2_verify_vss_construct_keypair_phase3_pok_dlog(&params, &points, &shares, &vss, party_num);
    match res {
        Ok((sk, proof)) => Some((sk, DlogProof { inner: proof })),
        Err(_) => None,
    }
}

/// Relies on Keys::verify_dlog_proofs: every party's proof of knowledge of
/// its share verifies against its point. Panics on ill-sized inputs, which
/// the requires rule out.
#[verifier::external_body]
pub(crate) fn keys_verify_dlog_proofs(
    threshold: u16,
    share_count: u16,
    dlog_proof_vec: &Vec<DlogProof>,
    point_vec: &Vec<CurvePoint>,
) -> bool
    requires
        dlog_proof_vec@.len() == share_count as int,
        point_vec@.len() == share_count as int,
{
    let params = Parameters { threshold, share_count };
    let proofs: Vec<DLogProof<Secp256k1, Sha256>> =
        dlog_proof_vec.iter().map(|p| p.inner.clone()).collect();
    let points: Vec<Point<Secp256k1>> = point_vec.iter().map(|p| p.inner.clone()).collect();
    Keys::verify_dlog_proofs(&params, proofs.as_slice(), points.as_slice()).is_ok()
}

/// Relies on KeyGenBroadcastMessage1's `e` field: the sender's Paillier
/// encryption key.
#[verifier::external_body]
pub(crate) fn bc1_encryption_key(bc: &KeyGenBroadcastMessage1) -> PaillierKey {
    PaillierKey { inner: bc.e.clone() }
}

/// Relies on serde_json: the round-1 commitment as its JSON text;
/// serializing these plain protocol values never fails.
#[verifier::external_body]
pub(crate) fn json_of_bc1(v: &KeyGenBroadcastMessage1) -> String {
    serde_json::to_string(v).unwrap()
}

/// Relies on serde_json: a round-1 commitment parsed back from JSON.
#[verifier::external_body]
pub(crate) fn parse_bc1(s: &str) -> (r: Option<KeyGenBroadcastMessage1>)
    ensures
        r is Some <==> bc1_json_ok(s@),
{
    serde_json::from_str(s).ok()
}

/// Relies on serde_json: the round-2 decommitment as its JSON text.
#[verifier::external_body]
pub(crate) fn json_of_decom(v: &KeyGenDecommitMessage1) -> String {
    serde_json::to_string(v).unwrap()
}

/// Relies on serde_json: a round-2 decommitment parsed back from JSON.
#[verifier::external_body]
pub(crate) fn parse_decom(s: &str) -> (r: Option<KeyGenDecommitMessage1>)
    ensures
        r is Some <==> decom_json_ok(s@),
{
    serde_json::from_str(s).ok()
}

/// Relies on serde_json: the round-4 Feldman commitment vector as JSON.
#[verifier::external_body]
pub(crate) fn json_of_vss(v: &VssScheme) -> String {
    serde_json::to_string(&v.inner).unwrap()
}

/// Relies on serde_json: a Feldman commitment vector parsed back from JSON.
#[verifier::external_body]
pub(crate) fn parse_vss(s: &str) -> (r: Option<VssScheme>)
    ensures
        r is Some <==> vss_json_ok(s@),
{
    serde_json::from_str(s).ok().map(|inner| VssScheme { inner })
}

/// Relies on serde_json: the round-5 Schnorr proof as JSON.
#[verifier::external_body]
pub(crate) fn json_of_dlog(v: &DlogProof) -> String {
    serde_json::to_string(&v.inner).unwrap()
}

/// Relies on serde_json: a round-5 Schnorr proof parsed back from JSON.
#[verifier::external_body]
pub(crate) fn parse_dlog(s: &str) -> (r: Option<DlogProof>)
    ensures
        r is Some <==> dlog_json_ok(s@),
{
    serde_json::from_str(s).ok().map(|inner| DlogProof { inner })
}

/// Relies on serde_json: the persistent signer bundle — keys, share, party
/// ordinal, every party's Feldman commitments and Paillier key, and the
/// joint public key — as one JSON document, which parses back with the
/// ordinal and vector counts it was written with (these serializers round
/// trip).
#[verifier::external_body]
pub(crate) fn json_of_key_bundle(
    keys: &PartyKeys,
    shared_keys: &SharedKeys,
    party_num: u16,
    vss_vec: &Vec<VssScheme>,
    paillier_keys: &Vec<PaillierKey>,
    y_sum: &CurvePoint,
) -> (r: String)
    ensures
        bundle_json_ok(r@),
        bundle_shape_of(r@).0 == party_num,
        bundle_shape_of(r@).1 == vss_vec@.len(),
        bundle_shape_of(r@).2 == paillier_keys@.len(),
{
    let vss: Vec<&VerifiableSS<Secp256k1>> = vss_vec.iter().map(|v| &v.inner).collect();
    let eks: Vec<&kzen_paillier::EncryptionKey> = paillier_keys.iter().map(|k| &k.inner).collect();
    serde_json::to_string(&(&keys.inner, shared_keys, party_num, vss, eks, &y_sum.inner)).unwrap()
}

/// Relies on PartyPrivate::set_private: binds the long-term keys and the
/// party's Shamir share into the private signing state.
#[verifier::external_body]
pub(crate) fn set_private(keys: &PartyKeys, shared_keys: &SharedKeys) -> PartyPrivateState {
    PartyPrivateState { inner: PartyPrivate::set_private(keys.inner.clone(), shared_keys.clone()) }
}

/// Relies on PartyPrivate::update_private_key: adds the given tweaks to the
/// party's secret `u_i` and share `x_i`.
#[verifier::external_body]
pub(crate) fn private_update(
    private: PartyPrivateState,
    factor_u_i: &CurveScalar,
    factor_x_i: &CurveScalar,
) -> PartyPrivateState {
    PartyPrivateState { inner: private.inner.update_private_key(&factor_u_i.inner, &factor_x_i.inner) }
}

/// Relies on curv Scalar::zero.
#[verifier::external_body]
pub(crate) fn scalar_zero() -> CurveScalar {
    CurveScalar { inner: Scalar::<Secp256k1>::zero() }
}

/// Relies on VerifiableSS's fields: the scheme with its first commitment
/// moved by `f_l * G`, the other commitments kept — how the HD tweak is
/// applied to the leader's commitment vector so the Feldman checks stay
/// consistent. A scheme without commitments yields nothing.
#[verifier::external_body]
pub(crate) fn vss_with_tweaked_first_commitment(vss: &VssScheme, f_l: &CurveScalar) -> Option<VssScheme> {
    let g = Point::<Secp256k1>::generator().to_point();
    let mut commitments = vss.inner.commitments.clone();
    let first = commitments.first()?;
    commitments[0] = first + g * &f_l.inner;
    Some(VssScheme {
        inner: VerifiableSS { parameters: vss.inner.parameters.clone(), commitments },
    })
}

/// Relies on SignKeys::create: this party's ephemeral signing keys, with its
/// share mapped to the signing subset by the Lagrange coefficient. Panics
/// when `index` is not in the subset, when the subset holds a duplicate
/// (the Lagrange basis demands pairwise-distinct ordinals), or when an
/// ordinal plus one overflows; the requires rule all three out.
#[verifier::external_body]
pub(crate) fn sign_keys_create(
    private: &PartyPrivateState,
    vss_scheme: &VssScheme,
    index: u16,
    signers_vec: &Vec<u16>,
) -> SignKeysState
    requires
        exists|i: int| 0 <= i < signers_vec@.len() && signers_vec@[i] == index,
        forall|i: int, j: int|
            0 <= i < j < signers_vec@.len() ==> signers_vec@[i] != signers_vec@[j],
        forall|i: int| 0 <= i < signers_vec@.len() ==> (#[trigger] signers_vec@[i]) < u16::MAX,
{
    SignKeysState {
        inner: SignKeys::create(&private.inner, &vss_scheme.inner, index, signers_vec.as_slice()),
    }
}

/// Relies on SignKeys::phase1_broadcast: the commitment to `gamma_i * G` and
/// its decommitment, freshly blinded.
#[verifier::external_body]
pub(crate) fn sign_phase1_broadcast(sign_keys: &SignKeysState) -> (SignBroadcastPhase1, SignDecommitPhase1) {
    sign_keys.inner.phase1_broadcast()
}

/// Relies on MessageA::a: the Paillier encryption of `k_i` under this
/// party's key, freshly randomized. Fails on a non-positive Paillier
/// modulus (on which sampling would panic), as a corrupt bundle could
/// carry.
#[verifier::external_body]
pub(crate) fn message_a(sign_keys: &SignKeysState, keys: &PartyKeys) -> Option<MessageA> {
    if keys.inner.ek.n <= curv::BigInt::from(0u32) {
        return None;
    }
    let (m_a, _) = MessageA::a(&sign_keys.inner.k_i, &keys.inner.ek, &[]);
    Some(m_a)
}

/// Relies on MessageB::b: the MtA answer for `gamma_i` against a peer's
/// `MessageA` under the peer's Paillier key, and this party's additive share
/// `beta`. Fails where the protocol library refuses the input, and on a
/// non-positive peer Paillier modulus (on which sampling would panic).
#[verifier::external_body]
pub(crate) fn message_b_gamma(
    sign_keys: &SignKeysState,
    ek: &PaillierKey,
    m_a: &MessageA,
) -> Option<(MessageB, CurveScalar)> {
    if ek.inner.n <= curv::BigInt::from(0u32) {
        return None;
    }
    match MessageB::b(&sign_keys.inner.gamma_i, &ek.inner, m_a.clone(), &[]) {
        Ok((m_b, beta, _, _)) => Some((m_b, CurveScalar { inner: beta })),
        Err(_) => None,
    }
}

/// Relies on MessageB::b: the MtA answer for `w_i`, as `message_b_gamma`.
#[verifier::external_body]
pub(crate) fn message_b_w(
    sign_keys: &SignKeysState,
    ek: &PaillierKey,
    m_a: &MessageA,
) -> Option<(MessageB, CurveScalar)> {
    if ek.inner.n <= curv::BigInt::from(0u32) {
        return None;
    }
    match MessageB::b(&sign_keys.inner.w_i, &ek.inner, m_a.clone(), &[]) {
        Ok((m_b, beta, _, _)) => Some((m_b, CurveScalar { inner: beta })),
        Err(_) => None,
    }
}

/// Relies on MessageB::verify_proofs_get_alpha: checks the embedded proof of
/// knowledge and recovers the additive share `alpha` under this party's
/// Paillier decryption key. Fails exactly where the proof fails.
#[verifier::external_body]
pub(crate) fn verify_proofs_get_alpha(
    m_b: &MessageB,
    keys: &PartyKeys,
    sign_keys: &SignKeysState,
) -> Option<CurveScalar> {
    match m_b.verify_proofs_get_alpha(&keys.inner.dk, &sign_keys.inner.k_i) {
        Ok((alpha, _)) => Some(CurveScalar { inner: alpha }),
        Err(_) => None,
    }
}

/// Relies on Keys::get_commitments_to_xi: each party's public share
/// commitment, one per Feldman scheme in order. Fails on a scheme without
/// commitments or more schemes than ordinals fit (on which the library
/// would panic).
#[verifier::external_body]
pub(crate) fn get_commitments_to_xi(vss_scheme_vec: &Vec<VssScheme>) -> (r: Option<
    Vec<CurvePoint>,
>)
    ensures
        r matches Some(v) ==> v@.len() == vss_scheme_vec@.len(),
{
    if vss_scheme_vec.len() > usize::from(u16::MAX) {
        return None;
    }
    if vss_scheme_vec.iter().any(|v| v.inner.commitments.is_empty()) {
        return None;
    }
    let vss: Vec<VerifiableSS<Secp256k1>> =
        vss_scheme_vec.iter().map(|v| v.inner.clone()).collect();
    Some(Keys::get_commitments_to_xi(vss.as_slice())
        .into_iter()
        .map(|p| CurvePoint { inner: p })
        .collect())
}

/// Relies on Keys::update_commitments_to_xi: a share commitment mapped to
/// the signing subset by its Lagrange coefficient, `g ^ w_j`. Panics when
/// `index` is not in the subset, when the subset holds a duplicate, or when
/// an ordinal plus one overflows; the requires rule all three out.
#[verifier::external_body]
pub(crate) fn update_commitments_to_xi(
    comm: &CurvePoint,
    vss_scheme: &VssScheme,
    index: u16,
    signers_vec: &Vec<u16>,
) -> CurvePoint
    requires
        exists|i: int| 0 <= i < signers_vec@.len() && signers_vec@[i] == index,
        forall|i: int, j: int|
            0 <= i < j < signers_vec@.len() ==> signers_vec@[i] != signers_vec@[j],
        forall|i: int| 0 <= i < signers_vec@.len() ==> (#[trigger] signers_vec@[i]) < u16::MAX,
{
    CurvePoint {
        inner: Keys::update_commitments_to_xi(
            &comm.inner,
            &vss_scheme.inner,
            index,
            signers_vec.as_slice(),
        ),
    }
}

/// Relies on MessageB's `b_proof` field and curv point equality: whether the
/// proof's public point equals the expected `g ^ w_j`.
#[verifier::external_body]
pub(crate) fn mb_proof_pk_matches(m_b: &MessageB, expected: &CurvePoint) -> bool {
    m_b.b_proof.pk == expected.inner
}

/// Relies on SignKeys::phase2_delta_i: `k_i * gamma_i + sum(alpha) +
/// sum(beta)`. Panics on ill-sized inputs, which the requires rule out.
#[verifier::external_body]
pub(crate) fn phase2_delta_i(
    sign_keys: &SignKeysState,
    alpha_vec: &Vec<CurveScalar>,
    beta_vec: &Vec<CurveScalar>,
) -> CurveScalar
    requires
        alpha_vec@.len() == beta_vec@.len(),
{
    let alphas: Vec<Scalar<Secp256k1>> = alpha_vec.iter().map(|s| s.inner.clone()).collect();
    let betas: Vec<Scalar<Secp256k1>> = beta_vec.iter().map(|s| s.inner.clone()).collect();
    CurveScalar { inner: sign_keys.inner.phase2_delta_i(alphas.as_slice(), betas.as_slice()) }
}

/// Relies on SignKeys::phase2_sigma_i: `k_i * w_i + sum(miu) + sum(ni)`.
/// Panics on ill-sized inputs, which the requires rule out.
#[verifier::external_body]
pub(crate) fn phase2_sigma_i(
    sign_keys: &SignKeysState,
    miu_vec: &Vec<CurveScalar>,
    ni_vec: &Vec<CurveScalar>,
) -> CurveScalar
    requires
        miu_vec@.len() == ni_vec@.len(),
{
    let mius: Vec<Scalar<Secp256k1>> = miu_vec.iter().map(|s| s.inner.clone()).collect();
    let nis: Vec<Scalar<Secp256k1>> = ni_vec.iter().map(|s| s.inner.clone()).collect();
    CurveScalar { inner: sign_keys.inner.phase2_sigma_i(mius.as_slice(), nis.as_slice()) }
}

/// Relies on curv scalar summation and inversion: the inverse of the sum of
/// all delta shares, or nothing when the sum is zero.
#[verifier::external_body]
pub(crate) fn phase3_reconstruct_delta(delta_vec: &Vec<CurveScalar>) -> Option<CurveScalar> {
    let sum: Scalar<Secp256k1> = delta_vec.iter().map(|s| s.inner.clone()).sum();
    sum.invert().map(|inner| CurveScalar { inner })
}

/// Relies on SignKeys::phase4: checks every peer's round-1 commitment
/// against its decommitment and the MtA proof's point, and forms
/// `sum(gamma_j * G) * delta_inv` over the peers. Fails exactly where an
/// opening fails. Panics on ill-sized inputs, which the requires rule out.
#[verifier::external_body]
pub(crate) fn sign_phase4(
    delta_inv: &CurveScalar,
    m_b_gamma_rec: &Vec<MessageB>,
    decommit_vec: &Vec<SignDecommitPhase1>,
    bc1_vec: &Vec<SignBroadcastPhase1>,
) -> Option<CurvePoint>
    requires
        decommit_vec@.len() == m_b_gamma_rec@.len(),
        bc1_vec@.len() == m_b_gamma_rec@.len(),
{
    let b_proofs: Vec<&DLogProof<Secp256k1, Sha256>> =
        m_b_gamma_rec.iter().map(|m| &m.b_proof).collect();
    SignKeys::phase4(&delta_inv.inner, b_proofs.as_slice(), decommit_vec.clone(), bc1_vec.as_slice())
        .ok()
        .map(|inner| CurvePoint { inner })
}

/// Relies on SignDecommitPhase1's `g_gamma_i` field.
#[verifier::external_body]
pub(crate) fn decom_g_gamma(decom: &SignDecommitPhase1) -> CurvePoint {
    CurvePoint { inner: decom.g_gamma_i.clone() }
}

/// Relies on curv point-scalar multiplication.
#[verifier::external_body]
pub(crate) fn point_mul_scalar(p: &CurvePoint, s: &CurveScalar) -> CurvePoint {
    CurvePoint { inner: &p.inner * &s.inner }
}

/// Relies on LocalSignature::phase5_local_sig: this party's local signature
/// state over the message read as a big-endian integer. Fails only for a
/// zero `R`, which has no x coordinate.
#[verifier::external_body]
pub(crate) fn phase5_local_sig(
    sign_keys: &SignKeysState,
    message: &[u8],
    big_r: &CurvePoint,
    sigma: &CurveScalar,
    y: &CurvePoint,
) -> Option<LocalSignatureState> {
    match big_r.inner.x_coord() {
        None => None,
        Some(_) => Some(LocalSignatureState {
            inner: LocalSignature::phase5_local_sig(
                &sign_keys.inner.k_i,
                &curv::BigInt::from_bytes(message),
                &big_r.inner,
                &sigma.inner,
                &y.inner,
            ),
        }),
    }
}

/// Relies on LocalSignature::phase5a_broadcast_5b_zkproof: the phase-5A
/// commitment, its decommitment and the two proofs, freshly blinded.
#[verifier::external_body]
pub(crate) fn phase5a_broadcast_5b_zkproof(
    local_sig: &LocalSignatureState,
) -> (Phase5Com1, Phase5ADecom1, HegProof, DlogProof) {
    let (com, decom, heg, dlog) = local_sig.inner.phase5a_broadcast_5b_zkproof();
    (com, decom, HegProof { inner: heg }, DlogProof { inner: dlog })
}

/// Relies on LocalSignature::phase5c: checks every peer's phase-5A opening
/// and proofs and forms the phase-5C commitment pair. Fails exactly where an
/// opening or proof fails. Panics on ill-sized inputs, which the requires
/// rule out.
#[verifier::external_body]
pub(crate) fn sign_phase5c(
    local_sig: &LocalSignatureState,
    decom_vec: &Vec<Phase5ADecom1>,
    com_vec: &Vec<Phase5Com1>,
    elgamal_vec: &Vec<HegProof>,
    dlog_vec: &Vec<DlogProof>,
    v_i: &CurvePoint,
    big_r: &CurvePoint,
) -> Option<(Phase5Com2, Phase5DDecom2)>
    requires
        com_vec@.len() == decom_vec@.len(),
        elgamal_vec@.len() == decom_vec@.len(),
        dlog_vec@.len() == decom_vec@.len(),
{
    let hegs: Vec<HomoELGamalProof<Secp256k1, Sha256>> =
        elgamal_vec.iter().map(|p| p.inner.clone()).collect();
    let dlogs: Vec<DLogProof<Secp256k1, Sha256>> = dlog_vec.iter().map(|p| p.inner.clone()).collect();
    local_sig
        .inner
        .phase5c(decom_vec.as_slice(), com_vec.as_slice(), hegs.as_slice(), dlogs.as_slice(), &v_i.inner, &big_r.inner)
        .ok()
}

/// Relies on Phase5ADecom1's derived Clone; nothing is assumed of the copy.
#[verifier::external_body]
pub(crate) fn clone_phase5a_decom(d: &Phase5ADecom1) -> Phase5ADecom1 {
    d.clone()
}

/// Relies on Phase5ADecom1's `V_i` field.
#[verifier::external_body]
pub(crate) fn phase5a_decom_v(decom: &Phase5ADecom1) -> CurvePoint {
    CurvePoint { inner: decom.V_i.clone() }
}

/// Relies on LocalSignature::phase5d: checks every phase-5C commitment
/// opening and hands out this party's signature share. Fails exactly where a
/// check fails. Panics on ill-sized inputs, which the requires rule out.
#[verifier::external_body]
pub(crate) fn sign_phase5d(
    local_sig: &LocalSignatureState,
    decom_vec2: &Vec<Phase5DDecom2>,
    com_vec2: &Vec<Phase5Com2>,
    decom_vec1: &Vec<Phase5ADecom1>,
) -> Option<CurveScalar>
    requires
        decom_vec1@.len() == decom_vec2@.len(),
        com_vec2@.len() == decom_vec2@.len(),
{
    local_sig
        .inner
        .phase5d(decom_vec2.as_slice(), com_vec2.as_slice(), decom_vec1.as_slice())
        .ok()
        .map(|inner| CurveScalar { inner })
}

/// Relies on LocalSignature::output_signature: aggregates the signature
/// shares, normalizes `s`, computes the recovery id (0 or 1, so within the
/// wire format's `0..=3`), and verifies the signature before handing it out.
/// Fails exactly where the final verification fails.
#[verifier::external_body]
pub(crate) fn output_signature(
    local_sig: &LocalSignatureState,
    s_vec: &Vec<CurveScalar>,
) -> Option<SignatureRecidState> {
    let shares: Vec<Scalar<Secp256k1>> = s_vec.iter().map(|s| s.inner.clone()).collect();
    local_sig.inner.output_signature(shares.as_slice()).ok().map(
        |inner| SignatureRecidState { inner },
    )
}

/// Relies on the gg18 `verify` function over values rebuilt from bytes:
/// standard ECDSA verification of `(r, s)` against the public key with the
/// given affine coordinates and the message, all read as big-endian
/// integers. Coordinates that are no curve point verify nothing.
#[verifier::external_body]
pub(crate) fn ecdsa_verify_bytes(
    r_bytes: &[u8],
    s_bytes: &[u8],
    x: &[u8],
    y: &[u8],
    message: &[u8],
) -> (ok: bool)
    ensures
        ok == ecdsa_verifies(r_bytes@, s_bytes@, x@, y@, message@),
{
    let xi = curv::BigInt::from_bytes(x);
    let yi = curv::BigInt::from_bytes(y);
    let point = match Point::<Secp256k1>::from_coords(&xi, &yi) {
        Ok(p) => p,
        Err(_) => return false,
    };
    let r = Scalar::from_bigint(&curv::BigInt::from_bytes(r_bytes));
    let s = Scalar::from_bigint(&curv::BigInt::from_bytes(s_bytes));
    let sig = SignatureRecid { r, s, recid: 0 };
    let m = curv::BigInt::from_bytes(message);
    gg18_verify(&sig, &point, &m).is_ok()
}

/// Relies on SignatureRecid's fields and curv byte conversion: `r` and `s`
/// as minimal big-endian bytes — scalars are below `2^256`, so at most 32
/// bytes each — and the recovery id.
#[verifier::external_body]
pub(crate) fn signature_parts(sig: &SignatureRecidState) -> (r: (Vec<u8>, Vec<u8>, u8))
    ensures
        r.0@.len() <= 32,
        r.1@.len() <= 32,
        r.2 <= 3,
{
    (
        sig.inner.r.to_bigint().to_bytes(),
        sig.inner.s.to_bigint().to_bytes(),
        sig.inner.recid,
    )
}

/// Relies on curv point coordinate access: the affine coordinates as minimal
/// big-endian bytes — coordinates are below `2^256`, so at most 32 bytes
/// each; the zero point has none.
#[verifier::external_body]
pub(crate) fn point_coords_bytes(p: &CurvePoint) -> (r: Option<(Vec<u8>, Vec<u8>)>)
    ensures
        r matches Some(c) ==> c.0@.len() <= 32 && c.1@.len() <= 32,
{
    let x = p.inner.x_coord()?;
    let y = p.inner.y_coord()?;
    Some((x.to_bytes(), y.to_bytes()))
}

/// Relies on curv point serialization: the 33-byte compressed form.
#[verifier::external_body]
pub fn point_to_bytes(p: &CurvePoint) -> (r: Vec<u8>)
    ensures
        r@.len() == 33,
{
    p.inner.to_bytes(true).to_vec()
}

/// Relies on curv point parsing: the point back from its (un)compressed
/// form, or nothing for bytes that are no point.
#[verifier::external_body]
pub fn point_of_bytes(b: &[u8]) -> Option<CurvePoint> {
    Point::<Secp256k1>::from_bytes(b).ok().map(|inner| CurvePoint { inner })
}

/// Relies on serde_json: the signing round-1 payload, the commitment and the
/// Paillier-encrypted `k_i` as one JSON document.
#[verifier::external_body]
pub(crate) fn json_of_sign_round1(com: &SignBroadcastPhase1, m_a: &MessageA) -> String {
    serde_json::to_string(&(com, m_a)).unwrap()
}

/// Relies on serde_json: a signing round-1 payload parsed back.
#[verifier::external_body]
pub(crate) fn parse_sign_round1(s: &str) -> (r: Option<(SignBroadcastPhase1, MessageA)>)
    ensures
        r is Some <==> sign_round1_json_ok(s@),
{
    serde_json::from_str(s).ok()
}

/// Relies on serde_json: the MtA answer pair (for gamma and for w) as JSON.
#[verifier::external_body]
pub(crate) fn json_of_mb_pair(gamma: &MessageB, w: &MessageB) -> String {
    serde_json::to_string(&(gamma, w)).unwrap()
}

/// Relies on serde_json: an MtA answer pair parsed back.
#[verifier::external_body]
pub(crate) fn parse_mb_pair(s: &str) -> (r: Option<(MessageB, MessageB)>)
    ensures
        r is Some <==> mb_pair_json_ok(s@),
{
    serde_json::from_str(s).ok()
}

/// Relies on serde_json: a scalar share as JSON.
#[verifier::external_body]
pub(crate) fn json_of_scalar(s: &CurveScalar) -> String {
    serde_json::to_string(&s.inner).unwrap()
}

/// Relies on serde_json: a scalar share parsed back.
#[verifier::external_body]
pub(crate) fn parse_scalar(s: &str) -> (r: Option<CurveScalar>)
    ensures
        r is Some <==> scalar_json_ok(s@),
{
    serde_json::from_str(s).ok().map(|inner| CurveScalar { inner })
}

/// Relies on serde_json: the round-4 decommitment to `gamma_i * G` as JSON.
#[verifier::external_body]
pub(crate) fn json_of_sign_decommit(d: &SignDecommitPhase1) -> String {
    serde_json::to_string(d).unwrap()
}

/// Relies on serde_json: a round-4 decommitment parsed back.
#[verifier::external_body]
pub(crate) fn parse_sign_decommit(s: &str) -> (r: Option<SignDecommitPhase1>)
    ensures
        r is Some <==> sign_decommit_json_ok(s@),
{
    serde_json::from_str(s).ok()
}

/// Relies on serde_json: the phase-5A commitment as JSON.
#[verifier::external_body]
pub(crate) fn json_of_phase5_com1(c: &Phase5Com1) -> String {
    serde_json::to_string(c).unwrap()
}

/// Relies on serde_json: a phase-5A commitment parsed back.
#[verifier::external_body]
pub(crate) fn parse_phase5_com1(s: &str) -> (r: Option<Phase5Com1>)
    ensures
        r is Some <==> phase5_com1_json_ok(s@),
{
    serde_json::from_str(s).ok()
}

/// Relies on serde_json: the phase-5A decommitment with its two proofs as
/// one JSON document.
#[verifier::external_body]
pub(crate) fn json_of_phase5a_decom(
    d: &Phase5ADecom1,
    heg: &HegProof,
    dlog: &DlogProof,
) -> String {
    serde_json::to_string(&(d, &heg.inner, &dlog.inner)).unwrap()
}

/// Relies on serde_json: a phase-5A decommitment triple parsed back.
#[verifier::external_body]
pub(crate) fn parse_phase5a_decom(s: &str) -> (r: Option<(Phase5ADecom1, HegProof, DlogProof)>)
    ensures
        r is Some <==> phase5a_triple_json_ok(s@),
{
    let (d, heg, dlog): (
        Phase5ADecom1,
        HomoELGamalProof<Secp256k1, Sha256>,
        DLogProof<Secp256k1, Sha256>,
    ) = serde_json::from_str(s).ok()?;
    Some((d, HegProof { inner: heg }, DlogProof { inner: dlog }))
}

/// Relies on serde_json: the phase-5C commitment as JSON.
#[verifier::external_body]
pub(crate) fn json_of_phase5_com2(c: &Phase5Com2) -> String {
    serde_json::to_string(c).unwrap()
}

/// Relies on serde_json: a phase-5C commitment parsed back.
#[verifier::external_body]
pub(crate) fn parse_phase5_com2(s: &str) -> (r: Option<Phase5Com2>)
    ensures
        r is Some <==> phase5_com2_json_ok(s@),
{
    serde_json::from_str(s).ok()
}

/// Relies on serde_json: the phase-5D decommitment as JSON.
#[verifier::external_body]
pub(crate) fn json_of_phase5d_decom(d: &Phase5DDecom2) -> String {
    serde_json::to_string(d).unwrap()
}

/// Relies on serde_json: a phase-5D decommitment parsed back.
#[verifier::external_body]
pub(crate) fn parse_phase5d_decom(s: &str) -> (r: Option<Phase5DDecom2>)
    ensures
        r is Some <==> phase5d_json_ok(s@),
{
    serde_json::from_str(s).ok()
}

/// Relies on serde_json: a persisted signer bundle parsed back into its six
/// parts.
#[verifier::external_body]
pub(crate) fn parse_key_bundle(s: &str) -> (r: Option<SignerBundleParts>)
    ensures
        r is Some <==> bundle_json_ok(s@),
        r matches Some(b) ==> b.party_id == bundle_shape_of(s@).0
            && b.vss_scheme_vec@.len() == bundle_shape_of(s@).1
            && b.paillier_key_vector@.len() == bundle_shape_of(s@).2,
{
    let raw = serde_json::from_str::<(Keys, SharedKeys, u16, Vec<VerifiableSS<Secp256k1>>, Vec<kzen_paillier::EncryptionKey>, Point<Secp256k1>)>(s).ok()?;
    Some(SignerBundleParts {
        party_keys: PartyKeys { inner: raw.0 },
        shared_keys: raw.1,
        party_id: raw.2,
        vss_scheme_vec: raw.3.into_iter().map(|inner| VssScheme { inner }).collect(),
        paillier_key_vector: raw.4.into_iter().map(|inner| PaillierKey { inner }).collect(),
        y_sum: CurvePoint { inner: raw.5 },
    })
}

} // verus!
