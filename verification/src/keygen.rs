//! The five-round distributed key generation engine. Each round is a pure
//! step: it consumes the previous round's state and the peers' answers (in
//! ascending peer order, as the polls deliver them), performs this party's
//! cryptography through the trusted boundary, and hands back the next state
//! and the payload to publish. The surrounding process moves payloads over
//! the relay; a `None` anywhere aborts the run with nothing persisted.
//!
//! Everywhere a party's own value stands beside its peers', it is spliced in
//! at position `party_num - 1`, so the slot index equals the ordinal minus
//! one.

use vstd::prelude::*;

use multi_party_ecdsa::protocols::multi_party_ecdsa::gg_2018::party_i::{
    KeyGenBroadcastMessage1, KeyGenDecommitMessage1, SharedKeys,
};

use crate::aead::{aes_decrypt, aes_encrypt};
use crate::gg18::{
    bc1_encryption_key, clone_scalar, decom_point, dh_shared_key, json_of_bc1,
    json_of_decom, json_of_dlog, json_of_key_bundle, json_of_vss, keygen_construct_keypair,
    keygen_verify_and_distribute, keys_create, keys_phase1_broadcast, keys_verify_dlog_proofs,
    parse_bc1, parse_decom, parse_dlog, parse_vss, scalar_of_bytes, scalar_to_bytes, CurvePoint,
    CurveScalar, DlogProof, PartyKeys, VssScheme,
};
use crate::types::AEAD;

verus! {

/// Session parameters and this party's ordinal; constant through the run.
/// Feldman sharing demands a threshold strictly below the share count.
pub open spec fn params_ok(threshold: u16, parties: u16, party_num: u16) -> bool {
    threshold < parties && 1 <= party_num <= parties
}

/// After round 1: own keys and the commitment pair, the commitment already
/// published.
pub struct KeygenRound1 {
    pub threshold: u16,
    pub parties: u16,
    pub party_num: u16,
    pub party_keys: PartyKeys,
    pub bc_i: KeyGenBroadcastMessage1,
    pub decom_i: KeyGenDecommitMessage1,
}

impl KeygenRound1 {
    pub open spec fn wf(self) -> bool {
        params_ok(self.threshold, self.parties, self.party_num)
    }
}

/// After round 2: every party's round-1 commitment, own decommitment
/// published.
pub struct KeygenRound2 {
    pub threshold: u16,
    pub parties: u16,
    pub party_num: u16,
    pub party_keys: PartyKeys,
    pub decom_i: KeyGenDecommitMessage1,
    pub bc1_vec: Vec<KeyGenBroadcastMessage1>,
}

impl KeygenRound2 {
    pub open spec fn wf(self) -> bool {
        &&& params_ok(self.threshold, self.parties, self.party_num)
        &&& self.bc1_vec@.len() == self.parties as int
    }
}

/// After round 3: every party's ephemeral point, the pairwise channel keys,
/// own Feldman scheme and the `n` Shamir shares; the encrypted shares are on
/// their way to the peers.
pub struct KeygenRound3 {
    pub threshold: u16,
    pub parties: u16,
    pub party_num: u16,
    pub party_keys: PartyKeys,
    pub bc1_vec: Vec<KeyGenBroadcastMessage1>,
    pub point_vec: Vec<CurvePoint>,
    pub enc_keys: Vec<Vec<u8>>,
    pub y_sum: CurvePoint,
    pub vss_scheme: VssScheme,
    pub secret_shares: Vec<CurveScalar>,
}

impl KeygenRound3 {
    pub open spec fn wf(self) -> bool {
        &&& params_ok(self.threshold, self.parties, self.party_num)
        &&& self.bc1_vec@.len() == self.parties as int
        &&& self.point_vec@.len() == self.parties as int
        &&& self.enc_keys@.len() == self.parties as int - 1
        &&& forall|k: int| 0 <= k < self.enc_keys@.len() ==> (#[trigger] self.enc_keys@[k])@.len()
            <= 32
        &&& self.secret_shares@.len() == self.parties as int
    }
}

/// After round 4: the decrypted shares addressed to this party, own Feldman
/// commitments published.
pub struct KeygenRound4 {
    pub threshold: u16,
    pub parties: u16,
    pub party_num: u16,
    pub party_keys: PartyKeys,
    pub bc1_vec: Vec<KeyGenBroadcastMessage1>,
    pub point_vec: Vec<CurvePoint>,
    pub y_sum: CurvePoint,
    pub vss_scheme: VssScheme,
    pub party_shares: Vec<CurveScalar>,
}

impl KeygenRound4 {
    pub open spec fn wf(self) -> bool {
        &&& params_ok(self.threshold, self.parties, self.party_num)
        &&& self.bc1_vec@.len() == self.parties as int
        &&& self.point_vec@.len() == self.parties as int
        &&& self.party_shares@.len() == self.parties as int
    }
}

/// After round 5: every party's Feldman scheme checked against the share it
/// sent, the long-term keypair assembled, own proof of knowledge published.
pub struct KeygenRound5 {
    pub threshold: u16,
    pub parties: u16,
    pub party_num: u16,
    pub party_keys: PartyKeys,
    pub bc1_vec: Vec<KeyGenBroadcastMessage1>,
    pub point_vec: Vec<CurvePoint>,
    pub y_sum: CurvePoint,
    pub vss_scheme_vec: Vec<VssScheme>,
    pub shared_keys: SharedKeys,
    pub dlog_proof: DlogProof,
}

impl KeygenRound5 {
    pub open spec fn wf(self) -> bool {
        &&& params_ok(self.threshold, self.parties, self.party_num)
        &&& self.bc1_vec@.len() == self.parties as int
        &&& self.point_vec@.len() == self.parties as int
        &&& self.vss_scheme_vec@.len() == self.parties as int
    }
}

/// Round 1: sample the long-term key material and publish the commitment to
/// the ephemeral key together with the proof of correct Paillier key. The
/// returned string is the round-1 broadcast payload.
pub fn keygen_round1(threshold: u16, parties: u16, party_num: u16) -> (r: Option<
    (KeygenRound1, String),
>)
    requires
        params_ok(threshold, parties, party_num),
    ensures
        r is Some,
        r matches Some(p) ==> p.0.wf() && p.0.threshold == threshold && p.0.parties == parties
            && p.0.party_num == party_num,
{
    let party_keys = keys_create(party_num);
    let (bc_i, decom_i) = keys_phase1_broadcast(&party_keys);
    let payload = json_of_bc1(&bc_i);
    Some((KeygenRound1 { threshold, parties, party_num, party_keys, bc_i, decom_i }, payload))
}

/// Round 2: collect the peers' commitments, splice our own in at position
/// `party_num - 1`, and publish the decommitment. `round1_ans` holds the
/// peers' payloads in ascending peer order.
pub fn keygen_round2(state: KeygenRound1, round1_ans: &Vec<String>) -> (r: Option<
    (KeygenRound2, String),
>)
    requires
        state.wf(),
        round1_ans@.len() == state.parties as int - 1,
    ensures
        r is Some <==> (forall|k: int|
            0 <= k < round1_ans@.len() ==> crate::gg18::bc1_json_ok(
                (#[trigger] round1_ans@[k])@,
            )),
        r matches Some(p) ==> p.0.wf() && p.0.threshold == state.threshold && p.0.parties
            == state.parties && p.0.party_num == state.party_num && p.0.bc1_vec@[state.party_num
            as int - 1] == state.bc_i,
{
    let n = round1_ans.len();
    let mut bc1_vec: Vec<KeyGenBroadcastMessage1> = Vec::new();
    let mut j: usize = 0;
    while j < n
        invariant
            n == round1_ans@.len(),
            0 <= j <= n,
            bc1_vec@.len() == j,
            forall|k: int| 0 <= k < j ==> crate::gg18::bc1_json_ok((#[trigger] round1_ans@[k])@),
        decreases n - j,
    {
        match parse_bc1(round1_ans[j].as_str()) {
            Some(v) => bc1_vec.push(v),
            None => {
                return None;
            },
        }
        j += 1;
    }
    let payload = json_of_decom(&state.decom_i);
    bc1_vec.insert(state.party_num as usize - 1, state.bc_i);
    Some(
        (
            KeygenRound2 {
                threshold: state.threshold,
                parties: state.parties,
                party_num: state.party_num,
                party_keys: state.party_keys,
                decom_i: state.decom_i,
                bc1_vec,
            },
            payload,
        ),
    )
}

/// Round 3: open the peers' commitments, derive the pairwise channel keys
/// `x_coord(u_i * Y_j)`, form the joint public key as the sum of every
/// ephemeral point, verify commitments and Paillier proofs, and deal the
/// Shamir shares — each share AEAD-sealed for its peer. The returned packs
/// are sent point-to-point, in ascending peer order.
pub fn keygen_round3(state: KeygenRound2, round2_ans: &Vec<String>) -> (r: Option<
    (KeygenRound3, Vec<AEAD>),
>)
    requires
        state.wf(),
        round2_ans@.len() == state.parties as int - 1,
    ensures
        (exists|k: int|
            0 <= k < round2_ans@.len() && !crate::gg18::decom_json_ok(
                (#[trigger] round2_ans@[k])@,
            )) ==> r is None,
        r matches Some(p) ==> p.0.wf() && p.0.threshold == state.threshold && p.0.parties
            == state.parties && p.0.party_num == state.party_num && p.1@.len() == state.parties
            as int - 1,
{
    let n = round2_ans.len();
    let mut peer_decoms: Vec<KeyGenDecommitMessage1> = Vec::new();
    let mut enc_keys: Vec<Vec<u8>> = Vec::new();
    let mut j: usize = 0;
    while j < n
        invariant
            n == round2_ans@.len(),
            0 <= j <= n,
            peer_decoms@.len() == j,
            enc_keys@.len() == j,
            forall|k: int| 0 <= k < j ==> (#[trigger] enc_keys@[k])@.len() <= 32,
            forall|k: int| 0 <= k < j ==> crate::gg18::decom_json_ok((#[trigger] round2_ans@[k])@),
        decreases n - j,
    {
        let decom_j = match parse_decom(round2_ans[j].as_str()) {
            Some(v) => v,
            None => {
                return None;
            },
        };
        let point_j = decom_point(&decom_j);
        let key_j = match dh_shared_key(&point_j, &state.party_keys) {
            Some(k) => k,
            None => {
                return None;
            },
        };
        peer_decoms.push(decom_j);
        enc_keys.push(key_j);
        j += 1;
    }
    let mut decom_vec = peer_decoms;
    decom_vec.insert(state.party_num as usize - 1, state.decom_i);
    let mut point_vec: Vec<CurvePoint> = Vec::new();
    let mut i: usize = 0;
    while i < decom_vec.len()
        invariant
            0 <= i <= decom_vec@.len(),
            point_vec@.len() == i,
        decreases decom_vec@.len() - i,
    {
        point_vec.push(decom_point(&decom_vec[i]));
        i += 1;
    }
    let mut y_sum = crate::gg18::clone_point(&point_vec[0]);
    let mut i2: usize = 1;
    while i2 < point_vec.len()
        invariant
            1 <= i2 <= point_vec@.len(),
        decreases point_vec@.len() - i2,
    {
        y_sum = crate::gg18::point_add_pts(&y_sum, &point_vec[i2]);
        i2 += 1;
    }
    let (vss_scheme, secret_shares) = match keygen_verify_and_distribute(
        state.threshold,
        state.parties,
        &state.party_keys,
        &decom_vec,
        &state.bc1_vec,
    ) {
        Some(p) => p,
        None => {
            return None;
        },
    };
    // Seal each peer's share under the pairwise key; peer k (0-based over
    // all n parties) is the j-th polled peer.
    let mut packs: Vec<AEAD> = Vec::new();
    let mut k: usize = 0;
    let mut jj: usize = 0;
    let own = state.party_num as usize - 1;
    while k < secret_shares.len()
        invariant
            params_ok(state.threshold, state.parties, state.party_num),
            secret_shares@.len() == state.parties as int,
            enc_keys@.len() == state.parties as int - 1,
            forall|q: int| 0 <= q < enc_keys@.len() ==> (#[trigger] enc_keys@[q])@.len() <= 32,
            own == state.party_num as int - 1,
            0 <= k <= secret_shares@.len(),
            jj == if k <= own {
                k as int
            } else {
                k - 1
            },
            packs@.len() == jj,
        decreases secret_shares@.len() - k,
    {
        if k != own {
            proof {
                assert(jj < enc_keys@.len());
            }
            let plaintext = scalar_to_bytes(&secret_shares[k]);
            let pack = match aes_encrypt(enc_keys[jj].as_slice(), plaintext.as_slice()) {
                Some(p) => p,
                None => {
                    return None;
                },
            };
            packs.push(pack);
            jj += 1;
        }
        k += 1;
    }
    Some(
        (
            KeygenRound3 {
                threshold: state.threshold,
                parties: state.parties,
                party_num: state.party_num,
                party_keys: state.party_keys,
                bc1_vec: state.bc1_vec,
                point_vec,
                enc_keys,
                y_sum,
                vss_scheme,
                secret_shares,
            },
            packs,
        ),
    )
}

/// Round 4: open the peers' sealed shares with the pairwise keys (a failed
/// opening yields the empty share, which fails the Feldman check in round
/// 5), splice our own share in, and publish the Feldman commitment vector.
pub fn keygen_round4(state: KeygenRound3, round3_ans: Vec<AEAD>) -> (r: Option<
    (KeygenRound4, String),
>)
    requires
        state.wf(),
        round3_ans@.len() == state.parties as int - 1,
    ensures
        r is Some,
        r matches Some(p) ==> p.0.wf() && p.0.threshold == state.threshold && p.0.parties
            == state.parties && p.0.party_num == state.party_num,
{
    let payload = json_of_vss(&state.vss_scheme);
    let mut party_shares: Vec<CurveScalar> = Vec::new();
    let mut packs = round3_ans;
    let n = packs.len();
    let mut j: usize = 0;
    while j < n
        invariant
            state.enc_keys@.len() == state.parties as int - 1,
            forall|q: int| 0 <= q < state.enc_keys@.len() ==> (
            #[trigger] state.enc_keys@[q])@.len() <= 32,
            n == state.parties as int - 1,
            packs@.len() == n - j,
            party_shares@.len() == j,
            0 <= j <= n,
        decreases n - j,
    {
        let pack = packs.remove(0);
        let out = aes_decrypt(state.enc_keys[j].as_slice(), pack);
        party_shares.push(scalar_of_bytes(out.as_slice()));
        j += 1;
    }
    let own_share = clone_scalar(&state.secret_shares[state.party_num as usize - 1]);
    party_shares.insert(state.party_num as usize - 1, own_share);
    Some(
        (
            KeygenRound4 {
                threshold: state.threshold,
                parties: state.parties,
                party_num: state.party_num,
                party_keys: state.party_keys,
                bc1_vec: state.bc1_vec,
                point_vec: state.point_vec,
                y_sum: state.y_sum,
                vss_scheme: state.vss_scheme,
                party_shares,
            },
            payload,
        ),
    )
}

/// Round 5: collect every party's Feldman commitments, splice our own in,
/// check every received share against them, assemble the long-term share and
/// the joint key, and publish the proof of knowledge of the share.
pub fn keygen_round5(state: KeygenRound4, round4_ans: &Vec<String>) -> (r: Option<
    (KeygenRound5, String),
>)
    requires
        state.wf(),
        round4_ans@.len() == state.parties as int - 1,
    ensures
        (exists|k: int|
            0 <= k < round4_ans@.len() && !crate::gg18::vss_json_ok(
                (#[trigger] round4_ans@[k])@,
            )) ==> r is None,
        r matches Some(p) ==> p.0.wf() && p.0.threshold == state.threshold && p.0.parties
            == state.parties && p.0.party_num == state.party_num
            && p.0.vss_scheme_vec@[state.party_num as int - 1] == state.vss_scheme,
{
    let n = round4_ans.len();
    let mut vss_scheme_vec: Vec<VssScheme> = Vec::new();
    let mut j: usize = 0;
    while j < n
        invariant
            n == round4_ans@.len(),
            0 <= j <= n,
            vss_scheme_vec@.len() == j,
            forall|k: int| 0 <= k < j ==> crate::gg18::vss_json_ok((#[trigger] round4_ans@[k])@),
        decreases n - j,
    {
        match parse_vss(round4_ans[j].as_str()) {
            Some(v) => vss_scheme_vec.push(v),
            None => {
                return None;
            },
        }
        j += 1;
    }
    vss_scheme_vec.insert(state.party_num as usize - 1, state.vss_scheme);
    let (shared_keys, dlog_proof) = match keygen_construct_keypair(
        state.threshold,
        state.parties,
        &state.party_keys,
        &state.point_vec,
        &state.party_shares,
        &vss_scheme_vec,
        state.party_num,
    ) {
        Some(p) => p,
        None => {
            return None;
        },
    };
    let payload = json_of_dlog(&dlog_proof);
    Some(
        (
            KeygenRound5 {
                threshold: state.threshold,
                parties: state.parties,
                party_num: state.party_num,
                party_keys: state.party_keys,
                bc1_vec: state.bc1_vec,
                point_vec: state.point_vec,
                y_sum: state.y_sum,
                vss_scheme_vec,
                shared_keys,
                dlog_proof,
            },
            payload,
        ),
    )
}

/// Final step: collect every party's proof of knowledge, splice our own in,
/// verify them all, and serialize the persistent signer bundle. A failed
/// proof aborts the run and nothing is persisted.
pub fn keygen_finish(state: KeygenRound5, round5_ans: &Vec<String>) -> (r: Option<String>)
    requires
        state.wf(),
        round5_ans@.len() == state.parties as int - 1,
    ensures
        (exists|k: int|
            0 <= k < round5_ans@.len() && !crate::gg18::dlog_json_ok(
                (#[trigger] round5_ans@[k])@,
            )) ==> r is None,
        r matches Some(b) ==> {
            &&& crate::gg18::bundle_json_ok(b@)
            &&& crate::gg18::bundle_shape_of(b@).0 == state.party_num
            &&& crate::gg18::bundle_shape_of(b@).1 == state.parties as int
            &&& crate::gg18::bundle_shape_of(b@).2 == state.parties as int
        },
{
    let n = round5_ans.len();
    let mut dlog_proof_vec: Vec<DlogProof> = Vec::new();
    let mut j: usize = 0;
    while j < n
        invariant
            n == round5_ans@.len(),
            0 <= j <= n,
            dlog_proof_vec@.len() == j,
            forall|k: int| 0 <= k < j ==> crate::gg18::dlog_json_ok((#[trigger] round5_ans@[k])@),
        decreases n - j,
    {
        match parse_dlog(round5_ans[j].as_str()) {
            Some(v) => dlog_proof_vec.push(v),
            None => {
                return None;
            },
        }
        j += 1;
    }
    dlog_proof_vec.insert(state.party_num as usize - 1, state.dlog_proof);
    if !keys_verify_dlog_proofs(
        state.threshold,
        state.parties,
        &dlog_proof_vec,
        &state.point_vec,
    ) {
        return None;
    }
    let mut paillier_keys: Vec<crate::gg18::PaillierKey> = Vec::new();
    let mut i: usize = 0;
    while i < state.bc1_vec.len()
        invariant
            0 <= i <= state.bc1_vec@.len(),
            paillier_keys@.len() == i,
        decreases state.bc1_vec@.len() - i,
    {
        paillier_keys.push(bc1_encryption_key(&state.bc1_vec[i]));
        i += 1;
    }
    Some(
        json_of_key_bundle(
            &state.party_keys,
            &state.shared_keys,
            state.party_num,
            &state.vss_scheme_vec,
            &paillier_keys,
            &state.y_sum,
        ),
    )
}

/// Every other participant's payload, in ascending participant order: what
/// participant `receiver` polls in one broadcast round of an in-process run.
fn answers_excluding(payloads: &Vec<String>, receiver: usize) -> (r: Vec<String>)
    requires
        receiver < payloads@.len(),
    ensures
        r@.len() == payloads@.len() - 1,
        forall|k: int| 0 <= k < receiver ==> r@[k] == payloads@[k],
        forall|k: int| receiver <= k < r@.len() ==> r@[k] == payloads@[k + 1],
{
    let n = payloads.len();
    let mut r: Vec<String> = Vec::new();
    let mut i: usize = 0;
    while i < n
        invariant
            n == payloads@.len(),
            receiver < n,
            0 <= i <= n,
            r@.len() == if i <= receiver {
                i as int
            } else {
                i - 1
            },
            forall|k: int| 0 <= k < receiver && k < r@.len() ==> r@[k] == payloads@[k],
            forall|k: int| receiver <= k < r@.len() ==> r@[k] == payloads@[k + 1],
        decreases n - i,
    {
        if i != receiver {
            r.push(payloads[i].clone());
        }
        i += 1;
    }
    r
}

/// The sealed shares addressed to participant `receiver`: from each other
/// participant's outbound packs (one per peer, ascending), the one whose
/// slot names `receiver`.
fn p2p_inbound(packs: &Vec<Vec<AEAD>>, receiver: usize) -> (r: Vec<AEAD>)
    requires
        receiver < packs@.len(),
        forall|k: int| 0 <= k < packs@.len() ==> (#[trigger] packs@[k])@.len() == packs@.len()
            - 1,
    ensures
        r@.len() == packs@.len() - 1,
{
    let n = packs.len();
    let mut r: Vec<AEAD> = Vec::new();
    let mut sender: usize = 0;
    while sender < n
        invariant
            n == packs@.len(),
            receiver < n,
            forall|k: int| 0 <= k < packs@.len() ==> (#[trigger] packs@[k])@.len() == packs@.len()
                - 1,
            0 <= sender <= n,
            r@.len() == if sender <= receiver {
                sender as int
            } else {
                sender - 1
            },
        decreases n - sender,
    {
        if sender != receiver {
            let slot = if receiver < sender {
                receiver
            } else {
                receiver - 1
            };
            r.push(packs[sender][slot].clone());
        }
        sender += 1;
    }
    r
}

/// Runs the `n` cooperative keygen participants in-process, exchanging round
/// payloads directly: the coordinator's local form of a key-generation run.
/// A failure in an exchange round aborts the whole run — every participant
/// needs every peer's payload — while a participant that fails only the
/// final proof verification is left out, and the result carries the bundles
/// of the participants that completed: each one a parseable signer bundle
/// whose ordinal lies in the run and whose vectors hold one entry per
/// party.
pub fn run_local_keygen(threshold: u16, parties: u16) -> (r: Option<Vec<String>>)
    requires
        1 <= parties,
        threshold < parties,
    ensures
        r matches Some(v) ==> v@.len() <= parties as int,
        r matches Some(v) ==> forall|k: int|
            0 <= k < v@.len() ==> {
                &&& crate::gg18::bundle_json_ok((#[trigger] v@[k])@)
                &&& 1 <= crate::gg18::bundle_shape_of(v@[k]@).0 <= parties
                &&& crate::gg18::bundle_shape_of(v@[k]@).1 == parties as int
                &&& crate::gg18::bundle_shape_of(v@[k]@).2 == parties as int
            },
{
    let n = usize::from(parties);
    let mut states1: Vec<KeygenRound1> = Vec::new();
    let mut payloads1: Vec<String> = Vec::new();
    let mut p: usize = 0;
    while p < n
        invariant
            n == parties as int,
            threshold < parties,
            0 <= p <= n,
            states1@.len() == p,
            payloads1@.len() == p,
            forall|k: int|
                0 <= k < p ==> (#[trigger] states1@[k]).wf() && states1@[k].parties == parties
                    && states1@[k].threshold == threshold,
        decreases n - p,
    {
        match keygen_round1(threshold, parties, (p + 1) as u16) {
            Some((s, payload)) => {
                states1.push(s);
                payloads1.push(payload);
            },
            None => {
                return None;
            },
        }
        p += 1;
    }
    let mut states2: Vec<KeygenRound2> = Vec::new();
    let mut payloads2: Vec<String> = Vec::new();
    let mut p2: usize = 0;
    while p2 < n
        invariant
            n == parties as int,
            threshold < parties,
            0 <= p2 <= n,
            payloads1@.len() == n,
            states1@.len() == n - p2,
            forall|k: int|
                0 <= k < states1@.len() ==> (#[trigger] states1@[k]).wf() && states1@[k].parties
                    == parties && states1@[k].threshold == threshold,
            states2@.len() == p2,
            payloads2@.len() == p2,
            forall|k: int|
                0 <= k < p2 ==> (#[trigger] states2@[k]).wf() && states2@[k].parties == parties
                    && states2@[k].threshold == threshold,
        decreases n - p2,
    {
        let st = states1.remove(0);
        let ans = answers_excluding(&payloads1, p2);
        match keygen_round2(st, &ans) {
            Some((s2, payload)) => {
                states2.push(s2);
                payloads2.push(payload);
            },
            None => {
                return None;
            },
        }
        p2 += 1;
    }
    let mut states3: Vec<KeygenRound3> = Vec::new();
    let mut packs3: Vec<Vec<AEAD>> = Vec::new();
    let mut p3: usize = 0;
    while p3 < n
        invariant
            n == parties as int,
            threshold < parties,
            0 <= p3 <= n,
            payloads2@.len() == n,
            states2@.len() == n - p3,
            forall|k: int|
                0 <= k < states2@.len() ==> (#[trigger] states2@[k]).wf() && states2@[k].parties
                    == parties && states2@[k].threshold == threshold,
            states3@.len() == p3,
            packs3@.len() == p3,
            forall|k: int|
                0 <= k < p3 ==> (#[trigger] states3@[k]).wf() && states3@[k].parties == parties
                    && states3@[k].threshold == threshold,
            forall|k: int| 0 <= k < p3 ==> (#[trigger] packs3@[k])@.len() == n - 1,
        decreases n - p3,
    {
        let st = states2.remove(0);
        let ans = answers_excluding(&payloads2, p3);
        match keygen_round3(st, &ans) {
            Some((s3, packs)) => {
                states3.push(s3);
                packs3.push(packs);
            },
            None => {
                return None;
            },
        }
        p3 += 1;
    }
    let mut states4: Vec<KeygenRound4> = Vec::new();
    let mut payloads4: Vec<String> = Vec::new();
    let mut p4: usize = 0;
    while p4 < n
        invariant
            n == parties as int,
            threshold < parties,
            0 <= p4 <= n,
            packs3@.len() == n,
            forall|k: int| 0 <= k < packs3@.len() ==> (#[trigger] packs3@[k])@.len() == n - 1,
            states3@.len() == n - p4,
            forall|k: int|
                0 <= k < states3@.len() ==> (#[trigger] states3@[k]).wf() && states3@[k].parties
                    == parties && states3@[k].threshold == threshold,
            states4@.len() == p4,
            payloads4@.len() == p4,
            forall|k: int|
                0 <= k < p4 ==> (#[trigger] states4@[k]).wf() && states4@[k].parties == parties
                    && states4@[k].threshold == threshold,
        decreases n - p4,
    {
        let st = states3.remove(0);
        let inbound = p2p_inbound(&packs3, p4);
        match keygen_round4(st, inbound) {
            Some((s4, payload)) => {
                states4.push(s4);
                payloads4.push(payload);
            },
            None => {
                return None;
            },
        }
        p4 += 1;
    }
    let mut states5: Vec<KeygenRound5> = Vec::new();
    let mut payloads5: Vec<String> = Vec::new();
    let mut p5: usize = 0;
    while p5 < n
        invariant
            n == parties as int,
            threshold < parties,
            0 <= p5 <= n,
            payloads4@.len() == n,
            states4@.len() == n - p5,
            forall|k: int|
                0 <= k < states4@.len() ==> (#[trigger] states4@[k]).wf() && states4@[k].parties
                    == parties && states4@[k].threshold == threshold,
            states5@.len() == p5,
            payloads5@.len() == p5,
            forall|k: int|
                0 <= k < p5 ==> (#[trigger] states5@[k]).wf() && states5@[k].parties == parties
                    && states5@[k].threshold == threshold,
        decreases n - p5,
    {
        let st = states4.remove(0);
        let ans = answers_excluding(&payloads4, p5);
        match keygen_round5(st, &ans) {
            Some((s5, payload)) => {
                states5.push(s5);
                payloads5.push(payload);
            },
            None => {
                return None;
            },
        }
        p5 += 1;
    }
    let mut bundles: Vec<String> = Vec::new();
    let mut p6: usize = 0;
    while p6 < n
        invariant
            n == parties as int,
            0 <= p6 <= n,
            payloads5@.len() == n,
            states5@.len() == n - p6,
            forall|k: int|
                0 <= k < states5@.len() ==> (#[trigger] states5@[k]).wf() && states5@[k].parties
                    == parties,
            bundles@.len() <= p6,
            forall|k: int|
                0 <= k < bundles@.len() ==> {
                    &&& crate::gg18::bundle_json_ok((#[trigger] bundles@[k])@)
                    &&& 1 <= crate::gg18::bundle_shape_of(bundles@[k]@).0 <= parties
                    &&& crate::gg18::bundle_shape_of(bundles@[k]@).1 == parties as int
                    &&& crate::gg18::bundle_shape_of(bundles@[k]@).2 == parties as int
                },
        decreases n - p6,
    {
        let st = states5.remove(0);
        let ans = answers_excluding(&payloads5, p6);
        match keygen_finish(st, &ans) {
            Some(bundle) => bundles.push(bundle),
            None => {},
        }
        p6 += 1;
    }
    Some(bundles)
}

} // verus!
