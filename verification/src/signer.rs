//! The nine-round GG18 signing engine, driven round by round exactly like
//! the key-generation engine: each step consumes the previous state and the
//! peers' polled answers (ascending peer order), runs this party's
//! cryptography behind the trusted boundary, and returns the next state with
//! the payload to publish. `None` anywhere aborts the session; a signature
//! is only ever returned after the final ECDSA verification succeeded.
//!
//! Round 0 collects the signers' original indices; everywhere a party's own
//! value stands beside its peers', it is spliced in at `party_num - 1`.

use vstd::prelude::*;

use multi_party_ecdsa::protocols::multi_party_ecdsa::gg_2018::party_i::{
    Phase5ADecom1, Phase5Com1, Phase5Com2, Phase5DDecom2, SignBroadcastPhase1,
    SignDecommitPhase1,
};
use multi_party_ecdsa::utilities::mta::{MessageA, MessageB};

use crate::codec::{
    bytes_to_hex_int, dec_str, dec_val, hex_of, is_dec_str, lemma_hex_of_len,
    lemma_strip_zeros_len, message_mod_2_256, mod_2_256_spec, strip_zeros, u16_to_string,
};
use crate::gg18::{
    get_commitments_to_xi, json_of_mb_pair, json_of_phase5_com1,
    json_of_phase5_com2, json_of_phase5a_decom, json_of_phase5d_decom, json_of_scalar,
    json_of_sign_decommit, json_of_sign_round1, message_a, message_b_gamma, message_b_w,
    mb_proof_pk_matches, output_signature, parse_mb_pair, parse_phase5_com1, parse_phase5_com2,
    parse_phase5a_decom, parse_phase5d_decom, parse_scalar, parse_sign_decommit,
    parse_sign_round1, phase2_delta_i, phase2_sigma_i, phase3_reconstruct_delta,
    phase5_local_sig, phase5a_broadcast_5b_zkproof, phase5a_decom_v, point_add_pts,
    point_mul_scalar, point_of_bytes, point_to_bytes, private_update, scalar_of_bytes,
    scalar_zero, set_private, sign_keys_create, sign_phase1_broadcast, sign_phase4,
    sign_phase5c, sign_phase5d, signature_parts, decom_g_gamma, verify_proofs_get_alpha,
    ecdsa_verify_bytes, ecdsa_verifies, point_coords_bytes, bundle_json_ok, bundle_shape_of,
    mb_pair_json_ok, scalar_json_ok, sign_decommit_json_ok, phase5_com1_json_ok,
    phase5a_triple_json_ok, phase5_com2_json_ok, CurvePoint, CurveScalar, HegProof,
    LocalSignatureState, PaillierKey, PartyKeys, SignKeysState, SignerBundleParts, VssScheme,
    DlogProof,
};
use crate::hd_keys::get_hd_key;
use crate::types::{SignatureData, SignerResult};

verus! {

/// The signer's view of an unfinished room signup: the slot it holds and the
/// member count it last saw. The signer re-pings with `party_uuid` until the
/// coordinator hands out the room uuid.
#[derive(Clone, Debug, PartialEq)]
pub struct SignupPoll {
    pub number: u16,
    pub party_uuid: String,
    pub last_total_joined: u16,
}

/// What one signup answer means for the polling signer.
#[derive(Debug, PartialEq)]
pub enum SignupStep {
    /// The room is full: the session may start under this assignment, with
    /// the number of joined parties.
    Done(crate::types::PartySignup, u16),
    /// The room is still filling: keep polling with the updated slot; true
    /// means the member count moved, which restarts the signup deadline.
    Continue(SignupPoll, bool),
    /// The coordinator refused the signup.
    Failed(String),
}

/// One step of the signup poll: a coordinator error fails the signup; an
/// answer carrying the room uuid finishes it; any other answer updates the
/// slot (the coordinator may have reassigned uuid or ordinal) and reports
/// whether the member count moved since the last answer.
pub fn signup_step(state: SignupPoll, answer: Result<
    crate::types::SigningPartySignup,
    crate::types::ManagerError,
>) -> (r: SignupStep)
    ensures
        (answer matches Err(e) ==> r == SignupStep::Failed(e.error)),
        (answer matches Ok(s) ==> {
            &&& s.room_uuid@.len() > 0 ==> r == SignupStep::Done(
                crate::types::PartySignup { number: s.party_order, uuid: s.room_uuid },
                s.total_joined,
            )
            &&& s.room_uuid@.len() == 0 ==> r == SignupStep::Continue(
                SignupPoll {
                    number: s.party_order,
                    party_uuid: s.party_uuid,
                    last_total_joined: s.total_joined,
                },
                s.total_joined != state.last_total_joined,
            )
        }),
{
    match answer {
        Err(e) => SignupStep::Failed(e.error),
        Ok(s) => {
            if s.room_uuid.as_str().is_empty() {
                let moved = s.total_joined != state.last_total_joined;
                SignupStep::Continue(
                    SignupPoll {
                        number: s.party_order,
                        party_uuid: s.party_uuid,
                        last_total_joined: s.total_joined,
                    },
                    moved,
                )
            } else {
                SignupStep::Done(
                    crate::types::PartySignup { number: s.party_order, uuid: s.room_uuid },
                    s.total_joined,
                )
            }
        },
    }
}

/// Round 0 payload: the party announces its original index, rendered as the
/// decimal number its peers parse back.
pub fn sign_round0_payload(party_id: u16) -> (r: String)
    ensures
        r@ == dec_str(party_id as int),
{
    u16_to_string(party_id)
}

/// Assembles `signers_vec` from the round-0 answers: each peer's announced
/// original index less one, in room order, with this party's own index less
/// one spliced in at `party_num - 1`. An announcement that is not a positive
/// decimal number aborts the session; well-formed announcements always
/// assemble.
pub fn assemble_signers_vec(round0_ans: &Vec<String>, party_num: u16, party_id: u16) -> (r:
    Option<Vec<u16>>)
    requires
        1 <= party_num <= round0_ans@.len() + 1,
        party_id >= 1,
    ensures
        (forall|k: int|
            0 <= k < round0_ans@.len() ==> is_dec_str((#[trigger] round0_ans@[k])@) && 1 <= dec_val(
                round0_ans@[k]@,
            ) <= u16::MAX) ==> r is Some,
        r matches Some(v) ==> {
            &&& v@.len() == round0_ans@.len() + 1
            &&& v@[party_num as int - 1] == party_id - 1
            &&& forall|k: int|
                0 <= k < party_num - 1 ==> is_dec_str((#[trigger] round0_ans@[k])@) && v@[k]
                    == dec_val(round0_ans@[k]@) - 1
            &&& forall|k: int|
                party_num <= k < v@.len() ==> is_dec_str((#[trigger] round0_ans@[k - 1])@)
                    && v@[k] == dec_val(round0_ans@[k - 1]@) - 1
        },
{
    let n = round0_ans.len();
    let mut v: Vec<u16> = Vec::new();
    let mut j: usize = 0;
    while j < n
        invariant
            n == round0_ans@.len(),
            0 <= j <= n,
            v@.len() == j,
            forall|k: int|
                0 <= k < j ==> is_dec_str((#[trigger] round0_ans@[k])@) && v@[k] == dec_val(
                    round0_ans@[k]@,
                ) - 1,
        decreases n - j,
    {
        let id = match crate::codec::parse_u16(round0_ans[j].as_str()) {
            Some(id) => id,
            None => {
                return None;
            },
        };
        if id == 0 {
            return None;
        }
        v.push(id - 1);
        j += 1;
    }
    v.insert(party_num as usize - 1, party_id - 1);
    Some(v)
}

/// Two parties that assemble their signers vector from one consistent set of
/// announcements agree on it: position `k` holds the index announced by the
/// party with room ordinal `k + 1`, whoever assembles — the roles in a room
/// are a deterministic function of the announcements.
pub proof fn lemma_signers_vec_deterministic(
    ids: Seq<u16>,
    v1: Seq<u16>,
    p1: int,
    v2: Seq<u16>,
    p2: int,
)
    requires
        v1.len() == ids.len(),
        v2.len() == ids.len(),
        0 <= p1 < ids.len(),
        0 <= p2 < ids.len(),
        forall|k: int| 0 <= k < ids.len() ==> #[trigger] v1[k] == ids[k],
        forall|k: int| 0 <= k < ids.len() ==> #[trigger] v2[k] == ids[k],
    ensures
        v1 == v2,
{
    assert(v1 =~= v2);
}

/// When the parties enrolled in ascending order of their original indices,
/// the assembled signers vector is strictly ascending: it is the ascending
/// sort of the participating indices. (When parties enrol out of index
/// order, room order and index order differ and the vector is their room
/// order instead.)
pub proof fn lemma_signers_vec_ascending(v: Seq<u16>)
    requires
        forall|k: int| 0 <= k < v.len() - 1 ==> #[trigger] v[k] < v[k + 1],
    ensures
        forall|i: int, j: int| 0 <= i < j < v.len() ==> v[i] < v[j],
{
    assert forall|i: int, j: int| 0 <= i < j < v.len() implies v[i] < v[j] by {
        lemma_ascending_chain(v, i, j);
    }
}

proof fn lemma_ascending_chain(v: Seq<u16>, i: int, j: int)
    requires
        forall|k: int| 0 <= k < v.len() - 1 ==> #[trigger] v[k] < v[k + 1],
        0 <= i < j < v.len(),
    ensures
        v[i] < v[j],
    decreases j - i,
{
    if j == i + 1 {
        assert(v[i] < v[i + 1]);
    } else {
        lemma_ascending_chain(v, i, j - 1);
        assert(v[j - 1] < v[j]);
    }
}

/// The HD tweak for a signing session: an empty path leaves the key alone
/// and applies no tweak; a non-empty path derives the child key and the
/// additive tweak from the root key's compressed bytes.
pub fn hd_tweak_for_path(path: &Vec<u64>, y_sum: CurvePoint) -> (r: Option<
    (Option<CurveScalar>, CurvePoint),
>)
    ensures
        path@.len() == 0 ==> (r matches Some(p) && p.0 is None && p.1 == y_sum),
        path@.len() > 0 ==> (r matches Some(p) ==> p.0 is Some),
{
    if path.len() == 0 {
        return Some((None, y_sum));
    }
    let y_bytes = point_to_bytes(&y_sum);
    let (child_bytes, tweak_bytes) = match get_hd_key(&y_bytes, path) {
        Some(t) => t,
        None => {
            return None;
        },
    };
    let child = match point_of_bytes(child_bytes.as_slice()) {
        Some(p) => p,
        None => {
            return None;
        },
    };
    let tweak = scalar_of_bytes(tweak_bytes.as_slice());
    Some((Some(tweak), child))
}

/// Reads the persisted signer bundle back from its file contents. A bundle
/// is accepted exactly when it parses and its per-party vectors agree: one
/// Feldman scheme and one Paillier key per party, the party's own ordinal
/// within range.
pub fn load_signer_bundle(contents: &str) -> (r: Option<SignerBundleParts>)
    ensures
        r is Some <==> (bundle_json_ok(contents@) && bundle_shape_of(contents@).1
            == bundle_shape_of(contents@).2 && bundle_shape_of(contents@).1 >= 1 && 1
            <= bundle_shape_of(contents@).0 <= bundle_shape_of(contents@).1),
        r matches Some(b) ==> {
            &&& b.vss_scheme_vec@.len() == b.paillier_key_vector@.len()
            &&& b.vss_scheme_vec@.len() >= 1
            &&& 1 <= b.party_id <= b.vss_scheme_vec@.len()
        },
{
    let bundle = match crate::gg18::parse_key_bundle(contents) {
        Some(b) => b,
        None => {
            return None;
        },
    };
    if bundle.vss_scheme_vec.len() == 0 {
        return None;
    }
    if bundle.vss_scheme_vec.len() != bundle.paillier_key_vector.len() {
        return None;
    }
    if bundle.party_id == 0 || usize::from(bundle.party_id) > bundle.vss_scheme_vec.len() {
        return None;
    }
    Some(bundle)
}

/// After round 1: the signing subset is fixed, the HD tweak (if any) is
/// applied to the share and the leader's first commitment, the ephemeral
/// signing keys are sampled, and the commitment with the Paillier-encrypted
/// `k_i` is published.
pub struct SignRound1 {
    pub parties: u16,
    pub party_num: u16,
    pub signers_vec: Vec<u16>,
    pub party_keys: PartyKeys,
    pub paillier_key_vector: Vec<PaillierKey>,
    pub vss_scheme_vec: Vec<VssScheme>,
    pub y_used: CurvePoint,
    pub sign_keys: SignKeysState,
    pub bc_com: SignBroadcastPhase1,
    pub decommit: SignDecommitPhase1,
    pub m_a_k: MessageA,
}

impl SignRound1 {
    pub open spec fn wf(self) -> bool {
        &&& 1 <= self.party_num <= self.parties
        &&& self.signers_vec@.len() == self.parties as int
        &&& forall|k: int|
            0 <= k < self.signers_vec@.len() ==> ((#[trigger] self.signers_vec@[k])
                < self.vss_scheme_vec@.len() && (self.signers_vec@[k])
                < self.paillier_key_vector@.len())
        &&& forall|i: int, j: int|
            0 <= i < j < self.signers_vec@.len() ==> self.signers_vec@[i] != self.signers_vec@[j]
        &&& forall|k: int|
            0 <= k < self.signers_vec@.len() ==> (#[trigger] self.signers_vec@[k]) < u16::MAX
    }
}

/// Round 1: apply the HD tweak where a path is set — the leader (room
/// ordinal 1) tweaks both its secret `u_i` and share `x_i`, the others only
/// `x_i`, and everyone moves the leader's first Feldman commitment by
/// `f_l * G` — then sample the ephemeral signing keys and publish the
/// commitment to `gamma_i * G` together with the Paillier encryption of
/// `k_i`. Aborts when a signer index does not name a known party, when two
/// announcements name the same party (the Lagrange basis demands distinct
/// ordinals), or when an index would overflow the share numbering.
pub fn sign_round1(
    bundle: SignerBundleParts,
    party_num: u16,
    signers_vec: Vec<u16>,
    tweak: Option<CurveScalar>,
    y_used: CurvePoint,
) -> (r: Option<(SignRound1, String)>)
    requires
        1 <= party_num <= signers_vec@.len(),
        signers_vec@.len() <= u16::MAX,
    ensures
        (exists|k: int|
            0 <= k < signers_vec@.len() && (((#[trigger] signers_vec@[k])
                >= bundle.vss_scheme_vec@.len()) || ((signers_vec@[k])
                >= bundle.paillier_key_vector@.len()) || (signers_vec@[k]) == u16::MAX)) ==> r
            is None,
        (exists|i: int, j: int|
            0 <= i < j < signers_vec@.len() && signers_vec@[i] == signers_vec@[j]) ==> r is None,
        r matches Some(p) ==> p.0.wf() && p.0.party_num == party_num && p.0.parties
            == signers_vec@.len() && p.0.signers_vec == signers_vec,
{
    let n = signers_vec.len();
    let mut vss_scheme_vec = bundle.vss_scheme_vec;
    let paillier_key_vector = bundle.paillier_key_vector;
    let mut i: usize = 0;
    while i < n
        invariant
            n == signers_vec@.len(),
            0 <= i <= n,
            forall|k: int|
                0 <= k < i ==> ((#[trigger] signers_vec@[k]) < vss_scheme_vec@.len() && (
                signers_vec@[k]) < paillier_key_vector@.len() && (signers_vec@[k]) < u16::MAX),
        decreases n - i,
    {
        if usize::from(signers_vec[i]) >= vss_scheme_vec.len() || usize::from(signers_vec[i])
            >= paillier_key_vector.len() || signers_vec[i] == u16::MAX {
            return None;
        }
        i += 1;
    }
    let mut a: usize = 0;
    while a < n
        invariant
            n == signers_vec@.len(),
            0 <= a <= n,
            forall|i: int, j: int|
                0 <= i < j < n && i < a ==> signers_vec@[i] != signers_vec@[j],
        decreases n - a,
    {
        let mut b: usize = a + 1;
        while b < n
            invariant
                n == signers_vec@.len(),
                0 <= a < b,
                a + 1 <= b <= n,
                forall|j: int| a < j < b ==> signers_vec@[a as int] != signers_vec@[j],
            decreases n - b,
        {
            if signers_vec[a] == signers_vec[b] {
                return None;
            }
            b += 1;
        }
        a += 1;
    }
    if vss_scheme_vec.len() == 0 {
        return None;
    }
    let mut private = set_private(&bundle.party_keys, &bundle.shared_keys);
    match tweak {
        Some(f_l) => {
            let tweaked = match crate::gg18::vss_with_tweaked_first_commitment(
                &vss_scheme_vec[0],
                &f_l,
            ) {
                Some(t) => t,
                None => {
                    return None;
                },
            };
            vss_scheme_vec.set(0, tweaked);
            if party_num == 1 {
                private = private_update(private, &f_l, &f_l);
            } else {
                let zero = scalar_zero();
                private = private_update(private, &zero, &f_l);
            }
        },
        None => {},
    }
    let own_index = signers_vec[party_num as usize - 1];
    proof {
        assert(signers_vec@[party_num as int - 1] == own_index);
    }
    let sign_keys = sign_keys_create(
        &private,
        &vss_scheme_vec[usize::from(own_index)],
        own_index,
        &signers_vec,
    );
    let (bc_com, decommit) = sign_phase1_broadcast(&sign_keys);
    let m_a_k = match message_a(&sign_keys, &bundle.party_keys) {
        Some(m) => m,
        None => {
            return None;
        },
    };
    let payload = json_of_sign_round1(&bc_com, &m_a_k);
    Some(
        (
            SignRound1 {
                parties: n as u16,
                party_num,
                signers_vec,
                party_keys: bundle.party_keys,
                paillier_key_vector,
                vss_scheme_vec,
                y_used,
                sign_keys,
                bc_com,
                decommit,
                m_a_k,
            },
            payload,
        ),
    )
}

/// After round 2: every party's round-1 commitment, the peers' encrypted
/// `k_j`, and this party's MtA answers with its additive shares.
pub struct SignRound2 {
    pub parties: u16,
    pub party_num: u16,
    pub signers_vec: Vec<u16>,
    pub party_keys: PartyKeys,
    pub paillier_key_vector: Vec<PaillierKey>,
    pub vss_scheme_vec: Vec<VssScheme>,
    pub y_used: CurvePoint,
    pub sign_keys: SignKeysState,
    pub decommit: SignDecommitPhase1,
    pub bc1_vec: Vec<SignBroadcastPhase1>,
    pub beta_vec: Vec<CurveScalar>,
    pub ni_vec: Vec<CurveScalar>,
}

impl SignRound2 {
    pub open spec fn wf(self) -> bool {
        &&& 1 <= self.party_num <= self.parties
        &&& self.signers_vec@.len() == self.parties as int
        &&& forall|k: int|
            0 <= k < self.signers_vec@.len() ==> ((#[trigger] self.signers_vec@[k])
                < self.vss_scheme_vec@.len() && (self.signers_vec@[k])
                < self.paillier_key_vector@.len())
        &&& forall|i: int, j: int|
            0 <= i < j < self.signers_vec@.len() ==> self.signers_vec@[i] != self.signers_vec@[j]
        &&& forall|k: int|
            0 <= k < self.signers_vec@.len() ==> (#[trigger] self.signers_vec@[k]) < u16::MAX
        &&& self.bc1_vec@.len() == self.parties as int
        &&& self.beta_vec@.len() == self.parties as int - 1
        &&& self.ni_vec@.len() == self.parties as int - 1
    }
}

/// Round 2, MtA: collect the peers' commitments and encrypted `k_j` (own
/// commitment spliced in at `party_num - 1`), and answer every peer with the
/// pair of MtA messages for `gamma_i` and `w_i` under the peer's Paillier
/// key. The returned payloads go point-to-point to the peers in ascending
/// peer order.
pub fn sign_round2(state: SignRound1, round1_ans: &Vec<String>) -> (r: Option<
    (SignRound2, Vec<String>),
>)
    requires
        state.wf(),
        round1_ans@.len() == state.parties as int - 1,
    ensures
        r matches Some(p) ==> p.0.wf() && p.0.parties == state.parties && p.0.party_num
            == state.party_num && p.0.bc1_vec@[state.party_num as int - 1] == state.bc_com
            && p.1@.len() == state.parties as int - 1,
{
    let n = round1_ans.len();
    let mut bc1_vec: Vec<SignBroadcastPhase1> = Vec::new();
    let mut m_a_vec: Vec<MessageA> = Vec::new();
    let mut j: usize = 0;
    while j < n
        invariant
            n == round1_ans@.len(),
            0 <= j <= n,
            bc1_vec@.len() == j,
            m_a_vec@.len() == j,
        decreases n - j,
    {
        match parse_sign_round1(round1_ans[j].as_str()) {
            Some((bc, m_a)) => {
                bc1_vec.push(bc);
                m_a_vec.push(m_a);
            },
            None => {
                return None;
            },
        }
        j += 1;
    }
    // MtA answers, one pair per peer; the peer at answer position j has room
    // ordinal j + 1 below our own, j + 2 at or above it.
    let mut payloads: Vec<String> = Vec::new();
    let mut beta_vec: Vec<CurveScalar> = Vec::new();
    let mut ni_vec: Vec<CurveScalar> = Vec::new();
    let mut i: usize = 1;
    let mut jj: usize = 0;
    let own = state.party_num as usize;
    while i <= n + 1
        invariant
            state.wf(),
            n == state.parties as int - 1,
            m_a_vec@.len() == n,
            1 <= i <= n + 2,
            own == state.party_num as int,
            1 <= own <= n + 1,
            jj == if i <= own {
                i - 1
            } else {
                i - 2
            },
            payloads@.len() == jj,
            beta_vec@.len() == jj,
            ni_vec@.len() == jj,
        decreases n + 2 - i,
    {
        if i != own {
            let peer_orig = state.signers_vec[i - 1];
            let ek = &state.paillier_key_vector[usize::from(peer_orig)];
            let (m_b_gamma, beta_gamma) = match message_b_gamma(
                &state.sign_keys,
                ek,
                &m_a_vec[jj],
            ) {
                Some(p) => p,
                None => {
                    return None;
                },
            };
            let (m_b_w, beta_wi) = match message_b_w(&state.sign_keys, ek, &m_a_vec[jj]) {
                Some(p) => p,
                None => {
                    return None;
                },
            };
            let payload = json_of_mb_pair(&m_b_gamma, &m_b_w);
            payloads.push(payload);
            beta_vec.push(beta_gamma);
            ni_vec.push(beta_wi);
            jj += 1;
        }
        i += 1;
    }
    bc1_vec.insert(state.party_num as usize - 1, state.bc_com);
    Some(
        (
            SignRound2 {
                parties: state.parties,
                party_num: state.party_num,
                signers_vec: state.signers_vec,
                party_keys: state.party_keys,
                paillier_key_vector: state.paillier_key_vector,
                vss_scheme_vec: state.vss_scheme_vec,
                y_used: state.y_used,
                sign_keys: state.sign_keys,
                decommit: state.decommit,
                bc1_vec,
                beta_vec,
                ni_vec,
            },
            payloads,
        ),
    )
}

/// After round 3: the MtA shares are recovered and checked, and the local
/// `delta_i` and `sigma_i` are formed; `delta_i` is published.
pub struct SignRound3 {
    pub parties: u16,
    pub party_num: u16,
    pub y_used: CurvePoint,
    pub sign_keys: SignKeysState,
    pub party_keys: PartyKeys,
    pub decommit: SignDecommitPhase1,
    pub bc1_vec: Vec<SignBroadcastPhase1>,
    pub m_b_gamma_rec: Vec<MessageB>,
    pub delta_i: CurveScalar,
    pub sigma: CurveScalar,
}

impl SignRound3 {
    pub open spec fn wf(self) -> bool {
        &&& 1 <= self.party_num <= self.parties
        &&& self.bc1_vec@.len() == self.parties as int
        &&& self.m_b_gamma_rec@.len() == self.parties as int - 1
    }
}

/// Round 3: open the peers' MtA answers — verify each embedded proof of
/// knowledge, recover the additive shares `alpha` and `mu` under our
/// Paillier key, and check each `w`-answer's point against the expected
/// `g ^ w_j` derived from the Feldman commitments (which ties the MtA run to
/// the authentic shares) — then publish `delta_i`.
pub fn sign_round3(state: SignRound2, round2_ans: &Vec<String>) -> (r: Option<
    (SignRound3, String),
>)
    requires
        state.wf(),
        round2_ans@.len() == state.parties as int - 1,
    ensures
        (exists|k: int|
            0 <= k < round2_ans@.len() && !mb_pair_json_ok((#[trigger] round2_ans@[k])@)) ==> r
            is None,
        r matches Some(p) ==> p.0.wf() && p.0.parties == state.parties && p.0.party_num
            == state.party_num,
{
    let n = round2_ans.len();
    let mut m_b_gamma_rec: Vec<MessageB> = Vec::new();
    let mut m_b_w_rec: Vec<MessageB> = Vec::new();
    let mut j: usize = 0;
    while j < n
        invariant
            n == round2_ans@.len(),
            0 <= j <= n,
            m_b_gamma_rec@.len() == j,
            m_b_w_rec@.len() == j,
            forall|k: int| 0 <= k < j ==> mb_pair_json_ok((#[trigger] round2_ans@[k])@),
        decreases n - j,
    {
        match parse_mb_pair(round2_ans[j].as_str()) {
            Some((g, w)) => {
                m_b_gamma_rec.push(g);
                m_b_w_rec.push(w);
            },
            None => {
                return None;
            },
        }
        j += 1;
    }
    let xi_com_vec = match get_commitments_to_xi(&state.vss_scheme_vec) {
        Some(v) => v,
        None => {
            return None;
        },
    };
    let mut alpha_vec: Vec<CurveScalar> = Vec::new();
    let mut miu_vec: Vec<CurveScalar> = Vec::new();
    let mut i: usize = 1;
    let mut jj: usize = 0;
    let own = state.party_num as usize;
    while i <= n + 1
        invariant
            state.wf(),
            n == state.parties as int - 1,
            m_b_gamma_rec@.len() == n,
            m_b_w_rec@.len() == n,
            xi_com_vec@.len() == state.vss_scheme_vec@.len(),
            1 <= i <= n + 2,
            own == state.party_num as int,
            1 <= own <= n + 1,
            jj == if i <= own {
                i - 1
            } else {
                i - 2
            },
            alpha_vec@.len() == jj,
            miu_vec@.len() == jj,
        decreases n + 2 - i,
    {
        if i != own {
            let alpha = match verify_proofs_get_alpha(
                &m_b_gamma_rec[jj],
                &state.party_keys,
                &state.sign_keys,
            ) {
                Some(a) => a,
                None => {
                    return None;
                },
            };
            let miu = match verify_proofs_get_alpha(
                &m_b_w_rec[jj],
                &state.party_keys,
                &state.sign_keys,
            ) {
                Some(a) => a,
                None => {
                    return None;
                },
            };
            let peer_orig = state.signers_vec[i - 1];
            proof {
                assert(state.signers_vec@[i - 1] == peer_orig);
            }
            let g_w_i = crate::gg18::update_commitments_to_xi(
                &xi_com_vec[usize::from(peer_orig)],
                &state.vss_scheme_vec[usize::from(peer_orig)],
                peer_orig,
                &state.signers_vec,
            );
            if !mb_proof_pk_matches(&m_b_w_rec[jj], &g_w_i) {
                return None;
            }
            alpha_vec.push(alpha);
            miu_vec.push(miu);
            jj += 1;
        }
        i += 1;
    }
    let delta_i = phase2_delta_i(&state.sign_keys, &alpha_vec, &state.beta_vec);
    let sigma = phase2_sigma_i(&state.sign_keys, &miu_vec, &state.ni_vec);
    let payload = json_of_scalar(&delta_i);
    Some(
        (
            SignRound3 {
                parties: state.parties,
                party_num: state.party_num,
                y_used: state.y_used,
                sign_keys: state.sign_keys,
                party_keys: state.party_keys,
                decommit: state.decommit,
                bc1_vec: state.bc1_vec,
                m_b_gamma_rec,
                delta_i,
                sigma,
            },
            payload,
        ),
    )
}

/// After round 4: `delta = sum(delta_j)` is reconstructed and inverted, and
/// the round-1 decommitment is published.
pub struct SignRound4 {
    pub parties: u16,
    pub party_num: u16,
    pub y_used: CurvePoint,
    pub sign_keys: SignKeysState,
    pub party_keys: PartyKeys,
    pub decommit: SignDecommitPhase1,
    pub bc1_vec: Vec<SignBroadcastPhase1>,
    pub m_b_gamma_rec: Vec<MessageB>,
    pub sigma: CurveScalar,
    pub delta_inv: CurveScalar,
}

impl SignRound4 {
    pub open spec fn wf(self) -> bool {
        &&& 1 <= self.party_num <= self.parties
        &&& self.bc1_vec@.len() == self.parties as int
        &&& self.m_b_gamma_rec@.len() == self.parties as int - 1
    }
}

/// Round 4: reconstruct `delta` from every party's share (own share spliced
/// in), invert it — a zero sum aborts — and publish the decommitment to
/// `gamma_i * G`.
pub fn sign_round4(state: SignRound3, round3_ans: &Vec<String>) -> (r: Option<
    (SignRound4, String),
>)
    requires
        state.wf(),
        round3_ans@.len() == state.parties as int - 1,
    ensures
        (exists|k: int|
            0 <= k < round3_ans@.len() && !scalar_json_ok((#[trigger] round3_ans@[k])@)) ==> r
            is None,
        r matches Some(p) ==> p.0.wf() && p.0.parties == state.parties && p.0.party_num
            == state.party_num,
{
    let n = round3_ans.len();
    let mut delta_vec: Vec<CurveScalar> = Vec::new();
    let mut j: usize = 0;
    while j < n
        invariant
            n == round3_ans@.len(),
            0 <= j <= n,
            delta_vec@.len() == j,
            forall|k: int| 0 <= k < j ==> scalar_json_ok((#[trigger] round3_ans@[k])@),
        decreases n - j,
    {
        match parse_scalar(round3_ans[j].as_str()) {
            Some(s) => delta_vec.push(s),
            None => {
                return None;
            },
        }
        j += 1;
    }
    delta_vec.insert(state.party_num as usize - 1, state.delta_i);
    let delta_inv = match phase3_reconstruct_delta(&delta_vec) {
        Some(d) => d,
        None => {
            return None;
        },
    };
    let payload = json_of_sign_decommit(&state.decommit);
    Some(
        (
            SignRound4 {
                parties: state.parties,
                party_num: state.party_num,
                y_used: state.y_used,
                sign_keys: state.sign_keys,
                party_keys: state.party_keys,
                decommit: state.decommit,
                bc1_vec: state.bc1_vec,
                m_b_gamma_rec: state.m_b_gamma_rec,
                sigma: state.sigma,
                delta_inv,
            },
            payload,
        ),
    )
}

/// After round 5: the peers' decommitments opened, `R` formed, the local
/// signature state built, and the phase-5A commitment published.
pub struct SignRound5 {
    pub parties: u16,
    pub party_num: u16,
    pub y_used: CurvePoint,
    pub local_sig: LocalSignatureState,
    pub big_r: CurvePoint,
    pub phase5_com: Phase5Com1,
    pub phase_5a_decom: Phase5ADecom1,
    pub helgamal_proof: HegProof,
    pub dlog_proof_rho: DlogProof,
}

impl SignRound5 {
    pub open spec fn wf(self) -> bool {
        1 <= self.party_num <= self.parties
    }
}

/// Round 5: open every peer's round-1 commitment (a failed opening aborts),
/// form `R = delta_inv * sum(gamma_j * G)` with our own `gamma_i * G` added
/// in, reduce the message modulo `2^256`, build the local signature state,
/// and publish the phase-5A commitment.
pub fn sign_round5(state: SignRound4, round4_ans: &Vec<String>, message: &[u8]) -> (r: Option<
    (SignRound5, String),
>)
    requires
        state.wf(),
        round4_ans@.len() == state.parties as int - 1,
    ensures
        (exists|k: int|
            0 <= k < round4_ans@.len() && !sign_decommit_json_ok(
                (#[trigger] round4_ans@[k])@,
            )) ==> r is None,
        r matches Some(p) ==> p.0.wf() && p.0.parties == state.parties && p.0.party_num
            == state.party_num,
{
    let n = round4_ans.len();
    let mut decommit_vec: Vec<SignDecommitPhase1> = Vec::new();
    let mut j: usize = 0;
    while j < n
        invariant
            n == round4_ans@.len(),
            0 <= j <= n,
            decommit_vec@.len() == j,
            forall|k: int| 0 <= k < j ==> sign_decommit_json_ok((#[trigger] round4_ans@[k])@),
        decreases n - j,
    {
        match parse_sign_decommit(round4_ans[j].as_str()) {
            Some(d) => decommit_vec.push(d),
            None => {
                return None;
            },
        }
        j += 1;
    }
    let mut bc1_peers = state.bc1_vec;
    let _own_bc = bc1_peers.remove(state.party_num as usize - 1);
    let r_peers = match sign_phase4(
        &state.delta_inv,
        &state.m_b_gamma_rec,
        &decommit_vec,
        &bc1_peers,
    ) {
        Some(r) => r,
        None => {
            return None;
        },
    };
    let own_gamma = decom_g_gamma(&state.decommit);
    let big_r = point_add_pts(&r_peers, &point_mul_scalar(&own_gamma, &state.delta_inv));
    let msg = message_mod_2_256(message);
    let local_sig = match phase5_local_sig(
        &state.sign_keys,
        msg.as_slice(),
        &big_r,
        &state.sigma,
        &state.y_used,
    ) {
        Some(ls) => ls,
        None => {
            return None;
        },
    };
    let (phase5_com, phase_5a_decom, helgamal_proof, dlog_proof_rho) = phase5a_broadcast_5b_zkproof(
        &local_sig,
    );
    let payload = json_of_phase5_com1(&phase5_com);
    Some(
        (
            SignRound5 {
                parties: state.parties,
                party_num: state.party_num,
                y_used: state.y_used,
                local_sig,
                big_r,
                phase5_com,
                phase_5a_decom,
                helgamal_proof,
                dlog_proof_rho,
            },
            payload,
        ),
    )
}

/// After round 6: the peers' phase-5A commitments are collected and the
/// phase-5A decommitment with its proofs is published.
pub struct SignRound6 {
    pub parties: u16,
    pub party_num: u16,
    pub y_used: CurvePoint,
    pub local_sig: LocalSignatureState,
    pub big_r: CurvePoint,
    pub phase_5a_decom: Phase5ADecom1,
    pub commit5a_peers: Vec<Phase5Com1>,
}

impl SignRound6 {
    pub open spec fn wf(self) -> bool {
        &&& 1 <= self.party_num <= self.parties
        &&& self.commit5a_peers@.len() == self.parties as int - 1
    }
}

/// Round 6: collect the peers' phase-5A commitments and publish our
/// decommitment together with the homomorphic-ElGamal and discrete-log
/// proofs.
pub fn sign_round6(state: SignRound5, round5_ans: &Vec<String>) -> (r: Option<
    (SignRound6, String),
>)
    requires
        state.wf(),
        round5_ans@.len() == state.parties as int - 1,
    ensures
        r is Some <==> (forall|k: int|
            0 <= k < round5_ans@.len() ==> phase5_com1_json_ok((#[trigger] round5_ans@[k])@)),
        r matches Some(p) ==> p.0.wf() && p.0.parties == state.parties && p.0.party_num
            == state.party_num,
{
    let n = round5_ans.len();
    let mut commit5a_peers: Vec<Phase5Com1> = Vec::new();
    let mut j: usize = 0;
    while j < n
        invariant
            n == round5_ans@.len(),
            0 <= j <= n,
            commit5a_peers@.len() == j,
            forall|k: int| 0 <= k < j ==> phase5_com1_json_ok((#[trigger] round5_ans@[k])@),
        decreases n - j,
    {
        match parse_phase5_com1(round5_ans[j].as_str()) {
            Some(c) => commit5a_peers.push(c),
            None => {
                return None;
            },
        }
        j += 1;
    }
    let payload = json_of_phase5a_decom(
        &state.phase_5a_decom,
        &state.helgamal_proof,
        &state.dlog_proof_rho,
    );
    Some(
        (
            SignRound6 {
                parties: state.parties,
                party_num: state.party_num,
                y_used: state.y_used,
                local_sig: state.local_sig,
                big_r: state.big_r,
                phase_5a_decom: state.phase_5a_decom,
                commit5a_peers,
            },
            payload,
        ),
    )
}

/// After round 7: every phase-5A opening and proof checked, the phase-5C
/// commitment pair formed and published.
pub struct SignRound7 {
    pub parties: u16,
    pub party_num: u16,
    pub y_used: CurvePoint,
    pub local_sig: LocalSignatureState,
    pub decom5a_all: Vec<Phase5ADecom1>,
    pub phase5_com2: Phase5Com2,
    pub phase_5d_decom2: Phase5DDecom2,
}

impl SignRound7 {
    pub open spec fn wf(self) -> bool {
        &&& 1 <= self.party_num <= self.parties
        &&& self.decom5a_all@.len() == self.parties as int
    }
}

/// Round 7: open every peer's phase-5A commitment and verify both proofs (a
/// failure aborts), then form and publish the phase-5C commitment over
/// `(U_i, T_i)`.
pub fn sign_round7(state: SignRound6, round6_ans: &Vec<String>) -> (r: Option<
    (SignRound7, String),
>)
    requires
        state.wf(),
        round6_ans@.len() == state.parties as int - 1,
    ensures
        (exists|k: int|
            0 <= k < round6_ans@.len() && !phase5a_triple_json_ok(
                (#[trigger] round6_ans@[k])@,
            )) ==> r is None,
        r matches Some(p) ==> p.0.wf() && p.0.parties == state.parties && p.0.party_num
            == state.party_num && p.0.decom5a_all@[state.party_num as int - 1]
            == state.phase_5a_decom,
{
    let n = round6_ans.len();
    let mut decom5a_peers: Vec<Phase5ADecom1> = Vec::new();
    let mut heg_peers: Vec<HegProof> = Vec::new();
    let mut dlog_peers: Vec<DlogProof> = Vec::new();
    let mut decom5a_all: Vec<Phase5ADecom1> = Vec::new();
    let mut j: usize = 0;
    while j < n
        invariant
            n == round6_ans@.len(),
            0 <= j <= n,
            decom5a_peers@.len() == j,
            heg_peers@.len() == j,
            dlog_peers@.len() == j,
            decom5a_all@.len() == j,
            forall|k: int| 0 <= k < j ==> phase5a_triple_json_ok((#[trigger] round6_ans@[k])@),
        decreases n - j,
    {
        match parse_phase5a_decom(round6_ans[j].as_str()) {
            Some((d, heg, dlog)) => {
                decom5a_all.push(crate::gg18::clone_phase5a_decom(&d));
                decom5a_peers.push(d);
                heg_peers.push(heg);
                dlog_peers.push(dlog);
            },
            None => {
                return None;
            },
        }
        j += 1;
    }
    let v_i = phase5a_decom_v(&state.phase_5a_decom);
    let (phase5_com2, phase_5d_decom2) = match sign_phase5c(
        &state.local_sig,
        &decom5a_peers,
        &state.commit5a_peers,
        &heg_peers,
        &dlog_peers,
        &v_i,
        &state.big_r,
    ) {
        Some(p) => p,
        None => {
            return None;
        },
    };
    let payload = json_of_phase5_com2(&phase5_com2);
    decom5a_all.insert(state.party_num as usize - 1, state.phase_5a_decom);
    Some(
        (
            SignRound7 {
                parties: state.parties,
                party_num: state.party_num,
                y_used: state.y_used,
                local_sig: state.local_sig,
                decom5a_all,
                phase5_com2,
                phase_5d_decom2,
            },
            payload,
        ),
    )
}

/// After round 8: every party's phase-5C commitment collected (own spliced
/// in), the phase-5D decommitment published.
pub struct SignRound8 {
    pub parties: u16,
    pub party_num: u16,
    pub y_used: CurvePoint,
    pub local_sig: LocalSignatureState,
    pub decom5a_all: Vec<Phase5ADecom1>,
    pub commit5c_all: Vec<Phase5Com2>,
    pub phase_5d_decom2: Phase5DDecom2,
}

impl SignRound8 {
    pub open spec fn wf(self) -> bool {
        &&& 1 <= self.party_num <= self.parties
        &&& self.decom5a_all@.len() == self.parties as int
        &&& self.commit5c_all@.len() == self.parties as int
    }
}

/// Round 8: collect the peers' phase-5C commitments (own spliced in at
/// `party_num - 1`) and publish the phase-5D decommitment.
pub fn sign_round8(state: SignRound7, round7_ans: &Vec<String>) -> (r: Option<
    (SignRound8, String),
>)
    requires
        state.wf(),
        round7_ans@.len() == state.parties as int - 1,
    ensures
        r is Some <==> (forall|k: int|
            0 <= k < round7_ans@.len() ==> phase5_com2_json_ok((#[trigger] round7_ans@[k])@)),
        r matches Some(p) ==> p.0.wf() && p.0.parties == state.parties && p.0.party_num
            == state.party_num && p.0.commit5c_all@[state.party_num as int - 1]
            == state.phase5_com2,
{
    let n = round7_ans.len();
    let mut commit5c_all: Vec<Phase5Com2> = Vec::new();
    let mut j: usize = 0;
    while j < n
        invariant
            n == round7_ans@.len(),
            0 <= j <= n,
            commit5c_all@.len() == j,
            forall|k: int| 0 <= k < j ==> phase5_com2_json_ok((#[trigger] round7_ans@[k])@),
        decreases n - j,
    {
        match parse_phase5_com2(round7_ans[j].as_str()) {
            Some(c) => commit5c_all.push(c),
            None => {
                return None;
            },
        }
        j += 1;
    }
    commit5c_all.insert(state.party_num as usize - 1, state.phase5_com2);
    let payload = json_of_phase5d_decom(&state.phase_5d_decom2);
    Some(
        (
            SignRound8 {
                parties: state.parties,
                party_num: state.party_num,
                y_used: state.y_used,
                local_sig: state.local_sig,
                decom5a_all: state.decom5a_all,
                commit5c_all,
                phase_5d_decom2: state.phase_5d_decom2,
            },
            payload,
        ),
    )
}

/// After round 9: every phase-5C opening checked and this party's signature
/// share published.
pub struct SignRound9 {
    pub parties: u16,
    pub party_num: u16,
    pub y_used: CurvePoint,
    pub local_sig: LocalSignatureState,
}

impl SignRound9 {
    pub open spec fn wf(self) -> bool {
        1 <= self.party_num <= self.parties
    }
}

/// Round 9: open every party's phase-5D decommitment (own spliced in at
/// `party_num - 1`) against the phase-5C commitments — a failed check
/// aborts — and publish the local signature share `s_i`.
pub fn sign_round9(state: SignRound8, round8_ans: &Vec<String>) -> (r: Option<
    (SignRound9, String),
>)
    requires
        state.wf(),
        round8_ans@.len() == state.parties as int - 1,
    ensures
        (exists|k: int|
            0 <= k < round8_ans@.len() && !crate::gg18::phase5d_json_ok(
                (#[trigger] round8_ans@[k])@,
            )) ==> r is None,
        r matches Some(p) ==> p.0.wf() && p.0.parties == state.parties && p.0.party_num
            == state.party_num,
{
    let n = round8_ans.len();
    let mut decommit5d_all: Vec<Phase5DDecom2> = Vec::new();
    let mut j: usize = 0;
    while j < n
        invariant
            n == round8_ans@.len(),
            0 <= j <= n,
            decommit5d_all@.len() == j,
            forall|k: int| 0 <= k < j ==> crate::gg18::phase5d_json_ok(
                (#[trigger] round8_ans@[k])@,
            ),
        decreases n - j,
    {
        match parse_phase5d_decom(round8_ans[j].as_str()) {
            Some(d) => decommit5d_all.push(d),
            None => {
                return None;
            },
        }
        j += 1;
    }
    decommit5d_all.insert(state.party_num as usize - 1, state.phase_5d_decom2);
    let s_i = match sign_phase5d(
        &state.local_sig,
        &decommit5d_all,
        &state.commit5c_all,
        &state.decom5a_all,
    ) {
        Some(s) => s,
        None => {
            return None;
        },
    };
    let payload = json_of_scalar(&s_i);
    Some(
        (
            SignRound9 {
                parties: state.parties,
                party_num: state.party_num,
                y_used: state.y_used,
                local_sig: state.local_sig,
            },
            payload,
        ),
    )
}

/// The wire form of a finished signature: `r`, `s` and the key's affine
/// coordinates rendered as the lower-case hex of their integer values, the
/// recovery id, and the message carried through.
pub fn make_signature_data(
    r_bytes: &Vec<u8>,
    s_bytes: &Vec<u8>,
    recid: u8,
    x_bytes: &Vec<u8>,
    y_bytes: &Vec<u8>,
    message: &[u8],
) -> (r: SignatureData)
    ensures
        r.r@ == strip_zeros(hex_of(r_bytes@)),
        r.s@ == strip_zeros(hex_of(s_bytes@)),
        r.status@ == "signature_ready"@,
        r.recid == recid as i32,
        r.x@ == strip_zeros(hex_of(x_bytes@)),
        r.y@ == strip_zeros(hex_of(y_bytes@)),
        r.msg_int@ == message@,
{
    proof {
        reveal_strlit("signature_ready");
    }
    let mut msg: Vec<u8> = Vec::new();
    let mut i: usize = 0;
    while i < message.len()
        invariant
            0 <= i <= message@.len(),
            msg@ == message@.subrange(0, i as int),
        decreases message@.len() - i,
    {
        msg.push(message[i]);
        proof {
            assert(msg@ =~= message@.subrange(0, i + 1));
        }
        i += 1;
    }
    proof {
        assert(message@.subrange(0, message@.len() as int) =~= message@);
    }
    SignatureData {
        r: bytes_to_hex_int(r_bytes.as_slice()),
        s: bytes_to_hex_int(s_bytes.as_slice()),
        status: String::from_str("signature_ready"),
        recid: recid as i32,
        x: bytes_to_hex_int(x_bytes.as_slice()),
        y: bytes_to_hex_int(y_bytes.as_slice()),
        msg_int: msg,
    }
}

/// Final step: aggregate the signature shares (peers' shares as polled, own
/// share already inside the local state) and assemble the wire result for
/// the coordinator. A result is returned only when the byte-level ECDSA
/// verification of `(r, s)` under the session key succeeded, over the
/// message reduced modulo `2^256` — and the contract says so: the returned
/// hex strings render exactly the bytes that verify under the key whose
/// coordinates the result carries.
pub fn sign_finish(state: SignRound9, round9_ans: &Vec<String>, request_id: &str, message: &[u8]) -> (r: Option<SignerResult>)
    requires
        state.wf(),
        round9_ans@.len() == state.parties as int - 1,
    ensures
        (exists|k: int|
            0 <= k < round9_ans@.len() && !scalar_json_ok((#[trigger] round9_ans@[k])@)) ==> r
            is None,
        r matches Some(res) ==> {
            &&& res.request_id@ == request_id@
            &&& res.signature.status@ == "signature_ready"@
            &&& 0 <= res.signature.recid <= 3
            &&& res.signature.msg_int@ == message@
            &&& 1 <= res.signature.r@.len() <= 64
            &&& 1 <= res.signature.s@.len() <= 64
            &&& exists|br: Seq<u8>, bs: Seq<u8>, bx: Seq<u8>, by: Seq<u8>|
                res.signature.r@ == strip_zeros(hex_of(br)) && res.signature.s@ == strip_zeros(
                    hex_of(bs),
                ) && res.signature.x@ == strip_zeros(hex_of(bx)) && res.signature.y@
                    == strip_zeros(hex_of(by)) && #[trigger] ecdsa_verifies(
                    br,
                    bs,
                    bx,
                    by,
                    mod_2_256_spec(message@),
                )
        },
{
    let n = round9_ans.len();
    let mut s_i_peers: Vec<CurveScalar> = Vec::new();
    let mut j: usize = 0;
    while j < n
        invariant
            n == round9_ans@.len(),
            0 <= j <= n,
            s_i_peers@.len() == j,
            forall|k: int| 0 <= k < j ==> scalar_json_ok((#[trigger] round9_ans@[k])@),
        decreases n - j,
    {
        match parse_scalar(round9_ans[j].as_str()) {
            Some(s) => s_i_peers.push(s),
            None => {
                return None;
            },
        }
        j += 1;
    }
    let sig = match output_signature(&state.local_sig, &s_i_peers) {
        Some(s) => s,
        None => {
            return None;
        },
    };
    let (r_bytes, s_bytes, recid) = signature_parts(&sig);
    let (x_bytes, y_bytes) = match point_coords_bytes(&state.y_used) {
        Some(p) => p,
        None => {
            return None;
        },
    };
    let msg = message_mod_2_256(message);
    if !ecdsa_verify_bytes(
        r_bytes.as_slice(),
        s_bytes.as_slice(),
        x_bytes.as_slice(),
        y_bytes.as_slice(),
        msg.as_slice(),
    ) {
        return None;
    }
    let signature = make_signature_data(&r_bytes, &s_bytes, recid, &x_bytes, &y_bytes, message);
    proof {
        assert(ecdsa_verifies(r_bytes@, s_bytes@, x_bytes@, y_bytes@, mod_2_256_spec(message@)));
        lemma_hex_of_len(r_bytes@);
        lemma_hex_of_len(s_bytes@);
        lemma_strip_zeros_len(hex_of(r_bytes@));
        lemma_strip_zeros_len(hex_of(s_bytes@));
    }
    Some(SignerResult { request_id: request_id.to_owned(), signature })
}

} // verus!
