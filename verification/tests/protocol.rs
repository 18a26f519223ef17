use curv::arithmetic::Converter;
use sha2::Digest;
use curv::elliptic::curves::{Point, Scalar, Secp256k1};
use multi_party_ecdsa::protocols::multi_party_ecdsa::gg_2018::party_i::{
    verify, Keys, SharedKeys, SignatureRecid,
};

use tss_network::codec::parse_path;
use tss_network::gg18::{clone_point, point_to_bytes};
use tss_network::signer::load_signer_bundle;
use tss_network::keygen::{
    keygen_finish, keygen_round1, keygen_round2, keygen_round3, keygen_round4, keygen_round5,
    run_local_keygen,
};
use tss_network::signer::{
    assemble_signers_vec, hd_tweak_for_path, sign_finish, sign_round0_payload, sign_round1,
    sign_round2, sign_round3, sign_round4, sign_round5, sign_round6, sign_round7, sign_round8,
    sign_round9,
};
use tss_network::types::AEAD;

/// The answers party `receiver` polls for one broadcast round: every other
/// party's payload, in ascending party order.
fn broadcast_answers(payloads: &[String], receiver: usize) -> Vec<String> {
    payloads
        .iter()
        .enumerate()
        .filter(|(k, _)| *k != receiver)
        .map(|(_, p)| p.clone())
        .collect()
}

/// The answers party `receiver` polls for one point-to-point round:
/// `packs[sender]` holds what `sender` addressed to each of its peers in
/// ascending peer order.
fn p2p_answers(packs: &[Vec<AEAD>], receiver: usize) -> Vec<AEAD> {
    let n = packs.len();
    let mut out = Vec::new();
    for sender in 0..n {
        if sender == receiver {
            continue;
        }
        let slot = if receiver < sender { receiver } else { receiver - 1 };
        out.push(packs[sender][slot].clone());
    }
    out
}

fn p2p_string_answers(msgs: &[Vec<String>], receiver: usize) -> Vec<String> {
    let n = msgs.len();
    let mut out = Vec::new();
    for sender in 0..n {
        if sender == receiver {
            continue;
        }
        let slot = if receiver < sender { receiver } else { receiver - 1 };
        out.push(msgs[sender][slot].clone());
    }
    out
}

/// Runs a full in-process DKG for `(t, n)` and returns the serialized signer
/// bundles, one per party.
fn run_dkg(t: u16, n: u16) -> Vec<String> {
    let parties = n as usize;
    let mut states1 = Vec::new();
    let mut payloads1 = Vec::new();
    for p in 0..parties {
        let (s, payload) = keygen_round1(t, n, (p + 1) as u16).expect("round 1");
        states1.push(s);
        payloads1.push(payload);
    }
    let mut states2 = Vec::new();
    let mut payloads2 = Vec::new();
    for (p, s) in states1.into_iter().enumerate() {
        let ans = broadcast_answers(&payloads1, p);
        let (s2, payload) = keygen_round2(s, &ans).expect("round 2");
        states2.push(s2);
        payloads2.push(payload);
    }
    let mut states3 = Vec::new();
    let mut packs3 = Vec::new();
    for (p, s) in states2.into_iter().enumerate() {
        let ans = broadcast_answers(&payloads2, p);
        let (s3, packs) = keygen_round3(s, &ans).expect("round 3");
        states3.push(s3);
        packs3.push(packs);
    }
    let mut states4 = Vec::new();
    let mut payloads4 = Vec::new();
    for (p, s) in states3.into_iter().enumerate() {
        let ans = p2p_answers(&packs3, p);
        let (s4, payload) = keygen_round4(s, ans).expect("round 4");
        states4.push(s4);
        payloads4.push(payload);
    }
    let mut states5 = Vec::new();
    let mut payloads5 = Vec::new();
    for (p, s) in states4.into_iter().enumerate() {
        let ans = broadcast_answers(&payloads4, p);
        let (s5, payload) = keygen_round5(s, &ans).expect("round 5");
        states5.push(s5);
        payloads5.push(payload);
    }
    // Every party computes the same joint public key.
    let y0 = point_to_bytes(&states5[0].y_sum);
    for s in &states5 {
        assert_eq!(point_to_bytes(&s.y_sum), y0);
    }
    let mut bundles = Vec::new();
    for (p, s) in states5.into_iter().enumerate() {
        let ans = broadcast_answers(&payloads5, p);
        bundles.push(keygen_finish(s, &ans).expect("dlog proofs must verify"));
    }
    bundles
}

type Bundle = (
    Keys,
    SharedKeys,
    u16,
    Vec<curv::cryptographic_primitives::secret_sharing::feldman_vss::VerifiableSS<Secp256k1>>,
    Vec<kzen_paillier::EncryptionKey>,
    Point<Secp256k1>,
);

/// Runs a full in-process signing session for the given quorum (original
/// party ids, ascending), over a 32-byte message, with an optional
/// derivation path. Returns the produced wire signatures, one per signer.
fn run_sign(
    bundles: &[String],
    quorum: &[u16],
    message: &[u8],
    path: &str,
) -> Vec<tss_network::types::SignerResult> {
    let k = quorum.len();
    // Round 0: everyone announces its original index.
    let payloads0: Vec<String> =
        quorum.iter().map(|id| sign_round0_payload(*id)).collect();
    let mut states1 = Vec::new();
    let mut payloads1 = Vec::new();
    for pos in 0..k {
        let party_num = (pos + 1) as u16;
        let party_id = quorum[pos];
        let ans = broadcast_answers(&payloads0, pos);
        let signers_vec = assemble_signers_vec(&ans, party_num, party_id).expect("round 0");
        let bundle =
            load_signer_bundle(&bundles[(party_id - 1) as usize]).expect("bundle must parse");
        let y_root = clone_point(&bundle.y_sum);
        let (tweak, y_used) = if path.is_empty() {
            hd_tweak_for_path(&Vec::new(), y_root).expect("no tweak")
        } else {
            let elements = parse_path(path).expect("path must parse");
            hd_tweak_for_path(&elements, y_root).expect("tweak")
        };
        let (s1, payload) =
            sign_round1(bundle, party_num, signers_vec, tweak, y_used).expect("round 1");
        states1.push(s1);
        payloads1.push(payload);
    }
    let mut states2 = Vec::new();
    let mut p2p2 = Vec::new();
    for (pos, s) in states1.into_iter().enumerate() {
        let ans = broadcast_answers(&payloads1, pos);
        let (s2, payloads) = sign_round2(s, &ans).expect("round 2");
        states2.push(s2);
        p2p2.push(payloads);
    }
    let mut states3 = Vec::new();
    let mut payloads3 = Vec::new();
    for (pos, s) in states2.into_iter().enumerate() {
        let ans = p2p_string_answers(&p2p2, pos);
        let (s3, payload) = sign_round3(s, &ans).expect("round 3");
        states3.push(s3);
        payloads3.push(payload);
    }
    let mut states4 = Vec::new();
    let mut payloads4 = Vec::new();
    for (pos, s) in states3.into_iter().enumerate() {
        let ans = broadcast_answers(&payloads3, pos);
        let (s4, payload) = sign_round4(s, &ans).expect("round 4");
        states4.push(s4);
        payloads4.push(payload);
    }
    let mut states5 = Vec::new();
    let mut payloads5 = Vec::new();
    for (pos, s) in states4.into_iter().enumerate() {
        let ans = broadcast_answers(&payloads4, pos);
        let (s5, payload) = sign_round5(s, &ans, message).expect("round 5");
        states5.push(s5);
        payloads5.push(payload);
    }
    let mut states6 = Vec::new();
    let mut payloads6 = Vec::new();
    for (pos, s) in states5.into_iter().enumerate() {
        let ans = broadcast_answers(&payloads5, pos);
        let (s6, payload) = sign_round6(s, &ans).expect("round 6");
        states6.push(s6);
        payloads6.push(payload);
    }
    let mut states7 = Vec::new();
    let mut payloads7 = Vec::new();
    for (pos, s) in states6.into_iter().enumerate() {
        let ans = broadcast_answers(&payloads6, pos);
        let (s7, payload) = sign_round7(s, &ans).expect("round 7");
        states7.push(s7);
        payloads7.push(payload);
    }
    let mut states8 = Vec::new();
    let mut payloads8 = Vec::new();
    for (pos, s) in states7.into_iter().enumerate() {
        let ans = broadcast_answers(&payloads7, pos);
        let (s8, payload) = sign_round8(s, &ans).expect("round 8");
        states8.push(s8);
        payloads8.push(payload);
    }
    let mut states9 = Vec::new();
    let mut payloads9 = Vec::new();
    for (pos, s) in states8.into_iter().enumerate() {
        let ans = broadcast_answers(&payloads8, pos);
        let (s9, payload) = sign_round9(s, &ans).expect("round 9");
        states9.push(s9);
        payloads9.push(payload);
    }
    let mut results = Vec::new();
    for (pos, s) in states9.into_iter().enumerate() {
        let ans = broadcast_answers(&payloads9, pos);
        results.push(sign_finish(s, &ans, "req-1", message).expect("signature must verify"));
    }
    results
}

fn external_verify(r_hex: &str, s_hex: &str, recid: i32, y: &Point<Secp256k1>, msg: &[u8]) -> bool {
    let sig = SignatureRecid {
        r: Scalar::from_bigint(&curv::BigInt::from_str_radix(r_hex, 16).unwrap()),
        s: Scalar::from_bigint(&curv::BigInt::from_str_radix(s_hex, 16).unwrap()),
        recid: recid as u8,
    };
    verify(&sig, y, &curv::BigInt::from_bytes(msg)).is_ok()
}

#[test]
fn dkg_and_quorum_signing_produce_a_verifying_signature() {
    let bundles = run_dkg(1, 3);
    assert_eq!(bundles.len(), 3);
    for b in &bundles {
        assert!(!b.is_empty());
    }
    let parsed: Bundle = serde_json::from_str(&bundles[0]).unwrap();
    let y_sum = parsed.5;

    // A 2-of-3 quorum of parties 1 and 3 signs a pre-hashed message.
    let message: Vec<u8> = sha2::Sha256::digest(b"test_message").to_vec();
    let results = run_sign(&bundles, &[1, 3], &message, "");
    assert_eq!(results.len(), 2);
    for res in &results {
        assert_eq!(res.request_id, "req-1");
        let sig = &res.signature;
        assert_eq!(sig.status, "signature_ready");
        assert!(!sig.r.is_empty() && sig.r.len() <= 64);
        assert!(!sig.s.is_empty() && sig.s.len() <= 64);
        assert!(sig.recid >= 0 && sig.recid <= 3);
        assert_eq!(sig.msg_int, message);
        assert!(external_verify(&sig.r, &sig.s, sig.recid, &y_sum, &message));
    }
    // Both signers agree on the signature.
    assert_eq!(results[0].signature.r, results[1].signature.r);
    assert_eq!(results[0].signature.s, results[1].signature.s);

    // Signing under a derivation path verifies under the child key and
    // fails under the root key.
    let child_results = run_sign(&bundles, &[1, 2], &message, "0/1/2");
    let sig = &child_results[0].signature;
    let elements = parse_path("0/1/2").unwrap();
    let y_point = tss_network::gg18::point_of_bytes(
        &point_to_bytes(&load_signer_bundle(&bundles[0]).unwrap().y_sum),
    )
    .unwrap();
    let (_, child) = hd_tweak_for_path(&elements, y_point).unwrap();
    let child_bytes = point_to_bytes(&child);
    let y_child = Point::<Secp256k1>::from_bytes(&child_bytes).unwrap();
    assert!(external_verify(&sig.r, &sig.s, sig.recid, &y_child, &message));
    assert!(!external_verify(&sig.r, &sig.s, sig.recid, &y_sum, &message));
    // The x coordinate in the wire signature names the child key.
    assert_eq!(sig.x, y_child.x_coord().unwrap().to_hex());
}

#[test]
fn local_keygen_runner_yields_one_bundle_per_party() {
    let bundles = run_local_keygen(1, 2).expect("local run must complete");
    assert_eq!(bundles.len(), 2);
    for b in &bundles {
        assert!(load_signer_bundle(b).is_some());
    }
    // A signing subset that names the same party twice is refused before
    // any key material is formed: the Lagrange basis demands distinct
    // ordinals.
    let bundle = load_signer_bundle(&bundles[0]).unwrap();
    let y = clone_point(&bundle.y_sum);
    assert!(sign_round1(bundle, 1, vec![0, 0], None, y).is_none());
    // So is a subset naming an out-of-range party.
    let bundle = load_signer_bundle(&bundles[0]).unwrap();
    let y = clone_point(&bundle.y_sum);
    assert!(sign_round1(bundle, 1, vec![0, 7], None, y).is_none());
}
