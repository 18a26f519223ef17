use curv::arithmetic::Converter;
use curv::elliptic::curves::{Point, Secp256k1};
use tss_network::gg18::{point_of_bytes, point_to_bytes};
use tss_network::hd_keys::{get_hd_key, hd_key, push_be_bytes};
use tss_network::monitoring::{
    new_metrics, record_queue_depth, record_signing_duration, record_signing_request,
    record_signing_result, record_uptime, update_active_signers,
};
use tss_network::registration::{make_registration, RegistrationService, SignerInfo};
use tss_network::signer::{signup_step, SignupPoll, SignupStep};
use tss_network::types::{ManagerError, PartySignup, SignerRegistrationRequest, SigningPartySignup};

#[test]
fn metrics_count_and_gauge() {
    let mut m = new_metrics();
    record_signing_request(&mut m);
    record_signing_request(&mut m);
    record_signing_result(&mut m, true);
    record_signing_result(&mut m, false);
    record_signing_duration(&mut m, 120);
    record_signing_duration(&mut m, 80);
    update_active_signers(&mut m, 3);
    record_uptime(&mut m, 42);
    record_queue_depth(&mut m, 7);
    assert_eq!(m.signing_requests_total, 2);
    assert_eq!(m.signing_results_success, 1);
    assert_eq!(m.signing_results_failure, 1);
    assert_eq!(m.signing_duration_ms_sum, 200);
    assert_eq!(m.signing_duration_count, 2);
    assert_eq!(m.active_signers, 3);
    assert_eq!(m.uptime_seconds, 42);
    assert_eq!(m.queue_depth, 7);
}

#[test]
fn metrics_counters_saturate() {
    let mut m = new_metrics();
    m.signing_requests_total = u64::MAX;
    record_signing_request(&mut m);
    assert_eq!(m.signing_requests_total, u64::MAX);
    m.signing_duration_ms_sum = u64::MAX - 1;
    record_signing_duration(&mut m, 10);
    assert_eq!(m.signing_duration_ms_sum, u64::MAX);
}

#[test]
fn registration_keeps_signers_in_order() {
    let mut service = RegistrationService::new();
    let (info, response) = make_registration(&SignerRegistrationRequest {
        signer_id: 2,
        public_key: "02abc".to_string(),
    });
    assert!(response.success);
    assert_eq!(response.message, "Signer registered successfully");
    service.register_signer(info);
    service.register_signer(SignerInfo { signer_id: 1, public_key: "03def".to_string() });
    let signers = service.get_registered_signers();
    assert_eq!(signers.len(), 2);
    assert_eq!(signers[0].signer_id, 2);
    assert_eq!(signers[1].signer_id, 1);
}

fn answer(order: u16, uuid: &str, room: &str, joined: u16) -> SigningPartySignup {
    SigningPartySignup {
        party_order: order,
        party_uuid: uuid.to_string(),
        room_uuid: room.to_string(),
        total_joined: joined,
    }
}

#[test]
fn signup_poll_follows_the_barrier() {
    let start = SignupPoll { number: 0, party_uuid: String::new(), last_total_joined: 0 };
    // Still filling: keep polling, the member count moved.
    let step1 = signup_step(start, Ok(answer(2, "P", "", 1)));
    let state = match step1 {
        SignupStep::Continue(next, moved) => {
            assert!(moved);
            assert_eq!(next.number, 2);
            assert_eq!(next.party_uuid, "P");
            next
        }
        other => panic!("unexpected step: {:?}", other),
    };
    // Same member count: no deadline reset.
    let step2 = signup_step(state, Ok(answer(2, "P", "", 1)));
    let state = match step2 {
        SignupStep::Continue(next, moved) => {
            assert!(!moved);
            next
        }
        other => panic!("unexpected step: {:?}", other),
    };
    // The room uuid arrives: done.
    let step3 = signup_step(state, Ok(answer(2, "P", "RU", 2)));
    match step3 {
        SignupStep::Done(assignment, total) => {
            assert_eq!(assignment, PartySignup { number: 2, uuid: "RU".to_string() });
            assert_eq!(total, 2);
        }
        other => panic!("unexpected step: {:?}", other),
    }
    // A coordinator error fails the signup.
    let start = SignupPoll { number: 0, party_uuid: String::new(), last_total_joined: 0 };
    match signup_step(start, Err(ManagerError { error: "Room is full".to_string() })) {
        SignupStep::Failed(e) => assert_eq!(e, "Room is full"),
        other => panic!("unexpected step: {:?}", other),
    }
}

#[test]
fn be_bytes_match_big_integer_export() {
    let mut out = Vec::new();
    // Zero exports as a single zero byte, as curv's big integers write it.
    push_be_bytes(0, &mut out);
    assert_eq!(out, vec![0]);
    assert_eq!(curv::BigInt::from(0u64).to_bytes(), vec![0]);
    out.clear();
    push_be_bytes(1, &mut out);
    assert_eq!(out, vec![1]);
    out.clear();
    push_be_bytes(0x1234, &mut out);
    assert_eq!(out, vec![0x12, 0x34]);
    assert_eq!(curv::BigInt::from(0x1234u64).to_bytes(), vec![0x12, 0x34]);
    out.clear();
    push_be_bytes(u64::MAX, &mut out);
    assert_eq!(out, vec![0xff; 8]);
}

#[test]
fn hd_derivation_is_deterministic_and_moves_the_key() {
    let g = Point::<Secp256k1>::generator().to_point();
    let parent = g.to_bytes(true).to_vec();
    let path = vec![0u64, 1, 2];
    let first = get_hd_key(&parent, &path).expect("derivation");
    let second = get_hd_key(&parent, &path).expect("derivation");
    assert_eq!(first.0, second.0);
    assert_eq!(first.1, second.1);
    // The child differs from the parent and is a valid point.
    assert_ne!(first.0, parent);
    let child = point_of_bytes(&first.0).expect("child must be a point");
    assert_eq!(point_to_bytes(&child), first.0);
    // A different path gives a different child.
    let other = get_hd_key(&parent, &vec![0u64, 1, 3]).expect("derivation");
    assert_ne!(other.0, first.0);
}

#[test]
fn hd_key_returns_chain_code_as_well() {
    let g = Point::<Secp256k1>::generator().to_point();
    let parent = g.to_bytes(true).to_vec();
    let cc = parent.clone();
    let (child, tweak, chain) = hd_key(&parent, &cc, &vec![7u64]).expect("derivation");
    assert_eq!(child.len(), 33);
    assert_eq!(chain.len(), 33);
    assert!(tweak.len() <= 32);
}
