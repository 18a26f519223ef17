use tss_network::auth::{has_permission_for_endpoint, make_claims, role_is_public, Role};
use tss_network::config::{SecurityConfig, Settings};
use tss_network::error::TssError;
use tss_network::manager::{
    make_keygen_request, make_signing_request, signup_keygen, RelayStore,
};
use tss_network::storage::{apply_keygen_result, apply_signing_result, new_signing_record};
use tss_network::types::{
    Entry, Index, KeyGenRequestDTO, KeysToStore, KeyGenParams, MessageStatus, MessageToSignStored,
    PartySignup, SignatureData, SignerResult, SigningRequest,
};
use tss_network::MAX_MESSAGE_SIZE;

fn sig(rv: &str) -> SignatureData {
    SignatureData {
        r: rv.to_string(),
        s: "0d".to_string(),
        status: "signature_ready".to_string(),
        recid: 1,
        x: "aa".to_string(),
        y: "bb".to_string(),
        msg_int: vec![1, 2, 3],
    }
}

#[test]
fn relay_set_then_get_returns_latest_value() {
    let mut store = RelayStore::new();
    store.set(Entry { key: "1-round1-u".to_string(), value: "v1".to_string() });
    store.set(Entry { key: "1-round1-u".to_string(), value: "v2".to_string() });
    let got = store.get(&Index { key: "1-round1-u".to_string() }).unwrap();
    assert_eq!(got.value, "v2");
    assert_eq!(got.key, "1-round1-u");
    let missing = store.get(&Index { key: "absent".to_string() });
    assert_eq!(missing.unwrap_err().error, "Key not found");
}

#[test]
fn relay_set_keeps_other_keys() {
    let mut store = RelayStore::new();
    store.set(Entry { key: "a".to_string(), value: "1".to_string() });
    store.set(Entry { key: "b".to_string(), value: "2".to_string() });
    store.set(Entry { key: "a".to_string(), value: "3".to_string() });
    assert_eq!(store.get(&Index { key: "b".to_string() }).unwrap().value, "2");
    assert_eq!(store.get(&Index { key: "a".to_string() }).unwrap().value, "3");
}

#[test]
fn keygen_signup_counter_rolls_over() {
    let first = signup_keygen(3, None, "U1".to_string());
    assert_eq!(first, PartySignup { number: 1, uuid: "U1".to_string() });
    let second = signup_keygen(3, Some(first), "unused".to_string());
    assert_eq!(second.number, 2);
    assert_eq!(second.uuid, "U1");
    let third = signup_keygen(3, Some(second), "unused".to_string());
    assert_eq!(third.number, 3);
    let fourth = signup_keygen(3, Some(third), "U2".to_string());
    assert_eq!(fourth, PartySignup { number: 1, uuid: "U2".to_string() });
}

#[test]
fn oversize_message_is_refused_and_nothing_stored() {
    let message = vec![0u8; MAX_MESSAGE_SIZE + 1];
    let r = make_signing_request(message, "id-1".to_string());
    assert_eq!(r.unwrap_err(), TssError::MessageTooLarge);

    let stored = new_signing_record(SigningRequest {
        id: "id-2".to_string(),
        message: vec![0u8; MAX_MESSAGE_SIZE + 1],
    });
    assert_eq!(stored.unwrap_err(), TssError::MessageTooLarge);
}

#[test]
fn message_at_limit_is_accepted_pending() {
    let message = vec![7u8; MAX_MESSAGE_SIZE];
    let r = make_signing_request(message.clone(), "id-3".to_string()).unwrap();
    assert_eq!(r.id, "id-3");
    let stored = new_signing_record(r).unwrap();
    assert_eq!(stored.status, MessageStatus::Pending);
    assert_eq!(stored.message, message);
    assert!(stored.signature.is_none());
}

#[test]
fn threshold_above_parties_is_refused() {
    let dto = KeyGenRequestDTO {
        manager_url: "http://localhost".to_string(),
        threshold: 4,
        total_parties: 3,
    };
    let r = make_keygen_request(&dto, "id".to_string());
    assert_eq!(r.unwrap_err(), TssError::InvalidThreshold(4));
    let ok = make_keygen_request(
        &KeyGenRequestDTO { manager_url: "m".to_string(), threshold: 2, total_parties: 3 },
        "id2".to_string(),
    )
    .unwrap();
    assert_eq!(ok.keygen_params, KeyGenParams { parties: 3, threshold: 2 });
}

#[test]
fn idempotent_result_update_first_wins() {
    let stored = MessageToSignStored {
        request_id: "rid".to_string(),
        message: vec![1],
        status: MessageStatus::Pending,
        signature: None,
    };
    let first = apply_signing_result(
        stored,
        SignerResult { request_id: "rid".to_string(), signature: sig("01") },
    );
    assert_eq!(first.status, MessageStatus::Completed);
    assert_eq!(first.signature.as_ref().unwrap().r, "01");
    // A second post with a different signature is a no-op.
    let second = apply_signing_result(
        first.clone(),
        SignerResult { request_id: "rid".to_string(), signature: sig("02") },
    );
    assert_eq!(second, first);
    assert_eq!(second.signature.unwrap().r, "01");
}

#[test]
fn keygen_result_update_is_idempotent_too() {
    let stored = KeysToStore {
        request_id: "rid".to_string(),
        status: MessageStatus::Pending,
        key_gen_params: KeyGenParams { parties: 3, threshold: 1 },
        keys: None,
    };
    let first = apply_keygen_result(stored, vec!["k1".to_string()]);
    assert_eq!(first.status, MessageStatus::Completed);
    let second = apply_keygen_result(first.clone(), vec!["k2".to_string()]);
    assert_eq!(second, first);
    assert_eq!(second.keys.unwrap(), vec!["k1".to_string()]);
}

#[test]
fn permission_matrix() {
    // Public reaches /sign and result lookups, nothing else.
    assert!(has_permission_for_endpoint(&Role::Public, "/sign"));
    assert!(has_permission_for_endpoint(&Role::Public, "/signing_result/abc"));
    assert!(!has_permission_for_endpoint(&Role::Public, "/key_gen_request"));
    assert!(!has_permission_for_endpoint(&Role::Public, "/set"));
    // The signer role holds no token permission at all.
    assert!(!has_permission_for_endpoint(&Role::Signer, "/sign"));
    assert!(!has_permission_for_endpoint(&Role::Signer, "/set"));
    // The administrator reaches everything.
    assert!(has_permission_for_endpoint(&Role::Admin, "/sign"));
    assert!(has_permission_for_endpoint(&Role::Admin, "/key_gen_request"));
    // Only the public role may submit messages: an admin token on /sign is
    // refused by the endpoint's own role check.
    assert!(role_is_public(&Role::Public));
    assert!(!role_is_public(&Role::Admin));
    assert!(!role_is_public(&Role::Signer));
}

#[test]
fn no_token_for_signer_role() {
    let refused = make_claims("u", Role::Signer, 1000);
    assert_eq!(
        refused.unwrap_err(),
        TssError::AuthError("Cannot create token for Signer role".to_string())
    );
    let claims = make_claims("u", Role::Public, 1000).unwrap();
    assert_eq!(claims.sub, "u");
    assert_eq!(claims.iat, 1000);
    assert_eq!(claims.exp, 4600);
}

#[test]
fn ip_allow_list() {
    let settings = Settings {
        mongodb_uri: String::new(),
        rabbitmq_uri: String::new(),
        manager_url: "http://127.0.0.1".to_string(),
        manager_port: 8080,
        signing_timeout: 30,
        threshold: 1,
        total_parties: 3,
        path: String::new(),
        signer_key_files: vec![],
        security: SecurityConfig {
            jwt_secret: "SECRET-REDACTED".to_string(),
            jwt_expiration: 3600,
            allowed_signer_ips: vec!["10.0.0.1".to_string(), "10.0.0.2".to_string()],
        },
    };
    assert!(settings.is_ip_whitelisted(&"10.0.0.1".to_string()));
    assert!(settings.is_ip_whitelisted(&"10.0.0.2".to_string()));
    assert!(!settings.is_ip_whitelisted(&"10.0.0.3".to_string()));
}

#[test]
fn tokens_round_trip_through_jsonwebtoken() {
    // The claims the library forms are what the token layer signs and gets
    // back; roles map to the same names on the wire.
    let claims = make_claims("user-1", Role::Admin, 1_700_000_000).unwrap();
    let wire_text = format!(
        "{{\"sub\":\"{}\",\"exp\":{},\"role\":\"Admin\",\"iat\":{}}}",
        claims.sub, claims.exp, claims.iat
    );
    let wire: serde_json::Value = serde_json::from_str(&wire_text).unwrap();
    let token = jsonwebtoken::encode(
        &jsonwebtoken::Header::default(),
        &wire,
        &jsonwebtoken::EncodingKey::from_secret(b"SECRET-REDACTED"),
    )
    .unwrap();
    let mut validation = jsonwebtoken::Validation::default();
    validation.validate_exp = false;
    validation.required_spec_claims.clear();
    let decoded = jsonwebtoken::decode::<serde_json::Value>(
        &token,
        &jsonwebtoken::DecodingKey::from_secret(b"SECRET-REDACTED"),
        &validation,
    )
    .unwrap();
    assert_eq!(decoded.claims["sub"], "user-1");
    assert_eq!(decoded.claims["role"], "Admin");
    assert_eq!(decoded.claims["exp"], claims.exp as u64);
}
