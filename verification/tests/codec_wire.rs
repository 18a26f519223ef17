use tss_network::codec::{
    broadcast_key, bytes_to_hex, bytes_to_hex_int, format_vec_from_reads, is_valid_uuid,
    message_mod_2_256, p2p_key, parse_path, parse_u16, parse_u64, broadcast_poll_keys,
    p2p_poll_keys, sha256_digest, transport_retry_delay_ms, u16_to_string,
};
use tss_network::types::{MessageStatus, SigningStatus};

#[test]
fn decimal_rendering() {
    assert_eq!(u16_to_string(0), "0");
    assert_eq!(u16_to_string(7), "7");
    assert_eq!(u16_to_string(42), "42");
    assert_eq!(u16_to_string(65535), "65535");
}

#[test]
fn decimal_parsing() {
    assert_eq!(parse_u16("0"), Some(0));
    assert_eq!(parse_u16("42"), Some(42));
    assert_eq!(parse_u16("65535"), Some(65535));
    assert_eq!(parse_u16("65536"), None);
    assert_eq!(parse_u16(""), None);
    assert_eq!(parse_u16("4x2"), None);
    assert_eq!(parse_u16("-3"), None);
    assert_eq!(parse_u64("18446744073709551615"), Some(u64::MAX));
    assert_eq!(parse_u64("18446744073709551616"), None);
}

#[test]
fn relay_key_formats() {
    assert_eq!(broadcast_key(3, "round1", "UUID-1"), "3-round1-UUID-1");
    assert_eq!(p2p_key(3, 5, "round2", "UUID-1"), "3-5-round2-UUID-1");
}

#[test]
fn poll_keys_skip_self_in_ascending_order() {
    let keys = broadcast_poll_keys(2, 4, "round1", "U");
    assert_eq!(keys, vec!["1-round1-U", "3-round1-U", "4-round1-U"]);
    let p2p = p2p_poll_keys(2, 3, "round2", "U");
    assert_eq!(p2p, vec!["1-2-round2-U", "3-2-round2-U"]);
}

#[test]
fn splice_puts_own_value_at_ordinal() {
    let answers = vec!["a".to_string(), "b".to_string(), "c".to_string()];
    let spliced = format_vec_from_reads(&answers, 2, "me".to_string());
    assert_eq!(spliced, vec!["a", "me", "b", "c"]);
    let first = format_vec_from_reads(&answers, 1, "me".to_string());
    assert_eq!(first, vec!["me", "a", "b", "c"]);
    let last = format_vec_from_reads(&answers, 4, "me".to_string());
    assert_eq!(last, vec!["a", "b", "c", "me"]);
}

#[test]
fn hex_rendering() {
    assert_eq!(bytes_to_hex(&[]), "");
    assert_eq!(bytes_to_hex(&[0x00, 0xab, 0x1f]), "00ab1f");
    assert_eq!(bytes_to_hex_int(&[0x00, 0xab, 0x1f]), "ab1f");
    assert_eq!(bytes_to_hex_int(&[0x00, 0x00]), "0");
    assert_eq!(bytes_to_hex_int(&[]), "0");
    assert_eq!(bytes_to_hex_int(&[0x0a]), "a");
}

#[test]
fn hex_matches_the_hex_crate() {
    let bytes = [0u8, 1, 2, 0xfe, 0xff, 0x10];
    assert_eq!(bytes_to_hex(&bytes), hex::encode(bytes));
}

#[test]
fn sha256_digest_known_values() {
    assert_eq!(
        sha256_digest(b""),
        "e3b0c44298fc1c149afbf4c8996fb92427ae41e4649b934ca495991b7852b855"
    );
    assert_eq!(
        sha256_digest(b"abc"),
        "ba7816bf8f01cfea414140de5dae2223b00361a396177a9cb410ff61f20015ad"
    );
}

#[test]
fn message_reduction_keeps_last_32_bytes() {
    let short = vec![1u8, 2, 3];
    assert_eq!(message_mod_2_256(&short), short);
    let long: Vec<u8> = (0u8..40).collect();
    assert_eq!(message_mod_2_256(&long), (8u8..40).collect::<Vec<u8>>());
}

#[test]
fn uuid_syntax() {
    // The four textual forms the id parser accepts.
    assert!(is_valid_uuid("123e4567-e89b-42d3-a456-426614174000"));
    assert!(is_valid_uuid("123E4567-E89B-42D3-A456-426614174000"));
    assert!(is_valid_uuid("123e4567e89b42d3a456426614174000"));
    assert!(is_valid_uuid("{123e4567-e89b-42d3-a456-426614174000}"));
    assert!(is_valid_uuid("urn:uuid:123e4567-e89b-42d3-a456-426614174000"));
    assert!(is_valid_uuid("URN:UUID:123e4567-e89b-42d3-a456-426614174000"));
    assert!(!is_valid_uuid("123e4567-e89b-42d3-a456-42661417400"));
    assert!(!is_valid_uuid("123e4567-e89b-42d3-a456-42661417400g"));
    assert!(!is_valid_uuid("{123e4567e89b42d3a456426614174000}"));
    assert!(!is_valid_uuid("arn:uuid:123e4567-e89b-42d3-a456-426614174000"));
    assert!(!is_valid_uuid(""));
    // Agreement with the uuid parser on every accepted form.
    for form in [
        "123e4567-e89b-42d3-a456-426614174000",
        "123e4567e89b42d3a456426614174000",
        "{123e4567-e89b-42d3-a456-426614174000}",
        "urn:uuid:123e4567-e89b-42d3-a456-426614174000",
    ] {
        assert!(uuid::Uuid::parse_str(form).is_ok());
    }
    // Every uuid the system mints passes its own validation.
    let minted = uuid::Uuid::new_v4().to_string();
    assert!(is_valid_uuid(&minted));
}

#[test]
fn path_parsing() {
    assert_eq!(parse_path("0/1/2"), Some(vec![0, 1, 2]));
    assert_eq!(parse_path("42"), Some(vec![42]));
    assert_eq!(parse_path(""), None);
    assert_eq!(parse_path("1//2"), None);
    assert_eq!(parse_path("1/x"), None);
    assert_eq!(parse_path("1/2/"), None);
}

#[test]
fn status_wire_names() {
    assert_eq!(MessageStatus::Pending.as_str(), "Pending");
    assert_eq!(MessageStatus::InProgress.as_str(), "InProgress");
    assert_eq!(MessageStatus::Completed.as_str(), "Completed");
    assert_eq!(SigningStatus::Failed.as_str(), "Failed");
    assert_eq!(SigningStatus::from_str("Pending"), Ok(SigningStatus::Pending));
    assert_eq!(SigningStatus::from_str("InProgress"), Ok(SigningStatus::InProgress));
    assert_eq!(SigningStatus::from_str("Completed"), Ok(SigningStatus::Completed));
    assert_eq!(SigningStatus::from_str("Failed"), Ok(SigningStatus::Failed));
    assert_eq!(SigningStatus::from_str("bogus"), Err(()));
}

#[test]
fn transport_retries_three_times_a_quarter_second_apart() {
    assert_eq!(transport_retry_delay_ms(0), Some(250));
    assert_eq!(transport_retry_delay_ms(1), Some(250));
    assert_eq!(transport_retry_delay_ms(2), Some(250));
    assert_eq!(transport_retry_delay_ms(3), None);
    assert_eq!(transport_retry_delay_ms(100), None);
}
