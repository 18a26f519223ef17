use tss_network::signing_room::{SigningRoom, PING_TIMEOUT};
use tss_network::manager::signup_sign;
use tss_network::types::PartySignupRequestBody;

fn req(threshold: u16, room_id: &str, party_number: u16, party_uuid: &str) -> PartySignupRequestBody {
    PartySignupRequestBody {
        threshold,
        room_id: room_id.to_string(),
        party_number,
        party_uuid: party_uuid.to_string(),
    }
}

#[test]
fn fresh_room_assigns_first_slot() {
    let r = req(1, "room-a", 7, "");
    let (room, answer) = signup_sign(&r, None, 1000, "ROOM-UUID".to_string(), "P7".to_string());
    let s = answer.expect("new signup must succeed");
    assert_eq!(s.party_order, 1);
    assert_eq!(s.party_uuid, "P7");
    assert_eq!(s.total_joined, 1);
    // The room is not full yet: the room uuid is withheld.
    assert_eq!(s.room_uuid, "");
    assert_eq!(room.room_size, 2);
    assert_eq!(room.member_info.len(), 1);
    assert_eq!(room.last_stage, "signup");
}

#[test]
fn room_uuid_is_released_when_full_and_room_closes() {
    let r1 = req(1, "room-b", 1, "");
    let (room1, _) = signup_sign(&r1, None, 1000, "RU".to_string(), "PA".to_string());
    let r2 = req(1, "room-b", 2, "");
    let (room2, a2) = signup_sign(&r2, Some(room1), 1001, "other".to_string(), "PB".to_string());
    let s2 = a2.expect("second signup must succeed");
    assert_eq!(s2.party_order, 2);
    assert_eq!(s2.room_uuid, "RU");
    assert_eq!(s2.total_joined, 2);
    // The room stays open until a member's next ping finds it full.
    assert_eq!(room2.last_stage, "signup");
    let r1again = req(1, "room-b", 1, "PA");
    let (room3, a3) = signup_sign(&r1again, Some(room2), 1002, "x".to_string(), "y".to_string());
    let s3 = a3.expect("re-ping must succeed");
    assert_eq!(s3.room_uuid, "RU");
    assert_eq!(room3.last_stage, "closed");
}

#[test]
fn party_orders_are_a_permutation_of_one_to_count() {
    let mut room = SigningRoom::new("room-c".to_string(), 3, "RU".to_string());
    room.add_party(5, "P5".to_string(), 10).unwrap();
    room.add_party(2, "P2".to_string(), 11).unwrap();
    room.add_party(9, "P9".to_string(), 12).unwrap();
    let mut orders: Vec<u16> = room.member_info.iter().map(|m| m.1.party_order).collect();
    orders.sort();
    assert_eq!(orders, vec![1, 2, 3]);
}

#[test]
fn full_room_with_active_members_refuses_new_signup() {
    let r1 = req(0, "room-d", 1, "");
    let (room1, a1) = signup_sign(&r1, None, 1000, "RU".to_string(), "PA".to_string());
    assert!(a1.is_ok());
    // Size is threshold + 1 = 1: the room is already full and its member is
    // active; a new signup from another party is refused.
    let r2 = req(0, "room-d", 2, "");
    let (_, a2) = signup_sign(&r2, Some(room1), 1001, "other".to_string(), "PB".to_string());
    assert_eq!(a2.unwrap_err().error, "Room is full, all members active");
}

#[test]
fn closed_room_with_live_members_refuses_strangers() {
    let r1 = req(0, "room-e", 1, "");
    let (room1, _) = signup_sign(&r1, None, 1000, "RU".to_string(), "PA".to_string());
    // The member's next ping finds the room full and closes it.
    let ping = req(0, "room-e", 1, "PA");
    let (room2, a) = signup_sign(&ping, Some(room1), 1001, "x".to_string(), "y".to_string());
    assert!(a.is_ok());
    assert_eq!(room2.last_stage, "closed");
    // Before PING_TIMEOUT passes, a stranger is told the signup is over.
    let r2 = req(0, "room-e", 2, "");
    let (_, a2) = signup_sign(
        &r2,
        Some(room2),
        1001 + PING_TIMEOUT,
        "other".to_string(),
        "PB".to_string(),
    );
    assert_eq!(a2.unwrap_err().error, "Room signup phase is terminated");
}

#[test]
fn closed_room_with_all_members_inactive_is_recreated() {
    let r1 = req(0, "room-f", 1, "");
    let (room1, _) = signup_sign(&r1, None, 1000, "RU1".to_string(), "PA".to_string());
    let ping = req(0, "room-f", 1, "PA");
    let (room1b, _) = signup_sign(&ping, Some(room1), 1001, "x".to_string(), "y".to_string());
    assert_eq!(room1b.last_stage, "closed");
    // After the timeout every member is inactive: a fresh signup succeeds in
    // a recreated room under a new uuid.
    let r2 = req(0, "room-f", 2, "");
    let (room2, a2) = signup_sign(
        &r2,
        Some(room1b),
        1001 + PING_TIMEOUT + 1,
        "RU2".to_string(),
        "PB".to_string(),
    );
    let s2 = a2.expect("signup into recreated room must succeed");
    assert_eq!(s2.party_order, 1);
    assert_eq!(room2.room_uuid, "RU2");
    assert_eq!(room2.member_info.len(), 1);
}

#[test]
fn reping_refreshes_the_slot() {
    let r1 = req(1, "room-g", 4, "");
    let (room1, a1) = signup_sign(&r1, None, 1000, "RU".to_string(), "P4".to_string());
    let s1 = a1.unwrap();
    let r2 = req(1, "room-g", 4, &s1.party_uuid);
    let (room2, a2) = signup_sign(&r2, Some(room1), 1020, "x".to_string(), "y".to_string());
    let s2 = a2.expect("re-ping must succeed");
    assert_eq!(s2.party_order, 1);
    assert_eq!(s2.party_uuid, "P4");
    assert_eq!(room2.member_info[0].1.last_ping, 1020);
}

#[test]
fn reping_of_replaced_slot_is_refused() {
    let r1 = req(1, "room-h", 4, "");
    let (room1, _) = signup_sign(&r1, None, 1000, "RU".to_string(), "P4".to_string());
    let r2 = req(1, "room-h", 4, "stale-uuid");
    let (_, a2) = signup_sign(&r2, Some(room1), 1001, "x".to_string(), "y".to_string());
    assert_eq!(
        a2.unwrap_err().error,
        "No party found with the given uuid, probably replaced due to timeout"
    );
}

#[test]
fn timed_out_party_is_replaced_under_fresh_uuid() {
    let r1 = req(1, "room-i", 4, "");
    let (room1, a1) = signup_sign(&r1, None, 1000, "RU".to_string(), "OLD".to_string());
    let s1 = a1.unwrap();
    assert_eq!(s1.party_uuid, "OLD");
    // The same party number signs up anew after its slot timed out.
    let r2 = req(1, "room-i", 4, "");
    let (room2, a2) = signup_sign(
        &r2,
        Some(room1),
        1000 + PING_TIMEOUT + 1,
        "x".to_string(),
        "NEW".to_string(),
    );
    let s2 = a2.expect("replacement must succeed");
    assert_eq!(s2.party_order, 1);
    assert_eq!(s2.party_uuid, "NEW");
    assert_eq!(room2.member_info[0].1.party_id, "NEW");
}

#[test]
fn resignup_of_active_party_is_ignored() {
    let r1 = req(1, "room-j", 4, "");
    let (room1, _) = signup_sign(&r1, None, 1000, "RU".to_string(), "P4".to_string());
    let r2 = req(1, "room-j", 4, "");
    let (_, a2) = signup_sign(&r2, Some(room1), 1001, "x".to_string(), "y".to_string());
    assert_eq!(
        a2.unwrap_err().error,
        "Received a re-signup request for an active party. Request ignored"
    );
}

#[test]
fn is_full_and_close_signup_window() {
    let mut room = SigningRoom::new("room-k".to_string(), 2, "RU".to_string());
    assert!(!room.is_full());
    room.close_signup_window();
    assert_eq!(room.last_stage, "signup");
    room.add_party(1, "A".to_string(), 5).unwrap();
    room.add_party(2, "B".to_string(), 6).unwrap();
    assert!(room.is_full());
    let refused = room.add_party(3, "C".to_string(), 7);
    assert_eq!(refused.unwrap_err().error, "Room is full");
    room.close_signup_window();
    assert_eq!(room.last_stage, "closed");
}

#[test]
fn update_ping_unknown_party_fails() {
    let mut room = SigningRoom::new("room-l".to_string(), 2, "RU".to_string());
    let r = room.update_ping(9, 100);
    assert_eq!(r.unwrap_err().error, "Party not found");
}
