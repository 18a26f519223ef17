//! Coordinator control plane: the relay that carries round messages, room
//! signup for signing and key generation, and admission of client requests.
//!
//! Everything here is pure state transformation. Time and fresh uuids enter
//! as arguments; the surrounding process supplies them and persists the
//! returned state.

use vstd::prelude::*;

use crate::error::TssError;
use crate::signing_room::{SigningPartyInfo, SigningRoom};
use crate::types::{
    Entry, Index, KeyGenRequest, KeyGenRequestDTO, KeyGenParams, ManagerError, PartySignup,
    PartySignupRequestBody, SigningPartySignup, SigningRequest,
};
use crate::MAX_MESSAGE_SIZE;

verus! {

/// The relay: a mapping from formatted round keys to opaque payloads.
/// Entries are kept as a list with distinct keys.
pub struct RelayStore {
    pub entries: Vec<Entry>,
}

impl RelayStore {
    /// Keys are distinct.
    pub open spec fn wf(self) -> bool {
        forall|i: int, j: int|
            0 <= i < j < self.entries@.len() ==> (#[trigger] self.entries@[i]).key@ != (
            #[trigger] self.entries@[j]).key@
    }

    pub open spec fn spec_contains_key(self, k: Seq<char>) -> bool {
        exists|i: int| 0 <= i < self.entries@.len() && (#[trigger] self.entries@[i]).key@ == k
    }

    pub open spec fn key_index(self, k: Seq<char>) -> int {
        choose|i: int| 0 <= i < self.entries@.len() && (#[trigger] self.entries@[i]).key@ == k
    }

    pub open spec fn value_of(self, k: Seq<char>) -> Seq<char> {
        self.entries@[self.key_index(k)].value@
    }

    /// The relay as a mathematical map from keys to payloads.
    pub open spec fn as_map(self) -> Map<Seq<char>, Seq<char>> {
        Map::new(|k: Seq<char>| self.spec_contains_key(k), |k: Seq<char>| self.value_of(k))
    }

    /// An empty relay.
    pub fn new() -> (r: RelayStore)
        ensures
            r.wf(),
            r.as_map() == Map::<Seq<char>, Seq<char>>::empty(),
    {
        let r = RelayStore { entries: Vec::new() };
        proof {
            assert(r.as_map() =~= Map::<Seq<char>, Seq<char>>::empty());
        }
        r
    }

    /// Position of the entry filed under `key`, if any.
    fn find_key(&self, key: &String) -> (r: Option<usize>)
        requires
            self.wf(),
        ensures
            match r {
                Some(i) => self.spec_contains_key(key@) && 0 <= i < self.entries@.len()
                    && self.entries@[i as int].key@ == key@ && self.key_index(key@) == i,
                None => !self.spec_contains_key(key@),
            },
    {
        let n = self.entries.len();
        let mut i: usize = 0;
        while i < n
            invariant
                self.wf(),
                n == self.entries@.len(),
                0 <= i <= n,
                forall|j: int| 0 <= j < i ==> (#[trigger] self.entries@[j]).key@ != key@,
            decreases n - i,
        {
            if self.entries[i].key == *key {
                proof {
                    assert(self.spec_contains_key(key@));
                    let j = self.key_index(key@);
                    assert(0 <= j < self.entries@.len() && self.entries@[j].key@ == key@);
                    if j != i as int {
                        if j < i as int {
                            assert(self.entries@[j].key@ != self.entries@[i as int].key@);
                        } else {
                            assert(self.entries@[i as int].key@ != self.entries@[j].key@);
                        }
                    }
                }
                return Some(i);
            }
            i += 1;
        }
        None
    }

    /// Files `entry` under its key, overwriting any earlier payload: an
    /// insert-or-overwrite, so repeating a `set` is harmless and the latest
    /// payload wins.
    pub fn set(&mut self, entry: Entry)
        requires
            old(self).wf(),
        ensures
            final(self).wf(),
            final(self).as_map() == old(self).as_map().insert(entry.key@, entry.value@),
    {
        let ghost old_self = *self;
        let ghost ek = entry.key@;
        let ghost ev = entry.value@;
        match self.find_key(&entry.key) {
            Some(i) => {
                self.entries.set(i, entry);
                proof {
                    let es = self.entries@;
                    assert forall|p: int, q: int| 0 <= p < q < es.len() implies (
                    #[trigger] es[p]).key@ != (#[trigger] es[q]).key@ by {
                        assert(old_self.entries@[p].key@ != old_self.entries@[q].key@);
                    }
                    assert(self.as_map() =~= old_self.as_map().insert(ek, ev)) by {
                        lemma_relay_update(old_self, *self, i as int, ek, ev);
                    }
                }
            },
            None => {
                self.entries.push(entry);
                proof {
                    let es = self.entries@;
                    assert forall|p: int, q: int| 0 <= p < q < es.len() implies (
                    #[trigger] es[p]).key@ != (#[trigger] es[q]).key@ by {
                        if q < es.len() - 1 {
                            assert(old_self.entries@[p].key@ != old_self.entries@[q].key@);
                        } else {
                            assert(old_self.entries@[p].key@ != ek);
                        }
                    }
                    assert(self.as_map() =~= old_self.as_map().insert(ek, ev)) by {
                        lemma_relay_push(old_self, *self, ek, ev);
                    }
                }
            },
        }
    }

    /// Looks the key up; an absent key answers the "Key not found" error.
    pub fn get(&self, index: &Index) -> (r: Result<Entry, ManagerError>)
        requires
            self.wf(),
        ensures
            self.spec_contains_key(index.key@) ==> (r matches Ok(e) && e.key@ == index.key@
                && e.value@ == self.as_map()[index.key@]),
            !self.spec_contains_key(index.key@) ==> (r matches Err(e) && e.error@
                == "Key not found"@),
    {
        proof {
            reveal_strlit("Key not found");
        }
        match self.find_key(&index.key) {
            Some(i) => Ok(
                Entry {
                    key: self.entries[i].key.clone(),
                    value: self.entries[i].value.clone(),
                },
            ),
            None => Err(ManagerError { error: String::from_str("Key not found") }),
        }
    }
}

/// After overwriting position `i` (whose key was already `ek`) with the
/// payload `ev`, the relay's map is the old map with `ek` bound to `ev`.
proof fn lemma_relay_update(pre: RelayStore, post: RelayStore, i: int, ek: Seq<char>, ev: Seq<char>)
    requires
        pre.wf(),
        post.wf(),
        0 <= i < pre.entries@.len(),
        pre.entries@[i].key@ == ek,
        post.entries@ == pre.entries@.update(i, (Entry { key: post.entries@[i].key, value: post.entries@[i].value })),
        post.entries@[i].key@ == ek,
        post.entries@[i].value@ == ev,
    ensures
        post.as_map() =~= pre.as_map().insert(ek, ev),
{
    assert forall|k: Seq<char>| post.spec_contains_key(k) implies pre.as_map().insert(
        ek,
        ev,
    ).dom().contains(k) by {
        let j = choose|j: int|
            0 <= j < post.entries@.len() && (#[trigger] post.entries@[j]).key@ == k;
        if j == i {
            assert(k == ek);
        } else {
            assert(pre.entries@[j].key@ == k);
            assert(pre.spec_contains_key(k));
        }
    }
    assert forall|k: Seq<char>| pre.as_map().insert(ek, ev).dom().contains(k) implies
        post.spec_contains_key(k) by {
        if k == ek {
            assert(post.entries@[i].key@ == k);
        } else {
            let j = choose|j: int|
                0 <= j < pre.entries@.len() && (#[trigger] pre.entries@[j]).key@ == k;
            assert(post.entries@[j].key@ == k);
        }
    }
    assert forall|k: Seq<char>| post.spec_contains_key(k) implies post.value_of(k)
        == pre.as_map().insert(ek, ev)[k] by {
        let j = post.key_index(k);
        assert(0 <= j < post.entries@.len() && post.entries@[j].key@ == k);
        lemma_key_index_unique(post, j, k);
        if k == ek {
            if j != i {
                assert(post.entries@[j].key@ != post.entries@[i].key@ || j == i);
                assert(false);
            }
            assert(post.value_of(k) == ev);
        } else {
            assert(j != i);
            assert(pre.entries@[j].key@ == k);
            let jp = pre.key_index(k);
            assert(pre.spec_contains_key(k));
            assert(0 <= jp < pre.entries@.len() && pre.entries@[jp].key@ == k);
            lemma_key_index_unique(pre, jp, k);
            assert(jp == j);
            assert(pre.as_map()[k] == pre.entries@[j].value@);
            assert(post.value_of(k) == post.entries@[j].value@);
            assert(post.entries@[j].value@ == pre.entries@[j].value@);
        }
    }
}

/// After appending a fresh key `ek` with payload `ev`, the relay's map is the
/// old map with `ek` bound to `ev`.
proof fn lemma_relay_push(pre: RelayStore, post: RelayStore, ek: Seq<char>, ev: Seq<char>)
    requires
        pre.wf(),
        post.wf(),
        !pre.spec_contains_key(ek),
        post.entries@.len() == pre.entries@.len() + 1,
        forall|j: int| 0 <= j < pre.entries@.len() ==> post.entries@[j] == pre.entries@[j],
        post.entries@[pre.entries@.len() as int].key@ == ek,
        post.entries@[pre.entries@.len() as int].value@ == ev,
    ensures
        post.as_map() =~= pre.as_map().insert(ek, ev),
{
    let n = pre.entries@.len() as int;
    assert forall|k: Seq<char>| post.spec_contains_key(k) implies pre.as_map().insert(
        ek,
        ev,
    ).dom().contains(k) by {
        let j = choose|j: int|
            0 <= j < post.entries@.len() && (#[trigger] post.entries@[j]).key@ == k;
        if j == n {
            assert(k == ek);
        } else {
            assert(pre.entries@[j].key@ == k);
            assert(pre.spec_contains_key(k));
        }
    }
    assert forall|k: Seq<char>| pre.as_map().insert(ek, ev).dom().contains(k) implies
        post.spec_contains_key(k) by {
        if k == ek {
            assert(post.entries@[n].key@ == k);
        } else {
            let j = choose|j: int|
                0 <= j < pre.entries@.len() && (#[trigger] pre.entries@[j]).key@ == k;
            assert(post.entries@[j].key@ == k);
        }
    }
    assert forall|k: Seq<char>| post.spec_contains_key(k) implies post.value_of(k)
        == pre.as_map().insert(ek, ev)[k] by {
        let j = post.key_index(k);
        assert(0 <= j < post.entries@.len() && post.entries@[j].key@ == k);
        lemma_key_index_unique(post, j, k);
        if k == ek {
            if j != n {
                assert(pre.entries@[j].key@ == ek);
                assert(false);
            }
            assert(post.value_of(k) == ev);
        } else {
            assert(j != n);
            assert(pre.entries@[j].key@ == k);
            let jp = pre.key_index(k);
            assert(pre.spec_contains_key(k));
            assert(0 <= jp < pre.entries@.len() && pre.entries@[jp].key@ == k);
            lemma_key_index_unique(pre, jp, k);
            assert(post.value_of(k) == post.entries@[j].value@);
        }
    }
}

/// In a well-formed relay the witness of a key is unique, so `key_index`
/// names exactly the position that holds it.
proof fn lemma_key_index_unique(store: RelayStore, i: int, k: Seq<char>)
    requires
        store.wf(),
        0 <= i < store.entries@.len(),
        store.entries@[i].key@ == k,
    ensures
        store.key_index(k) == i,
{
    assert(store.spec_contains_key(k));
    let j = store.key_index(k);
    assert(0 <= j < store.entries@.len() && store.entries@[j].key@ == k);
    if j != i {
        if j < i {
            assert(store.entries@[j].key@ != store.entries@[i].key@);
        } else {
            assert(store.entries@[i].key@ != store.entries@[j].key@);
        }
    }
}

/// Filing a payload and reading it back yields that payload, and filing the
/// same key twice keeps only the latest payload: the relay is idempotent and
/// last-writer-wins, stated over the relay's map model that `RelayStore::set`
/// and `RelayStore::get` are specified against.
pub proof fn lemma_relay_set_get(
    m: Map<Seq<char>, Seq<char>>,
    k: Seq<char>,
    v1: Seq<char>,
    v2: Seq<char>,
)
    ensures
        m.insert(k, v1)[k] == v1,
        m.insert(k, v1).insert(k, v2) == m.insert(k, v2),
        m.insert(k, v1).insert(k, v1) == m.insert(k, v1),
{
    assert(m.insert(k, v1).insert(k, v2) =~= m.insert(k, v2));
    assert(m.insert(k, v1).insert(k, v1) =~= m.insert(k, v1));
}

/// The rolling keygen signup counter: ordinals `1..=parties` are handed out
/// in turn under one session uuid; when the count is exhausted a new session
/// starts at ordinal 1 under the fresh uuid.
pub fn signup_keygen(parties: u16, existing: Option<PartySignup>, fresh_uuid: String) -> (r:
    PartySignup)
    requires
        parties >= 1,
    ensures
        1 <= r.number <= parties,
        match existing {
            None => r.number == 1 && r.uuid@ == fresh_uuid@,
            Some(prev) => if prev.number < parties {
                r.number == prev.number + 1 && r.uuid == prev.uuid
            } else {
                r.number == 1 && r.uuid@ == fresh_uuid@
            },
        },
{
    match existing {
        None => PartySignup { number: 1, uuid: fresh_uuid },
        Some(prev) => {
            if prev.number < parties {
                PartySignup { number: prev.number + 1, uuid: prev.uuid }
            } else {
                PartySignup { number: 1, uuid: fresh_uuid }
            }
        },
    }
}

/// The request announces a new signup (empty slot uuid) rather than a
/// re-ping of a slot already held.
pub open spec fn new_request_spec(req: PartySignupRequestBody) -> bool {
    req.party_uuid@.len() == 0
}

/// The stored room answers the call unchanged: its signup stage is over and
/// the caller already holds a slot in it.
pub open spec fn answers_stored(
    existing: Option<SigningRoom>,
    req: PartySignupRequestBody,
) -> bool {
    existing matches Some(prev) && !prev.stage_is_signup() && prev.spec_has_member(
        req.party_number,
        req.party_uuid@,
    )
}

/// The stored room refuses the call: its signup stage is over, the caller
/// holds no slot, and at least one member is still alive.
pub open spec fn answers_terminated(
    existing: Option<SigningRoom>,
    req: PartySignupRequestBody,
    now: u64,
) -> bool {
    existing matches Some(prev) && !prev.stage_is_signup() && !prev.spec_has_member(
        req.party_number,
        req.party_uuid@,
    ) && !prev.spec_all_inactive(now)
}

/// The call is served from a fresh room: none was stored, or the stored one
/// is past signup, the caller holds no slot in it, and every member has gone
/// silent, so the room is torn down and recreated under a new uuid.
pub open spec fn starts_fresh(
    existing: Option<SigningRoom>,
    req: PartySignupRequestBody,
    now: u64,
) -> bool {
    match existing {
        None => true,
        Some(prev) => !prev.stage_is_signup() && !prev.spec_has_member(
            req.party_number,
            req.party_uuid@,
        ) && prev.spec_all_inactive(now),
    }
}

/// The call is served from the stored room, still in its signup stage.
pub open spec fn reuses_existing(existing: Option<SigningRoom>, req: PartySignupRequestBody) -> bool {
    existing matches Some(prev) && prev.stage_is_signup()
}

/// `room` carries the identity a freshly created room for this request
/// would: the request's room id, the fresh uuid, and `threshold + 1` slots.
pub open spec fn is_fresh_room(
    room: SigningRoom,
    req: PartySignupRequestBody,
    room_uuid: Seq<char>,
) -> bool {
    &&& room.room_id@ == req.room_id@
    &&& room.room_uuid@ == room_uuid
    &&& room.room_size == req.threshold + 1
}

/// The resulting room `post` is `pre` with the slot of the caller updated to
/// `info`; everything else about the room is kept.
pub open spec fn slot_updated(
    pre: SigningRoom,
    post: SigningRoom,
    party_number: u16,
    info: SigningPartyInfo,
) -> bool {
    &&& post.member_info@ == pre.member_info@.update(
        pre.party_index(party_number),
        (party_number, info),
    )
    &&& post.room_id == pre.room_id
    &&& post.room_uuid == pre.room_uuid
    &&& post.room_size == pre.room_size
}

/// The answer `s` grants the caller the slot `info` of `room`.
pub open spec fn grants_slot(
    s: SigningPartySignup,
    room: SigningRoom,
    info: SigningPartyInfo,
) -> bool {
    &&& s.party_order == info.party_order
    &&& s.party_uuid@ == info.party_id@
    &&& s.room_uuid@ == room.spec_visible_uuid()
    &&& s.total_joined == room.member_info@.len()
}

/// One signing-room signup step, the decision core of the coordinator's
/// signup endpoint. `existing` is the stored room for this `room_id`, if
/// any; `now` is the current epoch second; the two fresh uuids are consumed
/// only where a room is (re)created or a slot is (re)assigned. Returns the
/// room to persist and the answer for the caller; on an error the room is
/// returned as it was stored.
pub fn signup_sign(
    req: &PartySignupRequestBody,
    existing: Option<SigningRoom>,
    now: u64,
    fresh_room_uuid: String,
    fresh_party_uuid: String,
) -> (r: (SigningRoom, Result<SigningPartySignup, ManagerError>))
    requires
        req.threshold < u16::MAX,
        existing matches Some(prev) ==> prev.wf(),
    ensures
        r.0.wf(),
        // A member of a room past signup is answered its stored slot.
        answers_stored(existing, *req) ==> (existing matches Some(prev) && r.0 == prev && (
        r.1 matches Ok(s) && grants_slot(s, prev, prev.party_info(req.party_number)))),
        // A stranger to a room past signup with a live member is refused.
        answers_terminated(existing, *req, now) ==> (existing matches Some(prev) && r.0 == prev
            && (r.1 matches Err(e) && e.error@ == "Room signup phase is terminated"@)),
        // A fresh room: a new signup takes slot 1; a re-ping of a slot that
        // no longer exists is refused.
        starts_fresh(existing, *req, now) && new_request_spec(*req) ==> {
            &&& is_fresh_room(r.0, *req, fresh_room_uuid@)
            &&& r.0.member_info@ == Seq::<(u16, SigningPartyInfo)>::empty().push(
                (
                    req.party_number,
                    SigningPartyInfo {
                        party_id: fresh_party_uuid,
                        party_order: 1,
                        last_ping: now,
                    },
                ),
            )
            &&& r.0.stage_is_signup()
            &&& (r.1 matches Ok(s) && s.party_order == 1 && s.party_uuid@ == fresh_party_uuid@
                && s.total_joined == 1 && s.room_uuid@ == r.0.spec_visible_uuid())
        },
        starts_fresh(existing, *req, now) && !new_request_spec(*req) ==> (is_fresh_room(
            r.0,
            *req,
            fresh_room_uuid@,
        ) && r.0.member_info@.len() == 0 && r.0.stage_is_signup() && (r.1 matches Err(e)
            && e.error@
            == "No party found with the given uuid, probably replaced due to timeout"@)),
        // The stored room is still signing up: the eight dispositions below.
        reuses_existing(existing, *req) ==> (existing matches Some(prev) && {
            let full_active = prev.spec_is_full() && prev.spec_all_active(now);
            let has_member = prev.spec_has_member(req.party_number, req.party_uuid@);
            let has_party = prev.has_party(req.party_number);
            if full_active && new_request_spec(*req) {
                // A full and fully live room admits nobody new.
                r.0 == prev && (r.1 matches Err(e) && e.error@
                    == "Room is full, all members active"@)
            } else if !new_request_spec(*req) {
                if has_member {
                    // A re-ping refreshes the caller's slot.
                    slot_updated(
                        prev,
                        r.0,
                        req.party_number,
                        SigningPartyInfo {
                            party_id: prev.party_info(req.party_number).party_id,
                            party_order: prev.party_info(req.party_number).party_order,
                            last_ping: now,
                        },
                    ) && (prev.spec_is_full() ==> r.0.last_stage@ == "closed"@) && (
                    !prev.spec_is_full() ==> r.0.last_stage == prev.last_stage) && (
                    r.1 matches Ok(s) && s.party_order == prev.party_info(
                        req.party_number,
                    ).party_order && s.party_uuid@ == prev.party_info(req.party_number).party_id@
                        && s.room_uuid@ == r.0.spec_visible_uuid() && s.total_joined
                        == prev.member_info@.len())
                } else {
                    // A re-ping of a slot this caller no longer holds.
                    r.0 == prev && (r.1 matches Err(e) && e.error@
                        == "No party found with the given uuid, probably replaced due to timeout"@)
                }
            } else if has_party {
                if crate::signing_room::party_active(prev.party_info(req.party_number), now) {
                    // A live slot is not signed up a second time.
                    r.0 == prev && (r.1 matches Err(e) && e.error@
                        == "Received a re-signup request for an active party. Request ignored"@)
                } else {
                    // A timed-out slot goes back to its party under a new uuid.
                    slot_updated(
                        prev,
                        r.0,
                        req.party_number,
                        SigningPartyInfo {
                            party_id: fresh_party_uuid,
                            party_order: prev.party_info(req.party_number).party_order,
                            last_ping: now,
                        },
                    ) && r.0.last_stage == prev.last_stage && (r.1 matches Ok(s)
                        && s.party_order == prev.party_info(req.party_number).party_order
                        && s.party_uuid@ == fresh_party_uuid@ && s.room_uuid@
                        == r.0.spec_visible_uuid() && s.total_joined == prev.member_info@.len())
                }
            } else if !prev.spec_is_full() {
                // A new party takes the next free slot.
                {
                    &&& r.0.member_info@ == prev.member_info@.push(
                        (
                            req.party_number,
                            SigningPartyInfo {
                                party_id: fresh_party_uuid,
                                party_order: (prev.member_info@.len() + 1) as u16,
                                last_ping: now,
                            },
                        ),
                    )
                    &&& r.0.room_id == prev.room_id
                    &&& r.0.room_uuid == prev.room_uuid
                    &&& r.0.room_size == prev.room_size
                    &&& r.0.last_stage == prev.last_stage
                    &&& (r.1 matches Ok(s) && s.party_order == prev.member_info@.len() + 1
                        && s.party_uuid@ == fresh_party_uuid@ && s.room_uuid@
                        == r.0.spec_visible_uuid() && s.total_joined == prev.member_info@.len()
                        + 1)
                }
            } else {
                // Full, but not every member live: still no room for a new
                // party number.
                r.0 == prev && (r.1 matches Err(e) && e.error@ == "Room is full"@)
            }
        }),
{
    proof {
        reveal_strlit("Room signup phase is terminated");
        reveal_strlit("Room is full, all members active");
        reveal_strlit("No party found with the given uuid, probably replaced due to timeout");
        reveal_strlit("Received a re-signup request for an active party. Request ignored");
    }
    let new_request = req.party_uuid.as_str().is_empty();
    let mut room = match existing {
        Some(prev) => {
            if !prev.stage_signup() {
                if prev.has_member(req.party_number, &req.party_uuid) {
                    let info = prev.get_signup_info(req.party_number);
                    return (prev, Ok(info));
                }
                if prev.are_all_members_inactive(now) {
                    SigningRoom::new(req.room_id.clone(), req.threshold + 1, fresh_room_uuid)
                } else {
                    return (
                        prev,
                        Err(
                            ManagerError {
                                error: String::from_str("Room signup phase is terminated"),
                            },
                        ),
                    );
                }
            } else {
                prev
            }
        },
        None => SigningRoom::new(req.room_id.clone(), req.threshold + 1, fresh_room_uuid),
    };
    if room.is_full() && room.are_all_members_active(now) && new_request {
        return (
            room,
            Err(ManagerError { error: String::from_str("Room is full, all members active") }),
        );
    }
    let outcome: Result<SigningPartySignup, ManagerError> = if !new_request {
        if !room.has_member(req.party_number, &req.party_uuid) {
            return (
                room,
                Err(
                    ManagerError {
                        error: String::from_str(
                            "No party found with the given uuid, probably replaced due to timeout",
                        ),
                    },
                ),
            );
        }
        let pinged = room.update_ping(req.party_number, now);
        room.close_signup_window();
        pinged
    } else if room.find_party(req.party_number).is_some() {
        if room.is_member_active(req.party_number, now) {
            return (
                room,
                Err(
                    ManagerError {
                        error: String::from_str(
                            "Received a re-signup request for an active party. Request ignored",
                        ),
                    },
                ),
            );
        }
        Ok(room.replace_party(req.party_number, fresh_party_uuid, now))
    } else {
        room.add_party(req.party_number, fresh_party_uuid, now)
    };
    match outcome {
        Ok(info) => (room, Ok(info)),
        Err(e) => (room, Err(e)),
    }
}

/// Admits a client signing request: an oversized message is refused with
/// nothing stored or queued, any other message becomes a job under the fresh
/// request id.
pub fn make_signing_request(message: Vec<u8>, fresh_id: String) -> (r: Result<
    SigningRequest,
    TssError,
>)
    ensures
        message@.len() > MAX_MESSAGE_SIZE ==> r == Err::<SigningRequest, TssError>(
            TssError::MessageTooLarge,
        ),
        message@.len() <= MAX_MESSAGE_SIZE ==> (r matches Ok(req) && req.id == fresh_id
            && req.message == message),
{
    if message.len() > MAX_MESSAGE_SIZE {
        return Err(TssError::MessageTooLarge);
    }
    Ok(SigningRequest { id: fresh_id, message })
}

/// Admits an administrator's key-generation request: a threshold above the
/// party count is refused.
pub fn make_keygen_request(dto: &KeyGenRequestDTO, fresh_id: String) -> (r: Result<
    KeyGenRequest,
    TssError,
>)
    ensures
        dto.threshold > dto.total_parties ==> r == Err::<KeyGenRequest, TssError>(
            TssError::InvalidThreshold(dto.threshold),
        ),
        dto.threshold <= dto.total_parties ==> (r matches Ok(req) && req.id == fresh_id
            && req.keygen_params == (KeyGenParams {
                parties: dto.total_parties,
                threshold: dto.threshold,
            })),
{
    if dto.threshold > dto.total_parties {
        return Err(TssError::InvalidThreshold(dto.threshold));
    }
    Ok(
        KeyGenRequest {
            id: fresh_id,
            keygen_params: KeyGenParams { parties: dto.total_parties, threshold: dto.threshold },
        },
    )
}

} // verus!
