//! Per-message signing rooms: slot assignment, liveness and the signup
//! barrier. A room is addressed by the hash of the message; its uuid is
//! handed out only once `size` parties hold slots, and the signup window
//! closes on the first ping that finds the room full.

use vstd::prelude::*;

use crate::types::{ManagerError, SigningPartySignup};

verus! {

/// Seconds a member may stay silent before its slot counts as inactive.
pub const PING_TIMEOUT: u64 = 30;

/// One member's slot: its uuid, its room ordinal and its last sign of life.
#[derive(Clone, Debug, PartialEq)]
pub struct SigningPartyInfo {
    pub party_id: String,
    pub party_order: u16,
    pub last_ping: u64,
}

/// A signing room. `member_info` associates a party number with its slot;
/// entries are kept in signup order, so the slot at position `i` holds
/// `party_order == i + 1`.
#[derive(Clone, Debug, PartialEq)]
pub struct SigningRoom {
    pub room_id: String,
    pub room_uuid: String,
    pub room_size: u16,
    pub member_info: Vec<(u16, SigningPartyInfo)>,
    pub last_stage: String,
}

/// A slot is active at `now` when its last ping is no older than
/// `PING_TIMEOUT` seconds.
pub open spec fn party_active(info: SigningPartyInfo, now: u64) -> bool {
    now <= info.last_ping + PING_TIMEOUT
}

impl SigningRoom {
    /// Well-formedness: no more members than the size, party numbers are
    /// distinct, and the slot at position `i` holds order `i + 1`.
    pub open spec fn wf(self) -> bool {
        &&& self.member_info@.len() <= self.room_size as int
        &&& forall|i: int|
            0 <= i < self.member_info@.len() ==> (#[trigger] self.member_info@[i].1).party_order
                == i + 1
        &&& forall|i: int, j: int|
            0 <= i < j < self.member_info@.len() ==> (#[trigger] self.member_info@[i]).0 != (
            #[trigger] self.member_info@[j]).0
    }

    pub open spec fn stage_is_signup(self) -> bool {
        self.last_stage@ == "signup"@
    }

    pub open spec fn spec_is_full(self) -> bool {
        self.member_info@.len() >= self.room_size as int
    }

    pub open spec fn has_party(self, party_number: u16) -> bool {
        exists|i: int|
            0 <= i < self.member_info@.len() && (#[trigger] self.member_info@[i]).0 == party_number
    }

    pub open spec fn party_index(self, party_number: u16) -> int {
        choose|i: int|
            0 <= i < self.member_info@.len() && (#[trigger] self.member_info@[i]).0 == party_number
    }

    pub open spec fn party_info(self, party_number: u16) -> SigningPartyInfo {
        self.member_info@[self.party_index(party_number)].1
    }

    /// Party `party_number` holds a slot whose uuid is exactly `party_uuid`.
    pub open spec fn spec_has_member(self, party_number: u16, party_uuid: Seq<char>) -> bool {
        self.has_party(party_number) && self.party_info(party_number).party_id@ == party_uuid
    }

    pub open spec fn spec_all_active(self, now: u64) -> bool {
        forall|i: int|
            0 <= i < self.member_info@.len() ==> party_active(
                (#[trigger] self.member_info@[i]).1,
                now,
            )
    }

    pub open spec fn spec_all_inactive(self, now: u64) -> bool {
        forall|i: int|
            0 <= i < self.member_info@.len() ==> !party_active(
                (#[trigger] self.member_info@[i]).1,
                now,
            )
    }

    /// The room uuid as handed to signers: withheld (empty) until the room
    /// is full, which is the signup barrier the signers poll on.
    pub open spec fn spec_visible_uuid(self) -> Seq<char> {
        if self.spec_is_full() {
            self.room_uuid@
        } else {
            Seq::<char>::empty()
        }
    }

    /// A fresh room in the signup stage with no members.
    pub fn new(room_id: String, size: u16, room_uuid: String) -> (r: SigningRoom)
        ensures
            r.wf(),
            r.room_id@ == room_id@,
            r.room_uuid@ == room_uuid@,
            r.room_size == size,
            r.member_info@.len() == 0,
            r.stage_is_signup(),
    {
        proof {
            reveal_strlit("signup");
        }
        SigningRoom {
            room_id,
            room_uuid,
            room_size: size,
            member_info: Vec::new(),
            last_stage: String::from_str("signup"),
        }
    }

    pub fn is_full(&self) -> (r: bool)
        ensures
            r == self.spec_is_full(),
    {
        self.member_info.len() >= usize::from(self.room_size)
    }

    pub fn stage_signup(&self) -> (r: bool)
        ensures
            r == self.stage_is_signup(),
    {
        proof {
            reveal_strlit("signup");
        }
        self.last_stage == String::from_str("signup")
    }

    /// Position of the slot of `party_number`, if it holds one.
    pub fn find_party(&self, party_number: u16) -> (r: Option<usize>)
        requires
            self.wf(),
        ensures
            match r {
                Some(i) => self.has_party(party_number) && 0 <= i < self.member_info@.len()
                    && self.member_info@[i as int].0 == party_number && self.party_index(
                    party_number,
                ) == i,
                None => !self.has_party(party_number),
            },
    {
        let n = self.member_info.len();
        let mut i: usize = 0;
        while i < n
            invariant
                self.wf(),
                n == self.member_info@.len(),
                0 <= i <= n,
                forall|j: int| 0 <= j < i ==> (#[trigger] self.member_info@[j]).0 != party_number,
            decreases n - i,
        {
            if self.member_info[i].0 == party_number {
                proof {
                    assert(self.has_party(party_number));
                    let j = self.party_index(party_number);
                    assert(0 <= j < self.member_info@.len() && self.member_info@[j].0
                        == party_number);
                    if j != i as int {
                        if j < i as int {
                            assert(self.member_info@[j].0 != self.member_info@[i as int].0);
                        } else {
                            assert(self.member_info@[i as int].0 != self.member_info@[j].0);
                        }
                    }
                }
                return Some(i);
            }
            i += 1;
        }
        None
    }

    pub fn has_member(&self, party_number: u16, party_uuid: &String) -> (r: bool)
        requires
            self.wf(),
        ensures
            r == self.spec_has_member(party_number, party_uuid@),
    {
        match self.find_party(party_number) {
            Some(i) => self.member_info[i].1.party_id == *party_uuid,
            None => false,
        }
    }

    /// Whether the slot of `party_number` is active at `now`.
    pub fn is_member_active(&self, party_number: u16, now: u64) -> (r: bool)
        requires
            self.wf(),
            self.has_party(party_number),
        ensures
            r == party_active(self.party_info(party_number), now),
    {
        let i = self.find_party(party_number).unwrap();
        let last_ping = self.member_info[i].1.last_ping;
        if now <= last_ping {
            true
        } else {
            now - last_ping <= PING_TIMEOUT
        }
    }

    pub fn are_all_members_active(&self, now: u64) -> (r: bool)
        ensures
            r == self.spec_all_active(now),
    {
        let n = self.member_info.len();
        let mut i: usize = 0;
        while i < n
            invariant
                n == self.member_info@.len(),
                0 <= i <= n,
                forall|j: int|
                    0 <= j < i ==> party_active((#[trigger] self.member_info@[j]).1, now),
            decreases n - i,
        {
            let last_ping = self.member_info[i].1.last_ping;
            if now > last_ping && now - last_ping > PING_TIMEOUT {
                return false;
            }
            i += 1;
        }
        true
    }

    pub fn are_all_members_inactive(&self, now: u64) -> (r: bool)
        ensures
            r == self.spec_all_inactive(now),
    {
        let n = self.member_info.len();
        let mut i: usize = 0;
        while i < n
            invariant
                n == self.member_info@.len(),
                0 <= i <= n,
                forall|j: int|
                    0 <= j < i ==> !party_active((#[trigger] self.member_info@[j]).1, now),
            decreases n - i,
        {
            let last_ping = self.member_info[i].1.last_ping;
            if now <= last_ping || now - last_ping <= PING_TIMEOUT {
                return false;
            }
            i += 1;
        }
        true
    }

    /// The signup answer for an existing member: its stored order and uuid,
    /// the member count, and the room uuid only once the room is full.
    pub fn get_signup_info(&self, party_number: u16) -> (r: SigningPartySignup)
        requires
            self.wf(),
            self.has_party(party_number),
        ensures
            r.party_order == self.party_info(party_number).party_order,
            r.party_uuid@ == self.party_info(party_number).party_id@,
            r.room_uuid@ == self.spec_visible_uuid(),
            r.total_joined == self.member_info@.len(),
    {
        let i = self.find_party(party_number).unwrap();
        let visible_uuid = if self.is_full() {
            self.room_uuid.clone()
        } else {
            String::new()
        };
        SigningPartySignup {
            party_order: self.member_info[i].1.party_order,
            party_uuid: self.member_info[i].1.party_id.clone(),
            room_uuid: visible_uuid,
            total_joined: self.member_info.len() as u16,
        }
    }

    /// Admits a new party: refused when the room is full, otherwise the party
    /// receives the next free ordinal and `now` as its first sign of life.
    pub fn add_party(&mut self, party_number: u16, party_uuid: String, now: u64) -> (r: Result<
        SigningPartySignup,
        ManagerError,
    >)
        requires
            old(self).wf(),
            !old(self).has_party(party_number),
        ensures
            final(self).wf(),
            old(self).spec_is_full() ==> *final(self) == *old(self) && (r matches Err(e)
                && e.error@ == "Room is full"@),
            !old(self).spec_is_full() ==> {
                &&& final(self).member_info@ == old(self).member_info@.push(
                    (
                        party_number,
                        SigningPartyInfo {
                            party_id: party_uuid,
                            party_order: (old(self).member_info@.len() + 1) as u16,
                            last_ping: now,
                        },
                    ),
                )
                &&& final(self).room_id == old(self).room_id
                &&& final(self).room_uuid == old(self).room_uuid
                &&& final(self).room_size == old(self).room_size
                &&& final(self).last_stage == old(self).last_stage
                &&& r matches Ok(s) && s.party_order == old(self).member_info@.len() + 1
                    && s.party_uuid@ == party_uuid@
                    && s.room_uuid@ == final(self).spec_visible_uuid()
                    && s.total_joined == old(self).member_info@.len() + 1
            },
    {
        proof {
            reveal_strlit("Room is full");
        }
        if self.is_full() {
            return Err(ManagerError { error: String::from_str("Room is full") });
        }
        let party_order = self.member_info.len() as u16 + 1;
        let info = SigningPartyInfo { party_id: party_uuid.clone(), party_order, last_ping: now };
        self.member_info.push((party_number, info));
        let visible_uuid = if self.is_full() {
            self.room_uuid.clone()
        } else {
            String::new()
        };
        Ok(
            SigningPartySignup {
                party_order,
                party_uuid,
                room_uuid: visible_uuid,
                total_joined: self.member_info.len() as u16,
            },
        )
    }

    /// Records a sign of life for an existing member; everything else about
    /// its slot is kept.
    pub fn update_ping(&mut self, party_number: u16, now: u64) -> (r: Result<
        SigningPartySignup,
        ManagerError,
    >)
        requires
            old(self).wf(),
        ensures
            final(self).wf(),
            !old(self).has_party(party_number) ==> *final(self) == *old(self) && (r matches Err(e)
                && e.error@ == "Party not found"@),
            old(self).has_party(party_number) ==> {
                &&& final(self).member_info@ == old(self).member_info@.update(
                    old(self).party_index(party_number),
                    (
                        party_number,
                        SigningPartyInfo {
                            party_id: old(self).party_info(party_number).party_id,
                            party_order: old(self).party_info(party_number).party_order,
                            last_ping: now,
                        },
                    ),
                )
                &&& final(self).room_id == old(self).room_id
                &&& final(self).room_uuid == old(self).room_uuid
                &&& final(self).room_size == old(self).room_size
                &&& final(self).last_stage == old(self).last_stage
                &&& r matches Ok(s)
                    && s.party_order == old(self).party_info(party_number).party_order
                    && s.party_uuid@ == old(self).party_info(party_number).party_id@
                    && s.room_uuid@ == final(self).spec_visible_uuid()
                    && s.total_joined == old(self).member_info@.len()
            },
    {
        proof {
            reveal_strlit("Party not found");
        }
        let i = match self.find_party(party_number) {
            Some(i) => i,
            None => {
                return Err(ManagerError { error: String::from_str("Party not found") });
            },
        };
        let party_order = self.member_info[i].1.party_order;
        let party_id = self.member_info[i].1.party_id.clone();
        let updated = SigningPartyInfo { party_id: party_id.clone(), party_order, last_ping: now };
        self.member_info.set(i, (party_number, updated));
        let visible_uuid = if self.is_full() {
            self.room_uuid.clone()
        } else {
            String::new()
        };
        Ok(
            SigningPartySignup {
                party_order,
                party_uuid: party_id,
                room_uuid: visible_uuid,
                total_joined: self.member_info.len() as u16,
            },
        )
    }

    /// Hands the slot of a timed-out member back to it under a fresh uuid,
    /// keeping its ordinal.
    pub fn replace_party(&mut self, party_number: u16, fresh_uuid: String, now: u64) -> (r:
        SigningPartySignup)
        requires
            old(self).wf(),
            old(self).has_party(party_number),
        ensures
            final(self).wf(),
            final(self).member_info@ == old(self).member_info@.update(
                old(self).party_index(party_number),
                (
                    party_number,
                    SigningPartyInfo {
                        party_id: fresh_uuid,
                        party_order: old(self).party_info(party_number).party_order,
                        last_ping: now,
                    },
                ),
            ),
            final(self).room_id == old(self).room_id,
            final(self).room_uuid == old(self).room_uuid,
            final(self).room_size == old(self).room_size,
            final(self).last_stage == old(self).last_stage,
            r.party_order == old(self).party_info(party_number).party_order,
            r.party_uuid@ == fresh_uuid@,
            r.room_uuid@ == final(self).spec_visible_uuid(),
            r.total_joined == old(self).member_info@.len(),
    {
        let i = self.find_party(party_number).unwrap();
        let party_order = self.member_info[i].1.party_order;
        let updated = SigningPartyInfo {
            party_id: fresh_uuid.clone(),
            party_order,
            last_ping: now,
        };
        self.member_info.set(i, (party_number, updated));
        let visible_uuid = if self.is_full() {
            self.room_uuid.clone()
        } else {
            String::new()
        };
        SigningPartySignup {
            party_order,
            party_uuid: fresh_uuid,
            room_uuid: visible_uuid,
            total_joined: self.member_info.len() as u16,
        }
    }

    /// Leaves the signup stage once the room is full; a room that is not yet
    /// full stays open.
    pub fn close_signup_window(&mut self)
        requires
            old(self).wf(),
        ensures
            final(self).wf(),
            final(self).member_info == old(self).member_info,
            final(self).room_id == old(self).room_id,
            final(self).room_uuid == old(self).room_uuid,
            final(self).room_size == old(self).room_size,
            old(self).spec_is_full() ==> final(self).last_stage@ == "closed"@,
            !old(self).spec_is_full() ==> final(self).last_stage == old(self).last_stage,
    {
        proof {
            reveal_strlit("closed");
        }
        if self.is_full() {
            self.last_stage = String::from_str("closed");
        }
    }
}

/// Some slot of `room` holds the ordinal `k`.
pub open spec fn order_held(room: SigningRoom, k: int) -> bool {
    exists|i: int|
        0 <= i < room.member_info@.len() && (#[trigger] room.member_info@[i]).1.party_order == k
}

/// Within one room the assigned `party_order` values are exactly
/// `1 ..= member count`: each ordinal in that range is held by some slot, and
/// no ordinal outside it is held by any.
pub proof fn lemma_party_orders_bijective(room: SigningRoom)
    requires
        room.wf(),
    ensures
        forall|k: int| 1 <= k <= room.member_info@.len() ==> #[trigger] order_held(room, k),
        forall|i: int|
            0 <= i < room.member_info@.len() ==> 1 <= (
            #[trigger] room.member_info@[i]).1.party_order <= room.member_info@.len(),
{
    assert forall|k: int| 1 <= k <= room.member_info@.len() implies #[trigger] order_held(
        room,
        k,
    ) by {
        assert(room.member_info@[k - 1].1.party_order == k);
    }
}

} // verus!
