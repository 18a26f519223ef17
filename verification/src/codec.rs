//! Wire-format helpers: request-id syntax, decimal numbers, relay keys and
//! hex rendering.

use sha2::Digest;
use vstd::prelude::*;

verus! {

/// What SHA-256 returns for a byte string: a function of its argument alone.
pub uninterp spec fn sha256_of(input: Seq<u8>) -> Seq<u8>;

/// Relies on sha2's Sha256: the 32-byte digest is a function of the input
/// alone.
#[verifier::external_body]
fn sha256_bytes(input: &[u8]) -> (r: Vec<u8>)
    ensures
        r@ == sha256_of(input@),
        r@.len() == 32,
{
    let mut hasher = sha2::Sha256::new();
    hasher.update(input);
    hasher.finalize().to_vec()
}

/// The room id of a message: the lower-case hex of its SHA-256 digest, which
/// content-addresses the signing room.
pub fn sha256_digest(input: &[u8]) -> (r: String)
    ensures
        r@ == hex_of(sha256_of(input@)),
{
    let digest = sha256_bytes(input);
    bytes_to_hex(digest.as_slice())
}

/// A hexadecimal digit, either case.
pub open spec fn is_hex_digit(c: char) -> bool {
    ('0' <= c && c <= '9') || ('a' <= c && c <= 'f') || ('A' <= c && c <= 'F')
}

/// The hyphenated textual form of a UUID: 36 characters, hyphens at
/// positions 8, 13, 18 and 23, hex digits everywhere else.
pub open spec fn is_hyphenated_uuid(s: Seq<char>) -> bool {
    s.len() == 36 && forall|i: int|
        0 <= i < 36 ==> if i == 8 || i == 13 || i == 18 || i == 23 {
            s[i] == '-'
        } else {
            is_hex_digit(#[trigger] s[i])
        }
}

/// The case-insensitive `urn:uuid:` prefix.
pub open spec fn is_urn_prefix(s: Seq<char>) -> bool {
    &&& s.len() >= 9
    &&& (s[0] == 'u' || s[0] == 'U')
    &&& (s[1] == 'r' || s[1] == 'R')
    &&& (s[2] == 'n' || s[2] == 'N')
    &&& s[3] == ':'
    &&& (s[4] == 'u' || s[4] == 'U')
    &&& (s[5] == 'u' || s[5] == 'U')
    &&& (s[6] == 'i' || s[6] == 'I')
    &&& (s[7] == 'd' || s[7] == 'D')
    &&& s[8] == ':'
}

/// The textual forms of a UUID: hyphenated; simple (32 hex digits); braced
/// hyphenated; or a URN with the `urn:uuid:` prefix.
pub open spec fn is_uuid_str(s: Seq<char>) -> bool {
    ||| is_hyphenated_uuid(s)
    ||| (s.len() == 32 && forall|i: int| 0 <= i < 32 ==> is_hex_digit(#[trigger] s[i]))
    ||| (s.len() == 38 && s[0] == '{' && s[37] == '}' && is_hyphenated_uuid(s.subrange(1, 37)))
    ||| (s.len() == 45 && is_urn_prefix(s) && is_hyphenated_uuid(s.subrange(9, 45)))
}

/// Checks the 36 characters starting at `start` for the hyphenated form.
fn hyphenated_at(s: &str, start: usize) -> (r: bool)
    requires
        start <= usize::MAX - 36,
        start + 36 <= s@.len(),
    ensures
        r == is_hyphenated_uuid(s@.subrange(start as int, start as int + 36)),
{
    let mut i: usize = 0;
    while i < 36
        invariant
            start <= usize::MAX - 36,
            start + 36 <= s@.len(),
            0 <= i <= 36,
            forall|j: int|
                0 <= j < i ==> if j == 8 || j == 13 || j == 18 || j == 23 {
                    s@[start + j] == '-'
                } else {
                    is_hex_digit(#[trigger] s@[start + j])
                },
        decreases 36 - i,
    {
        let c = s.get_char(start + i);
        let ok = if i == 8 || i == 13 || i == 18 || i == 23 {
            c == '-'
        } else {
            ('0' <= c && c <= '9') || ('a' <= c && c <= 'f') || ('A' <= c && c <= 'F')
        };
        if !ok {
            proof {
                let sub = s@.subrange(start as int, start as int + 36);
                assert(sub[i as int] == s@[start + i]);
            }
            return false;
        }
        i += 1;
    }
    proof {
        let sub = s@.subrange(start as int, start as int + 36);
        assert forall|j: int| 0 <= j < 36 implies (if j == 8 || j == 13 || j == 18 || j == 23 {
            sub[j] == '-'
        } else {
            is_hex_digit(sub[j])
        }) by {
            assert(sub[j] == s@[start + j]);
        }
    }
    true
}

/// Accepts exactly the textual forms of a UUID; request ids are validated
/// with this before any lookup.
pub fn is_valid_uuid(s: &str) -> (r: bool)
    ensures
        r == is_uuid_str(s@),
{
    let n = s.unicode_len();
    if n == 36 {
        let ok = hyphenated_at(s, 0);
        proof {
            assert(s@.subrange(0, 36) =~= s@);
        }
        ok
    } else if n == 32 {
        let mut i: usize = 0;
        while i < 32
            invariant
                s@.len() == 32,
                0 <= i <= 32,
                forall|j: int| 0 <= j < i ==> is_hex_digit(#[trigger] s@[j]),
            decreases 32 - i,
        {
            let c = s.get_char(i);
            let digit = ('0' <= c && c <= '9') || ('a' <= c && c <= 'f') || ('A' <= c && c
                <= 'F');
            if !digit {
                return false;
            }
            i += 1;
        }
        true
    } else if n == 38 {
        if s.get_char(0) != '{' || s.get_char(37) != '}' {
            return false;
        }
        hyphenated_at(s, 1)
    } else if n == 45 {
        let c0 = s.get_char(0);
        let c1 = s.get_char(1);
        let c2 = s.get_char(2);
        let c4 = s.get_char(4);
        let c5 = s.get_char(5);
        let c6 = s.get_char(6);
        let c7 = s.get_char(7);
        let prefix_ok = (c0 == 'u' || c0 == 'U') && (c1 == 'r' || c1 == 'R') && (c2 == 'n' || c2
            == 'N') && s.get_char(3) == ':' && (c4 == 'u' || c4 == 'U') && (c5 == 'u' || c5
            == 'U') && (c6 == 'i' || c6 == 'I') && (c7 == 'd' || c7 == 'D') && s.get_char(8)
            == ':';
        if !prefix_ok {
            return false;
        }
        hyphenated_at(s, 9)
    } else {
        false
    }
}

/// The character of one decimal digit value.
pub open spec fn dec_digit(d: int) -> char {
    if d == 0 {
        '0'
    } else if d == 1 {
        '1'
    } else if d == 2 {
        '2'
    } else if d == 3 {
        '3'
    } else if d == 4 {
        '4'
    } else if d == 5 {
        '5'
    } else if d == 6 {
        '6'
    } else if d == 7 {
        '7'
    } else if d == 8 {
        '8'
    } else {
        '9'
    }
}

/// The decimal rendering of a non-negative integer, most significant digit
/// first, no leading zeros (zero itself is `"0"`).
pub open spec fn dec_str(n: int) -> Seq<char>
    decreases n,
{
    if n < 10 {
        seq![dec_digit(n)]
    } else {
        dec_str(n / 10).push(dec_digit(n % 10))
    }
}

/// The one-character string of one decimal digit value.
fn dec_digit_str(d: u16) -> (r: &'static str)
    requires
        d < 10,
    ensures
        r@ == seq![dec_digit(d as int)],
{
    proof {
        reveal_strlit("0");
        reveal_strlit("1");
        reveal_strlit("2");
        reveal_strlit("3");
        reveal_strlit("4");
        reveal_strlit("5");
        reveal_strlit("6");
        reveal_strlit("7");
        reveal_strlit("8");
        reveal_strlit("9");
        assert("0"@ =~= seq!['0']);
        assert("1"@ =~= seq!['1']);
        assert("2"@ =~= seq!['2']);
        assert("3"@ =~= seq!['3']);
        assert("4"@ =~= seq!['4']);
        assert("5"@ =~= seq!['5']);
        assert("6"@ =~= seq!['6']);
        assert("7"@ =~= seq!['7']);
        assert("8"@ =~= seq!['8']);
        assert("9"@ =~= seq!['9']);
    }
    if d == 0 {
        "0"
    } else if d == 1 {
        "1"
    } else if d == 2 {
        "2"
    } else if d == 3 {
        "3"
    } else if d == 4 {
        "4"
    } else if d == 5 {
        "5"
    } else if d == 6 {
        "6"
    } else if d == 7 {
        "7"
    } else if d == 8 {
        "8"
    } else {
        "9"
    }
}

/// Appends the decimal rendering of `n` to `out`.
pub fn push_u16_dec(n: u16, out: &mut String)
    ensures
        final(out)@ == old(out)@ + dec_str(n as int),
    decreases n,
{
    if n >= 10 {
        push_u16_dec(n / 10, out);
        let d = n % 10;
        out.append(dec_digit_str(d));
        proof {
            assert(out@ =~= old(out)@ + dec_str(n as int));
        }
    } else {
        out.append(dec_digit_str(n));
        proof {
            assert(out@ =~= old(out)@ + dec_str(n as int));
        }
    }
}

/// The decimal rendering of a party number.
pub fn u16_to_string(n: u16) -> (r: String)
    ensures
        r@ == dec_str(n as int),
{
    let mut out = String::new();
    push_u16_dec(n, &mut out);
    proof {
        assert(out@ =~= dec_str(n as int));
    }
    out
}

/// The relay key of a broadcast: `"{party}-{round}-{room_uuid}"`.
pub open spec fn broadcast_key_spec(party: u16, round: Seq<char>, uuid: Seq<char>) -> Seq<char> {
    dec_str(party as int) + "-"@ + round + "-"@ + uuid
}

/// The relay key of a point-to-point message:
/// `"{from}-{to}-{round}-{room_uuid}"`.
pub open spec fn p2p_key_spec(
    from: u16,
    to: u16,
    round: Seq<char>,
    uuid: Seq<char>,
) -> Seq<char> {
    dec_str(from as int) + "-"@ + dec_str(to as int) + "-"@ + round + "-"@ + uuid
}

/// Builds the relay key under which `party` publishes a round broadcast.
pub fn broadcast_key(party: u16, round: &str, sender_uuid: &str) -> (r: String)
    ensures
        r@ == broadcast_key_spec(party, round@, sender_uuid@),
{
    let mut out = String::new();
    push_u16_dec(party, &mut out);
    out.append("-");
    out.append(round);
    out.append("-");
    out.append(sender_uuid);
    proof {
        assert(out@ =~= broadcast_key_spec(party, round@, sender_uuid@));
    }
    out
}

/// Builds the relay key under which `from` sends a round message to `to`.
pub fn p2p_key(from: u16, to: u16, round: &str, sender_uuid: &str) -> (r: String)
    ensures
        r@ == p2p_key_spec(from, to, round@, sender_uuid@),
{
    let mut out = String::new();
    push_u16_dec(from, &mut out);
    out.append("-");
    push_u16_dec(to, &mut out);
    out.append("-");
    out.append(round);
    out.append("-");
    out.append(sender_uuid);
    proof {
        assert(out@ =~= p2p_key_spec(from, to, round@, sender_uuid@));
    }
    out
}

/// The peer polled at position `k` by party `party_num`: peers are visited
/// in ascending order with the party's own number skipped.
pub open spec fn peer_at(party_num: u16, k: int) -> u16 {
    if k + 1 < party_num {
        (k + 1) as u16
    } else {
        (k + 2) as u16
    }
}

/// The keys a party polls to collect one round's broadcasts: one key per
/// peer, in ascending peer order, its own number skipped.
pub fn broadcast_poll_keys(party_num: u16, n: u16, round: &str, sender_uuid: &str) -> (r: Vec<
    String,
>)
    requires
        1 <= party_num <= n,
    ensures
        r@.len() == n - 1,
        forall|k: int|
            0 <= k < n - 1 ==> (#[trigger] r@[k])@ == broadcast_key_spec(
                peer_at(party_num, k),
                round@,
                sender_uuid@,
            ),
{
    let mut r: Vec<String> = Vec::new();
    let mut i: u32 = 1;
    while i <= n as u32
        invariant
            1 <= party_num <= n,
            1 <= i <= n + 1,
            r@.len() == if i <= party_num as u32 {
                i - 1
            } else {
                i - 2
            },
            forall|k: int|
                0 <= k < r@.len() ==> (#[trigger] r@[k])@ == broadcast_key_spec(
                    peer_at(party_num, k),
                    round@,
                    sender_uuid@,
                ),
        decreases n + 1 - i,
    {
        if i != party_num as u32 {
            r.push(broadcast_key(i as u16, round, sender_uuid));
        }
        i += 1;
    }
    r
}

/// The keys a party polls to collect one round's point-to-point messages
/// addressed to it: one key per peer, in ascending peer order.
pub fn p2p_poll_keys(party_num: u16, n: u16, round: &str, sender_uuid: &str) -> (r: Vec<String>)
    requires
        1 <= party_num <= n,
    ensures
        r@.len() == n - 1,
        forall|k: int|
            0 <= k < n - 1 ==> (#[trigger] r@[k])@ == p2p_key_spec(
                peer_at(party_num, k),
                party_num,
                round@,
                sender_uuid@,
            ),
{
    let mut r: Vec<String> = Vec::new();
    let mut i: u32 = 1;
    while i <= n as u32
        invariant
            1 <= party_num <= n,
            1 <= i <= n + 1,
            r@.len() == if i <= party_num as u32 {
                i - 1
            } else {
                i - 2
            },
            forall|k: int|
                0 <= k < r@.len() ==> (#[trigger] r@[k])@ == p2p_key_spec(
                    peer_at(party_num, k),
                    party_num,
                    round@,
                    sender_uuid@,
                ),
        decreases n + 1 - i,
    {
        if i != party_num as u32 {
            r.push(p2p_key(i as u16, party_num, round, sender_uuid));
        }
        i += 1;
    }
    r
}

/// Splices a party's own round value into the answers polled from its peers:
/// the result holds the peers' answers in their polled order with the
/// party's own value at position `party_num - 1`, mirroring how every engine
/// round assembles its `n` per-party values.
pub fn format_vec_from_reads(ans_vec: &Vec<String>, party_num: usize, value_i: String) -> (r: Vec<
    String,
>)
    requires
        1 <= party_num <= ans_vec@.len() + 1,
    ensures
        r@.len() == ans_vec@.len() + 1,
        r@[party_num - 1] == value_i,
        forall|k: int| 0 <= k < party_num - 1 ==> r@[k] == ans_vec@[k],
        forall|k: int| party_num <= k < r@.len() ==> r@[k] == ans_vec@[k - 1],
{
    let mut r: Vec<String> = Vec::new();
    let n = ans_vec.len();
    let mut j: usize = 0;
    while j < party_num - 1
        invariant
            1 <= party_num <= n + 1,
            n == ans_vec@.len(),
            0 <= j <= party_num - 1,
            r@.len() == j,
            forall|k: int| 0 <= k < j ==> r@[k] == ans_vec@[k],
        decreases party_num - 1 - j,
    {
        r.push(ans_vec[j].clone());
        j += 1;
    }
    r.push(value_i);
    while j < n
        invariant
            1 <= party_num <= n + 1,
            n == ans_vec@.len(),
            party_num - 1 <= j <= n,
            r@.len() == j + 1,
            r@[party_num - 1] == value_i,
            forall|k: int| 0 <= k < party_num - 1 ==> r@[k] == ans_vec@[k],
            forall|k: int| party_num <= k < r@.len() ==> r@[k] == ans_vec@[k - 1],
        decreases n - j,
    {
        r.push(ans_vec[j].clone());
        j += 1;
    }
    r
}

/// A decimal digit.
pub open spec fn is_dec_digit(c: char) -> bool {
    '0' <= c && c <= '9'
}

/// A non-empty string of decimal digits.
pub open spec fn is_dec_str(s: Seq<char>) -> bool {
    s.len() >= 1 && forall|i: int| 0 <= i < s.len() ==> is_dec_digit(#[trigger] s[i])
}

/// The value of a string of decimal digits, most significant first.
pub open spec fn dec_val(s: Seq<char>) -> int
    decreases s.len(),
{
    if s.len() == 0 {
        0
    } else {
        dec_val(s.drop_last()) * 10 + (s.last() as int - '0' as int)
    }
}

/// A longer digit prefix never has a smaller value.
proof fn lemma_dec_val_prefix_le(s: Seq<char>, i: int)
    requires
        0 <= i <= s.len(),
        forall|k: int| 0 <= k < s.len() ==> is_dec_digit(#[trigger] s[k]),
    ensures
        dec_val(s.subrange(0, i)) <= dec_val(s),
    decreases s.len() - i,
{
    if i == s.len() {
        assert(s.subrange(0, i) =~= s);
    } else {
        lemma_dec_val_prefix_le(s, i + 1);
        let a = s.subrange(0, i);
        let b = s.subrange(0, i + 1);
        assert(b.drop_last() =~= a);
        assert(is_dec_digit(s[i]));
        assert(dec_val(b) == dec_val(a) * 10 + (s[i] as int - '0' as int));
        lemma_dec_val_nonneg(a);
    }
}

/// A digit string's value is never negative.
proof fn lemma_dec_val_nonneg(s: Seq<char>)
    requires
        forall|k: int| 0 <= k < s.len() ==> is_dec_digit(#[trigger] s[k]),
    ensures
        dec_val(s) >= 0,
    decreases s.len(),
{
    if s.len() > 0 {
        assert(forall|k: int|
            0 <= k < s.drop_last().len() ==> is_dec_digit(#[trigger] s.drop_last()[k]));
        lemma_dec_val_nonneg(s.drop_last());
    }
}

/// Parses a decimal number: accepted exactly when the string is all digits,
/// non-empty, and its value fits.
pub fn parse_u16(s: &str) -> (r: Option<u16>)
    ensures
        r matches Some(n) ==> is_dec_str(s@) && n == dec_val(s@),
        r is None ==> !is_dec_str(s@) || dec_val(s@) > u16::MAX,
{
    let n = s.unicode_len();
    if n == 0 {
        return None;
    }
    let mut val: u16 = 0;
    let mut i: usize = 0;
    while i < n
        invariant
            n == s@.len(),
            n >= 1,
            0 <= i <= n,
            forall|k: int| 0 <= k < i ==> is_dec_digit(#[trigger] s@[k]),
            val == dec_val(s@.subrange(0, i as int)),
        decreases n - i,
    {
        let c = s.get_char(i);
        if !('0' <= c && c <= '9') {
            return None;
        }
        let d: u16 = (c as u16) - ('0' as u16);
        proof {
            assert(s@.subrange(0, i + 1).drop_last() =~= s@.subrange(0, i as int));
            assert(dec_val(s@.subrange(0, i + 1)) == val * 10 + d);
        }
        if val > (u16::MAX - d) / 10 {
            proof {
                if is_dec_str(s@) {
                    lemma_dec_val_prefix_le(s@, i + 1);
                    assert(dec_val(s@) >= dec_val(s@.subrange(0, i + 1)));
                }
            }
            return None;
        }
        val = val * 10 + d;
        i += 1;
    }
    proof {
        assert(s@.subrange(0, n as int) =~= s@);
    }
    Some(val)
}

/// Parses a decimal number as `parse_u16` does, into the wider range of a
/// derivation-path element.
pub fn parse_u64(s: &str) -> (r: Option<u64>)
    ensures
        r matches Some(n) ==> is_dec_str(s@) && n == dec_val(s@),
        r is None ==> !is_dec_str(s@) || dec_val(s@) > u64::MAX,
{
    let n = s.unicode_len();
    if n == 0 {
        return None;
    }
    let mut val: u64 = 0;
    let mut i: usize = 0;
    while i < n
        invariant
            n == s@.len(),
            n >= 1,
            0 <= i <= n,
            forall|k: int| 0 <= k < i ==> is_dec_digit(#[trigger] s@[k]),
            val == dec_val(s@.subrange(0, i as int)),
        decreases n - i,
    {
        let c = s.get_char(i);
        if !('0' <= c && c <= '9') {
            return None;
        }
        let d: u64 = (c as u64) - ('0' as u64);
        proof {
            assert(s@.subrange(0, i + 1).drop_last() =~= s@.subrange(0, i as int));
            assert(dec_val(s@.subrange(0, i + 1)) == val * 10 + d);
        }
        if val > (u64::MAX - d) / 10 {
            proof {
                if is_dec_str(s@) {
                    lemma_dec_val_prefix_le(s@, i + 1);
                    assert(dec_val(s@) >= dec_val(s@.subrange(0, i + 1)));
                }
            }
            return None;
        }
        val = val * 10 + d;
        i += 1;
    }
    proof {
        assert(s@.subrange(0, n as int) =~= s@);
    }
    Some(val)
}

/// How often a character occurs in a string.
pub open spec fn count_char(s: Seq<char>, c: char) -> int
    decreases s.len(),
{
    if s.len() == 0 {
        0
    } else if s.last() == c {
        count_char(s.drop_last(), c) + 1
    } else {
        count_char(s.drop_last(), c)
    }
}

/// No character of `s` being `c`, `c` is not counted in `s`.
proof fn lemma_count_char_zero(s: Seq<char>, c: char)
    requires
        forall|j: int| 0 <= j < s.len() ==> s[j] != c,
    ensures
        count_char(s, c) == 0,
    decreases s.len(),
{
    if s.len() > 0 {
        assert(forall|j: int| 0 <= j < s.drop_last().len() ==> s.drop_last()[j] != c);
        lemma_count_char_zero(s.drop_last(), c);
    }
}

/// Parses a derivation path: decimal path elements separated by `/`. Every
/// element must be a decimal number in range; a path that parses has one
/// element per separator-delimited segment, and a path that is one plain
/// decimal number parses to exactly that number.
pub fn parse_path(path: &str) -> (r: Option<Vec<u64>>)
    ensures
        r matches Some(v) ==> v@.len() == count_char(path@, '/') + 1,
        path@.len() == 0 ==> r is None,
        is_dec_str(path@) && dec_val(path@) <= u64::MAX ==> (r matches Some(v) && v@ == seq![
            dec_val(path@) as u64,
        ]),
{
    let n = path.unicode_len();
    let mut v: Vec<u64> = Vec::new();
    let mut seg_start: usize = 0;
    let mut i: usize = 0;
    while i < n
        invariant
            n == path@.len(),
            0 <= seg_start <= i <= n,
            v@.len() == count_char(path@.subrange(0, i as int), '/'),
            is_dec_str(path@) ==> v@.len() == 0 && seg_start == 0,
        decreases n - i,
    {
        let c = path.get_char(i);
        proof {
            if is_dec_str(path@) {
                assert(is_dec_digit(path@[i as int]));
            }
        }
        if c == '/' {
            let seg = path.substring_char(seg_start, i);
            match parse_u64(seg) {
                Some(x) => v.push(x),
                None => {
                    return None;
                },
            }
            seg_start = i + 1;
        }
        proof {
            assert(path@.subrange(0, i + 1).drop_last() =~= path@.subrange(0, i as int));
        }
        i += 1;
    }
    let seg = path.substring_char(seg_start, n);
    proof {
        if is_dec_str(path@) {
            assert(seg_start == 0);
            assert(path@.subrange(0, n as int) =~= path@);
            assert(forall|j: int| 0 <= j < path@.len() ==> path@[j] != '/');
            lemma_count_char_zero(path@, '/');
        }
    }
    match parse_u64(seg) {
        Some(x) => v.push(x),
        None => {
            return None;
        },
    }
    proof {
        assert(path@.subrange(0, n as int) =~= path@);
        if is_dec_str(path@) && dec_val(path@) <= u64::MAX {
            assert(v@ =~= seq![dec_val(path@) as u64]);
        }
    }
    Some(v)
}

/// The character of one hexadecimal digit value, lower case.
pub open spec fn hex_digit(d: int) -> char {
    if d < 10 {
        dec_digit(d)
    } else if d == 10 {
        'a'
    } else if d == 11 {
        'b'
    } else if d == 12 {
        'c'
    } else if d == 13 {
        'd'
    } else if d == 14 {
        'e'
    } else {
        'f'
    }
}

/// The lower-case hex rendering of a byte string, two digits per byte.
pub open spec fn hex_of(b: Seq<u8>) -> Seq<char>
    decreases b.len(),
{
    if b.len() == 0 {
        Seq::<char>::empty()
    } else {
        hex_of(b.drop_last()) + seq![
            hex_digit(b.last() as int / 16),
            hex_digit(b.last() as int % 16),
        ]
    }
}

/// The one-character string of one hex digit value.
fn hex_digit_str(d: u8) -> (r: &'static str)
    requires
        d < 16,
    ensures
        r@ == seq![hex_digit(d as int)],
{
    if d < 10 {
        dec_digit_str(d as u16)
    } else {
        proof {
            reveal_strlit("a");
            reveal_strlit("b");
            reveal_strlit("c");
            reveal_strlit("d");
            reveal_strlit("e");
            reveal_strlit("f");
            assert("a"@ =~= seq!['a']);
            assert("b"@ =~= seq!['b']);
            assert("c"@ =~= seq!['c']);
            assert("d"@ =~= seq!['d']);
            assert("e"@ =~= seq!['e']);
            assert("f"@ =~= seq!['f']);
        }
        if d == 10 {
            "a"
        } else if d == 11 {
            "b"
        } else if d == 12 {
            "c"
        } else if d == 13 {
            "d"
        } else if d == 14 {
            "e"
        } else {
            "f"
        }
    }
}

/// Renders a byte string as lower-case hex, two digits per byte.
pub fn bytes_to_hex(bytes: &[u8]) -> (r: String)
    ensures
        r@ == hex_of(bytes@),
{
    let mut out = String::new();
    let n = bytes.len();
    let mut i: usize = 0;
    while i < n
        invariant
            n == bytes@.len(),
            0 <= i <= n,
            out@ == hex_of(bytes@.subrange(0, i as int)),
        decreases n - i,
    {
        let b = bytes[i];
        out.append(hex_digit_str(b / 16));
        out.append(hex_digit_str(b % 16));
        proof {
            assert(bytes@.subrange(0, i + 1).drop_last() =~= bytes@.subrange(0, i as int));
            assert(out@ =~= hex_of(bytes@.subrange(0, i + 1)));
        }
        i += 1;
    }
    proof {
        assert(bytes@.subrange(0, n as int) =~= bytes@);
    }
    out
}

/// Hex rendering is two characters per byte.
pub proof fn lemma_hex_of_len(b: Seq<u8>)
    ensures
        hex_of(b).len() == 2 * b.len(),
    decreases b.len(),
{
    if b.len() > 0 {
        lemma_hex_of_len(b.drop_last());
    }
}

/// Stripping leading zeros never lengthens a non-empty string, and always
/// leaves at least one character.
pub proof fn lemma_strip_zeros_len(s: Seq<char>)
    ensures
        1 <= strip_zeros(s).len(),
        strip_zeros(s).len() <= if s.len() == 0 {
            1int
        } else {
            s.len() as int
        },
    decreases s.len(),
{
    if s.len() > 1 && s[0] == '0' {
        lemma_strip_zeros_len(s.drop_first());
    }
}

/// Hex with leading zero digits removed, as an integer would be rendered;
/// an all-zero (or empty) byte string renders as `"0"`.
pub open spec fn strip_zeros(s: Seq<char>) -> Seq<char>
    decreases s.len(),
{
    if s.len() == 0 {
        seq!['0']
    } else if s.len() > 1 && s[0] == '0' {
        strip_zeros(s.drop_first())
    } else {
        s
    }
}

/// Renders a big-endian byte string as the lower-case hex of its integer
/// value: no leading zeros, `"0"` for zero, as the signature wire format
/// carries `r`, `s`, `x` and `y`.
pub fn bytes_to_hex_int(bytes: &[u8]) -> (r: String)
    ensures
        r@ == strip_zeros(hex_of(bytes@)),
{
    let full = bytes_to_hex(bytes);
    let n = full.as_str().unicode_len();
    let mut i: usize = 0;
    while i + 1 < n && full.as_str().get_char(i) == '0'
        invariant
            n == full@.len(),
            0 <= i <= n,
            i < n || n == 0,
            forall|j: int| 0 <= j < i ==> full@[j] == '0',
        decreases n - i,
    {
        i += 1;
    }
    proof {
        reveal_strlit("0");
    }
    if n == 0 {
        let zero = String::from_str("0");
        proof {
            assert("0"@ =~= seq!['0']);
            assert(zero@ =~= strip_zeros(hex_of(bytes@)));
        }
        zero
    } else {
        let rest = full.as_str().substring_char(i, n).to_owned();
        proof {
            lemma_strip_zeros_skip(full@, i as int);
            assert(rest@ =~= strip_zeros(hex_of(bytes@)));
        }
        rest
    }
}

/// Skipping a prefix of `'0'` characters, short of the last character,
/// commutes with `strip_zeros`.
proof fn lemma_strip_zeros_skip(s: Seq<char>, i: int)
    requires
        0 <= i < s.len(),
        forall|j: int| 0 <= j < i ==> s[j] == '0',
        i == s.len() - 1 || s[i] != '0',
    ensures
        strip_zeros(s) == s.subrange(i, s.len() as int),
    decreases i,
{
    if i == 0 {
        if s.len() == 1 || s[0] != '0' {
            assert(strip_zeros(s) == s);
            assert(s.subrange(0, s.len() as int) =~= s);
        }
    } else {
        assert(s[0] == '0' && s.len() > 1);
        let t = s.drop_first();
        lemma_strip_zeros_skip(t, i - 1);
        assert(t.subrange(i - 1, t.len() as int) =~= s.subrange(i, s.len() as int));
    }
}

/// The transport retry policy: a failed call against the coordinator is
/// retried up to three attempts in all, a quarter second apart; after that
/// the transport gives up.
pub fn transport_retry_delay_ms(attempt: u32) -> (r: Option<u64>)
    ensures
        attempt < 3 ==> r == Some(250u64),
        attempt >= 3 ==> r is None,
{
    if attempt < 3 {
        Some(250)
    } else {
        None
    }
}

/// The low 256 bits of a big-endian byte string: its last 32 bytes.
pub open spec fn mod_2_256_spec(m: Seq<u8>) -> Seq<u8> {
    if m.len() <= 32 {
        m
    } else {
        m.subrange(m.len() - 32, m.len() as int)
    }
}

/// The low 256 bits of a big-endian byte string: the engines reduce the
/// supplied message to an integer modulo `2^256`, which keeps exactly the
/// last 32 bytes.
pub fn message_mod_2_256(message: &[u8]) -> (r: Vec<u8>)
    ensures
        r@ == mod_2_256_spec(message@),
{
    let n = message.len();
    let start: usize = if n > 32 {
        n - 32
    } else {
        0
    };
    let mut r: Vec<u8> = Vec::new();
    let mut i: usize = start;
    while i < n
        invariant
            n == message@.len(),
            start <= i <= n,
            r@ == message@.subrange(start as int, i as int),
        decreases n - i,
    {
        r.push(message[i]);
        proof {
            assert(r@ =~= message@.subrange(start as int, i + 1));
        }
        i += 1;
    }
    proof {
        if n <= 32 {
            assert(message@.subrange(0, n as int) =~= message@);
        }
    }
    r
}

} // verus!

