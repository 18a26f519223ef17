//! Hierarchical key derivation: additive tweaks on the joint public key
//! along a path of non-negative integers. Points and scalars are carried as
//! their canonical byte strings (33-byte compressed points, big-endian
//! scalars); each curve and HMAC computation is named, and the derivation is
//! specified exactly as their composition.

use vstd::prelude::*;

use curv::arithmetic::Converter;
use curv::elliptic::curves::{Point, Scalar, Secp256k1};
use hmac::{Mac, NewMac};

verus! {

/// What HMAC-SHA512 returns for a key and a message: a function of its
/// arguments alone.
pub uninterp spec fn hmac512_of(key: Seq<u8>, data: Seq<u8>) -> Seq<u8>;

/// The value of a big-endian byte string.
pub open spec fn be_val(b: Seq<u8>) -> int
    decreases b.len(),
{
    if b.len() == 0 {
        0
    } else {
        be_val(b.drop_last()) * 256 + b.last()
    }
}

/// The order of the secp256k1 group.
pub open spec fn secp256k1_order() -> int {
    0xFFFFFFFFFFFFFFFFFFFFFFFFFFFFFFFEBAAEDCE6AF48A03BBFD25E8CD0364141int
}

/// A big-endian byte string reduced modulo the secp256k1 group order, as
/// minimal big-endian bytes.
pub open spec fn scalar_mod_q_of(b: Seq<u8>) -> Seq<u8> {
    be_bytes(be_val(b) % secp256k1_order())
}

/// The sum of two big-endian byte strings modulo the group order, as
/// minimal big-endian bytes.
pub open spec fn scalar_add_of(a: Seq<u8>, b: Seq<u8>) -> Seq<u8> {
    be_bytes((be_val(a) + be_val(b)) % secp256k1_order())
}

/// What multiplying the generator by a scalar returns, compressed.
pub uninterp spec fn gen_mul_of(s: Seq<u8>) -> Seq<u8>;

/// What adding two curve points returns, compressed.
pub uninterp spec fn point_add_of(a: Seq<u8>, b: Seq<u8>) -> Seq<u8>;

/// What multiplying a curve point by a scalar returns, compressed.
pub uninterp spec fn point_mul_of(p: Seq<u8>, s: Seq<u8>) -> Seq<u8>;

/// Whether a byte string parses as a secp256k1 point: what curv's
/// Point::from_bytes accepts.
pub uninterp spec fn is_point_bytes(b: Seq<u8>) -> bool;

/// Relies on hmac's Hmac<Sha512>: the 64-byte tag is a function of key and
/// message alone. HMAC accepts a key of any length, so this never fails.
#[verifier::external_body]
fn hmac_sha512(key: &[u8], data: &[u8]) -> (r: Vec<u8>)
    ensures
        r@ == hmac512_of(key@, data@),
        r@.len() == 64,
{
    let mut mac = <hmac::Hmac<sha2::Sha512> as NewMac>::new_from_slice(key).unwrap();
    mac.update(data);
    mac.finalize().into_bytes().to_vec()
}

/// Relies on curv's Scalar::from_bigint and BigInt byte conversion: the
/// byte string is read big-endian, reduced modulo the group order, and
/// written back as minimal big-endian bytes — exactly `scalar_mod_q_of`.
#[verifier::external_body]
fn scalar_from_bytes(b: &[u8]) -> (r: Vec<u8>)
    ensures
        r@ == scalar_mod_q_of(b@),
{
    let n = curv::BigInt::from_bytes(b);
    let s = Scalar::<Secp256k1>::from_bigint(&n);
    s.to_bigint().to_bytes()
}

/// Relies on curv's scalar addition modulo the group order — exactly
/// `scalar_add_of`.
#[verifier::external_body]
fn scalar_add(a: &[u8], b: &[u8]) -> (r: Vec<u8>)
    ensures
        r@ == scalar_add_of(a@, b@),
{
    let sa = Scalar::<Secp256k1>::from_bigint(&curv::BigInt::from_bytes(a));
    let sb = Scalar::<Secp256k1>::from_bigint(&curv::BigInt::from_bytes(b));
    (sa + sb).to_bigint().to_bytes()
}

/// Relies on curv's generator multiplication; the result is the compressed
/// 33-byte point.
#[verifier::external_body]
fn generator_mul(s: &[u8]) -> (r: Vec<u8>)
    ensures
        r@ == gen_mul_of(s@),
        r@.len() == 33,
{
    let sc = Scalar::<Secp256k1>::from_bigint(&curv::BigInt::from_bytes(s));
    let p = Point::<Secp256k1>::generator() * sc;
    p.to_bytes(true).to_vec()
}

/// Relies on curv's point addition; fails exactly where an argument's bytes
/// are no point.
#[verifier::external_body]
fn point_add(a: &[u8], b: &[u8]) -> (r: Option<Vec<u8>>)
    ensures
        r is Some <==> (is_point_bytes(a@) && is_point_bytes(b@)),
        r matches Some(v) ==> v@ == point_add_of(a@, b@) && v@.len() == 33,
{
    let pa = Point::<Secp256k1>::from_bytes(a).ok()?;
    let pb = Point::<Secp256k1>::from_bytes(b).ok()?;
    Some((pa + pb).to_bytes(true).to_vec())
}

/// Relies on curv's point-scalar multiplication; fails exactly where the
/// point's bytes are no point.
#[verifier::external_body]
fn point_mul(p: &[u8], s: &[u8]) -> (r: Option<Vec<u8>>)
    ensures
        r is Some <==> is_point_bytes(p@),
        r matches Some(v) ==> v@ == point_mul_of(p@, s@) && v@.len() == 33,
{
    let pp = Point::<Secp256k1>::from_bytes(p).ok()?;
    let sc = Scalar::<Secp256k1>::from_bigint(&curv::BigInt::from_bytes(s));
    Some((pp * sc).to_bytes(true).to_vec())
}

/// Minimal big-endian bytes of a positive integer; empty at or below zero.
pub open spec fn be_bytes_pos(n: int) -> Seq<u8>
    decreases n,
{
    if n <= 0 {
        Seq::<u8>::empty()
    } else {
        be_bytes_pos(n / 256).push((n % 256) as u8)
    }
}

/// Big-endian bytes of a non-negative integer as curv's big integers write
/// them: a single zero byte for zero, minimal bytes with no leading zero
/// otherwise.
pub open spec fn be_bytes(n: int) -> Seq<u8> {
    if n <= 0 {
        seq![0u8]
    } else {
        be_bytes_pos(n)
    }
}

/// Appends the big-endian bytes of a positive integer.
fn push_be_bytes_pos(n: u64, out: &mut Vec<u8>)
    requires
        n >= 1,
    ensures
        final(out)@ == old(out)@ + be_bytes_pos(n as int),
    decreases n,
{
    if n >= 256 {
        push_be_bytes_pos(n / 256, out);
    }
    out.push((n % 256) as u8);
    proof {
        if n < 256 {
            assert(be_bytes_pos((n / 256) as int) =~= Seq::<u8>::empty());
        }
        assert(out@ =~= old(out)@ + be_bytes_pos(n as int));
    }
}

/// Appends the big-endian bytes of `n`: one zero byte for zero.
pub fn push_be_bytes(n: u64, out: &mut Vec<u8>)
    ensures
        final(out)@ == old(out)@ + be_bytes(n as int),
{
    if n == 0 {
        out.push(0u8);
        proof {
            assert(out@ =~= old(out)@ + be_bytes(0));
        }
        return ;
    }
    push_be_bytes_pos(n, out);
}

/// One derivation step on `(point, chain code, index)`: the HMAC of the
/// compressed point and the index bytes under the chain code, split into the
/// tweak half `f_l` and the chain half `f_r`; the point moves by `f_l * G`,
/// the chain code is scaled by `f_r`.
pub open spec fn hd_step_spec(pk: Seq<u8>, cc: Seq<u8>, index: u64) -> (Seq<u8>, Seq<u8>, Seq<
    u8,
>) {
    let h = hmac512_of(cc, pk + be_bytes(index as int));
    let f_l = scalar_mod_q_of(h.subrange(0, 32));
    let f_r = scalar_mod_q_of(h.subrange(32, 64));
    (point_add_of(pk, gen_mul_of(f_l)), f_l, point_mul_of(cc, f_r))
}

/// Whether one derivation step goes through: the point and the chain code
/// parse as points, and so does the generator multiple added to the point.
pub open spec fn hd_step_ok(pk: Seq<u8>, cc: Seq<u8>, index: u64) -> bool {
    let h = hmac512_of(cc, pk + be_bytes(index as int));
    let f_l = scalar_mod_q_of(h.subrange(0, 32));
    is_point_bytes(pk) && is_point_bytes(gen_mul_of(f_l)) && is_point_bytes(cc)
}

/// Whether the full derivation goes through: every step's point operations
/// accept their inputs.
pub open spec fn hd_ok(pk: Seq<u8>, cc: Seq<u8>, path: Seq<u64>) -> bool
    decreases path.len(),
{
    if path.len() <= 1 {
        hd_step_ok(pk, cc, path[0])
    } else {
        let prev = hd_key_spec(pk, cc, path.drop_last());
        hd_ok(pk, cc, path.drop_last()) && hd_step_ok(prev.0, prev.2, path.last())
    }
}

/// The full derivation along a non-empty path: the steps composed in order,
/// with the per-step tweaks `f_l` accumulated into one additive tweak.
pub open spec fn hd_key_spec(pk: Seq<u8>, cc: Seq<u8>, path: Seq<u64>) -> (Seq<u8>, Seq<u8>, Seq<
    u8,
>)
    decreases path.len(),
{
    if path.len() <= 1 {
        hd_step_spec(pk, cc, path[0])
    } else {
        let prev = hd_key_spec(pk, cc, path.drop_last());
        let step = hd_step_spec(prev.0, prev.2, path.last());
        (step.0, scalar_add_of(step.1, prev.1), step.2)
    }
}

/// One executed derivation step; goes through exactly when `hd_step_ok`.
fn hd_step(pk: &Vec<u8>, cc: &Vec<u8>, index: u64) -> (r: Option<(Vec<u8>, Vec<u8>, Vec<u8>)>)
    ensures
        r is Some <==> hd_step_ok(pk@, cc@, index),
        r matches Some(t) ==> (t.0@, t.1@, t.2@) == hd_step_spec(pk@, cc@, index),
{
    let mut data: Vec<u8> = Vec::new();
    let mut i: usize = 0;
    while i < pk.len()
        invariant
            0 <= i <= pk@.len(),
            data@ == pk@.subrange(0, i as int),
        decreases pk@.len() - i,
    {
        data.push(pk[i]);
        proof {
            assert(data@ =~= pk@.subrange(0, i + 1));
        }
        i += 1;
    }
    proof {
        assert(pk@.subrange(0, pk@.len() as int) =~= pk@);
    }
    push_be_bytes(index, &mut data);
    let h = hmac_sha512(cc.as_slice(), data.as_slice());
    let f_l_bytes = slice_range(&h, 0, 32);
    let f_r_bytes = slice_range(&h, 32, 64);
    let f_l = scalar_from_bytes(f_l_bytes.as_slice());
    let f_r = scalar_from_bytes(f_r_bytes.as_slice());
    let g_f_l = generator_mul(f_l.as_slice());
    let pk_new = match point_add(pk.as_slice(), g_f_l.as_slice()) {
        Some(p) => p,
        None => {
            return None;
        },
    };
    let cc_new = match point_mul(cc.as_slice(), f_r.as_slice()) {
        Some(c) => c,
        None => {
            return None;
        },
    };
    Some((pk_new, f_l, cc_new))
}

/// The bytes of `v` from `from` (inclusive) to `to` (exclusive).
fn slice_range(v: &Vec<u8>, from: usize, to: usize) -> (r: Vec<u8>)
    requires
        from <= to <= v@.len(),
    ensures
        r@ == v@.subrange(from as int, to as int),
{
    let mut r: Vec<u8> = Vec::new();
    let mut i: usize = from;
    while i < to
        invariant
            from <= i <= to <= v@.len(),
            r@ == v@.subrange(from as int, i as int),
        decreases to - i,
    {
        r.push(v[i]);
        proof {
            assert(r@ =~= v@.subrange(from as int, i + 1));
        }
        i += 1;
    }
    r
}

/// A derivation that goes through goes through on every prefix.
proof fn lemma_hd_ok_prefix(pk: Seq<u8>, cc: Seq<u8>, path: Seq<u64>, j: int)
    requires
        1 <= j <= path.len(),
        hd_ok(pk, cc, path),
    ensures
        hd_ok(pk, cc, path.subrange(0, j)),
    decreases path.len() - j,
{
    if j == path.len() {
        assert(path.subrange(0, j) =~= path);
    } else {
        lemma_hd_ok_prefix(pk, cc, path, j + 1);
        let cur = path.subrange(0, j + 1);
        assert(cur.drop_last() =~= path.subrange(0, j));
    }
}

/// Derives along `path` from a compressed public key and a chain-code
/// point, returning the child key, the total additive tweak and the final
/// chain code — exactly the composition of the named curve and HMAC
/// operations. Goes through exactly when every step's point operations
/// accept their inputs.
pub fn hd_key(pubkey: &Vec<u8>, chain_code: &Vec<u8>, path: &Vec<u64>) -> (r: Option<
    (Vec<u8>, Vec<u8>, Vec<u8>),
>)
    requires
        path@.len() >= 1,
    ensures
        r is Some <==> hd_ok(pubkey@, chain_code@, path@),
        r matches Some(t) ==> (t.0@, t.1@, t.2@) == hd_key_spec(pubkey@, chain_code@, path@),
{
    let first = match hd_step(pubkey, chain_code, path[0]) {
        Some(t) => t,
        None => {
            proof {
                if hd_ok(pubkey@, chain_code@, path@) {
                    lemma_hd_ok_prefix(pubkey@, chain_code@, path@, 1);
                    let cur = path@.subrange(0, 1);
                    assert(cur[0] == path@[0]);
                }
            }
            return None;
        },
    };
    let (mut pk, mut total, mut cc) = first;
    proof {
        assert(path@.subrange(0, 1) =~= seq![path@[0]]);
        assert((pk@, total@, cc@) == hd_key_spec(pubkey@, chain_code@, path@.subrange(0, 1)));
        assert(hd_ok(pubkey@, chain_code@, path@.subrange(0, 1)));
    }
    let n = path.len();
    let mut i: usize = 1;
    while i < n
        invariant
            n == path@.len(),
            1 <= i <= n,
            (pk@, total@, cc@) == hd_key_spec(pubkey@, chain_code@, path@.subrange(0, i as int)),
            hd_ok(pubkey@, chain_code@, path@.subrange(0, i as int)),
        decreases n - i,
    {
        let step = match hd_step(&pk, &cc, path[i]) {
            Some(t) => t,
            None => {
                proof {
                    if hd_ok(pubkey@, chain_code@, path@) {
                        lemma_hd_ok_prefix(pubkey@, chain_code@, path@, i + 1);
                        let cur = path@.subrange(0, i + 1);
                        assert(cur.drop_last() =~= path@.subrange(0, i as int));
                        assert(cur.last() == path@[i as int]);
                        assert(hd_step_ok(pk@, cc@, path@[i as int]));
                    }
                }
                return None;
            },
        };
        let (pk2, f_l, cc2) = step;
        let total2 = scalar_add(f_l.as_slice(), total.as_slice());
        pk = pk2;
        cc = cc2;
        total = total2;
        proof {
            let pre = path@.subrange(0, i as int);
            let cur = path@.subrange(0, i + 1);
            assert(cur.drop_last() =~= pre);
            assert(cur.last() == path@[i as int]);
            assert((pk@, total@, cc@) == hd_key_spec(pubkey@, chain_code@, cur));
            assert(hd_ok(pubkey@, chain_code@, cur));
        }
        i += 1;
    }
    proof {
        assert(path@.subrange(0, n as int) =~= path@);
    }
    Some((pk, total, cc))
}

/// Derives the child public key and the total additive tweak for `path`,
/// seeding the chain code with the compressed generator (the generator is
/// `1 * G`, so the seed is pinned to the named generator multiplication).
/// Goes through exactly when the derivation from that seed does.
pub fn get_hd_key(y_sum: &Vec<u8>, path: &Vec<u64>) -> (r: Option<(Vec<u8>, Vec<u8>)>)
    requires
        path@.len() >= 1,
    ensures
        r is Some <==> hd_ok(y_sum@, gen_mul_of(seq![1u8]), path@),
        r matches Some(t) ==> {
            let d = hd_key_spec(y_sum@, gen_mul_of(seq![1u8]), path@);
            t.0@ == d.0 && t.1@ == d.1
        },
{
    let mut one: Vec<u8> = Vec::new();
    one.push(1u8);
    let chain_code = generator_mul(one.as_slice());
    proof {
        assert(one@ =~= seq![1u8]);
    }
    match hd_key(y_sum, &chain_code, path) {
        Some(t) => Some((t.0, t.1)),
        None => None,
    }
}

} // verus!
