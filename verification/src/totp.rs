//! TOTP code derivation and time-window verification: the counter-based
//! one-time-password algorithm (HMAC over the big-endian counter, dynamic
//! truncation, decimal rendering), checked across a clock-skew window.

use vstd::prelude::*;
use hmac::Mac;
use crate::digits::{dec_seq, dec_string, is_dec_char, lemma_dec_seq_shape, pow10, pow10_u32};

verus! {

/// What HMAC-SHA-1 returns: a function of key and message alone.
pub uninterp spec fn hmac_sha1_of(key: Seq<u8>, msg: Seq<u8>) -> Seq<u8>;

/// Relies on `hmac::Hmac<sha1::Sha1>` used through `hmac::Mac`: the tag is a
/// function of the key and the message alone, and is 20 bytes long, SHA-1's
/// output size. `new_from_slice` accepts keys of any length for HMAC, so the
/// construction cannot fail.
#[verifier::external_body]
fn hmac_sha1(key: &Vec<u8>, msg: &Vec<u8>) -> (r: Vec<u8>)
    ensures
        r@ == hmac_sha1_of(key@, msg@),
        r@.len() == 20,
{
    let mut mac = hmac::Hmac::<sha1::Sha1>::new_from_slice(key.as_slice()).unwrap();
    mac.update(msg.as_slice());
    mac.finalize().into_bytes().to_vec()
}

/// The eight bytes of `v`, big-endian.
pub open spec fn u64_be_bytes(v: u64) -> Seq<u8> {
    seq![
        (v >> 56) as u8,
        (v >> 48) as u8,
        (v >> 40) as u8,
        (v >> 32) as u8,
        (v >> 24) as u8,
        (v >> 16) as u8,
        (v >> 8) as u8,
        v as u8,
    ]
}

fn counter_bytes(v: u64) -> (r: Vec<u8>)
    ensures
        r@ == u64_be_bytes(v),
{
    let mut r: Vec<u8> = Vec::new();
    r.push((v >> 56) as u8);
    r.push((v >> 48) as u8);
    r.push((v >> 40) as u8);
    r.push((v >> 32) as u8);
    r.push((v >> 24) as u8);
    r.push((v >> 16) as u8);
    r.push((v >> 8) as u8);
    r.push(v as u8);
    proof { assert(r@ =~= u64_be_bytes(v)); }
    r
}

/// Dynamic truncation of a 20-byte tag: the low nibble of the last byte
/// picks an offset, and the four bytes there form a 31-bit big-endian value.
pub open spec fn dynamic_trunc(h: Seq<u8>) -> u32
    recommends
        h.len() == 20,
{
    let off = (h[19] & 0x0f) as int;
    (((h[off] & 0x7f) as u32) << 24) | ((h[off + 1] as u32) << 16) | ((h[off + 2] as u32) << 8)
        | (h[off + 3] as u32)
}

/// The expected code for `key` at time counter `counter`: the truncated
/// HMAC-SHA-1 tag reduced to its last `digits` decimal digits, zero-padded.
pub open spec fn totp_code(key: Seq<u8>, counter: u64, digits: nat) -> Seq<char> {
    dec_seq(
        (dynamic_trunc(hmac_sha1_of(key, u64_be_bytes(counter))) as nat) % pow10(digits),
        digits,
    )
}

/// Derives the `digits`-digit code for `key` at time counter `counter`.
pub fn derive_code(key: &Vec<u8>, counter: u64, digits: usize) -> (code: String)
    requires
        1 <= digits <= 9,
    ensures
        code@ == totp_code(key@, counter, digits as nat),
        code@.len() == digits,
        forall|i: int| 0 <= i < digits ==> is_dec_char(#[trigger] code@[i]),
{
    let msg = counter_bytes(counter);
    let h = hmac_sha1(key, &msg);
    let last = h[19];
    let off = (last & 0x0f) as usize;
    proof {
        assert(last & 0x0f < 16) by (bit_vector);
    }
    let bin: u32 = (((h[off] & 0x7f) as u32) << 24) | ((h[off + 1] as u32) << 16) | ((h[
        off + 2] as u32) << 8) | (h[off + 3] as u32);
    proof {
        assert(bin == dynamic_trunc(h@));
    }
    let p = pow10_u32(digits);
    let val = bin % p;
    let code = dec_string(val as u64, digits);
    proof {
        lemma_dec_seq_shape(val as nat, digits as nat);
    }
    code
}

/// The time counter of an instant: whole steps since the epoch.
pub open spec fn time_counter(now: u64, step: u64) -> u64
    recommends
        step > 0,
{
    now / step
}

/// The lowest counter of the tolerance window, clamped at zero.
pub open spec fn window_lo(tc: u64, skew: u8) -> u64 {
    if tc >= skew {
        (tc - skew) as u64
    } else {
        0
    }
}

/// The highest counter of the tolerance window, clamped at the counter type's
/// maximum.
pub open spec fn window_hi(tc: u64, skew: u8) -> u64 {
    if tc + skew <= u64::MAX {
        (tc + skew) as u64
    } else {
        u64::MAX
    }
}

/// Whether `code` equals the code derived at some counter within `skew`
/// steps of the instant `now`.
pub open spec fn code_in_window(
    key: Seq<u8>,
    code: Seq<char>,
    now: u64,
    step: u64,
    skew: u8,
    digits: nat,
) -> bool
    recommends
        step > 0,
{
    exists|c: u64|
        window_lo(time_counter(now, step), skew) <= c <= window_hi(time_counter(now, step), skew)
            && code == totp_code(key, c, digits)
}

/// Character-for-character string equality that does not stop at the first
/// differing position: a mismatch costs the same work at every digit
/// position, so the comparison leaks no digit prefix through its timing.
fn str_eq_fixed(a: &str, b: &str) -> (r: bool)
    ensures
        r == (a@ == b@),
{
    let la = a.unicode_len();
    let lb = b.unicode_len();
    let n = if la < lb {
        la
    } else {
        lb
    };
    let mut same = la == lb;
    let mut i: usize = 0;
    while i < n
        invariant
            n == if la < lb { la as int } else { lb as int },
            la == a@.len(),
            lb == b@.len(),
            i <= n,
            same == (la == lb && (forall|j: int| 0 <= j < i ==> a@[j] == b@[j])),
        decreases n - i,
    {
        let ca = a.get_char(i);
        let cb = b.get_char(i);
        if ca != cb {
            same = false;
        }
        i = i + 1;
    }
    proof {
        if same {
            assert(a@ =~= b@);
        }
    }
    same
}

/// Checks `code` against every counter in the inclusive tolerance window
/// around `now`: true exactly when some counter in the window derives it.
/// Codes derived strictly outside the window match only if they collide
/// with a code inside it.
pub fn verify_window(key: &Vec<u8>, code: &str, now: u64, step: u64, skew: u8, digits: usize) -> (r:
    bool)
    requires
        step > 0,
        1 <= digits <= 9,
    ensures
        r == code_in_window(key@, code@, now, step, skew, digits as nat),
{
    let tc = now / step;
    let lo = if tc >= skew as u64 {
        tc - skew as u64
    } else {
        0
    };
    let hi = if tc <= u64::MAX - skew as u64 {
        tc + skew as u64
    } else {
        u64::MAX
    };
    let count = hi - lo + 1;
    let mut i: u64 = 0;
    while i < count
        invariant
            step > 0,
            1 <= digits <= 9,
            lo == window_lo(time_counter(now, step), skew),
            hi == window_hi(time_counter(now, step), skew),
            lo <= hi,
            count == hi - lo + 1,
            i <= count,
            forall|c: u64| lo <= c < lo + i ==> code@ != totp_code(key@, c, digits as nat),
        decreases count - i,
    {
        let c = lo + i;
        let derived = derive_code(key, c, digits);
        if str_eq_fixed(derived.as_str(), code) {
            proof {
                assert(code@ == totp_code(key@, c, digits as nat));
            }
            return true;
        }
        i = i + 1;
    }
    proof {
        assert(forall|c: u64|
            window_lo(time_counter(now, step), skew) <= c <= window_hi(
                time_counter(now, step),
                skew,
            ) ==> code@ != totp_code(key@, c, digits as nat));
    }
    false
}

/// Law: a code derived at any counter inside the tolerance window is in the
/// window's code set, so the window check accepts it; together with the
/// check's contract, a rejected code was derived at no counter in the
/// window.
pub proof fn lemma_window_accepts_derived(
    key: Seq<u8>,
    now: u64,
    step: u64,
    skew: u8,
    digits: nat,
    c: u64,
)
    requires
        step > 0,
        window_lo(time_counter(now, step), skew) <= c <= window_hi(time_counter(now, step), skew),
    ensures
        code_in_window(key, totp_code(key, c, digits), now, step, skew, digits),
{
}

/// Law: within one time step the derived code is constant — the code depends
/// on the instant only through its time counter.
pub proof fn lemma_code_constant_within_step(key: Seq<u8>, t1: u64, t2: u64, step: u64, digits: nat)
    requires
        step > 0,
        t1 / step == t2 / step,
    ensures
        totp_code(key, time_counter(t1, step), digits) == totp_code(
            key,
            time_counter(t2, step),
            digits,
        ),
{
}

} // verus!
