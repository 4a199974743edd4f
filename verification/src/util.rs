//! The two-tier variable-length size prefix used everywhere a byte count
//! must be framed.
//!
//! A length known a priori to be below 256 is stored as one raw byte
//! ([`encode_len_small`]).  Any other length is stored as a tier-1 byte
//! holding the count `k` of tier-2 bytes, followed by the `k` big-endian
//! bytes of the length with all leading zero bytes stripped
//! ([`encode_len_large`]).  The stripped form makes the representation
//! canonical: every length has exactly one encoding.

use vstd::prelude::*;

verus! {

/// The minimal big-endian byte run representing `n`: empty for zero,
/// and never starting with a zero byte.
pub open spec fn min_be_bytes(n: nat) -> Seq<u8>
    decreases n,
{
    if n == 0 {
        Seq::empty()
    } else {
        min_be_bytes(n / 256) + seq![(n % 256) as u8]
    }
}

/// The value represented by a big-endian byte run.
pub open spec fn be_fold(s: Seq<u8>) -> nat
    decreases s.len(),
{
    if s.len() == 0 {
        0
    } else {
        (be_fold(s.drop_last()) * 256 + s.last()) as nat
    }
}

/// The complete large-length prefix for `n`: the tier-1 count byte,
/// then the tier-2 big-endian bytes.
pub open spec fn spec_encode_len_large(n: nat) -> Seq<u8> {
    seq![min_be_bytes(n).len() as u8] + min_be_bytes(n)
}

/// Folding the minimal big-endian bytes of `n` gives `n` back.
pub proof fn lemma_be_fold_min_be_bytes(n: nat)
    ensures
        be_fold(min_be_bytes(n)) == n,
    decreases n,
{
    if n != 0 {
        lemma_be_fold_min_be_bytes(n / 256);
        let s = min_be_bytes(n);
        assert(s.drop_last() =~= min_be_bytes(n / 256));
        assert(s.last() == (n % 256) as u8);
    }
}

/// The tier-2 portion of a large-length prefix never starts with a zero
/// byte, so the encoding is canonical.
pub proof fn lemma_min_be_bytes_no_leading_zero(n: nat)
    ensures
        n > 0 ==> min_be_bytes(n).len() > 0 && min_be_bytes(n).first() != 0,
    decreases n,
{
    if n > 0 {
        if n < 256 {
            assert(n / 256 == 0);
            assert(min_be_bytes((n / 256) as nat) =~= Seq::<u8>::empty());
            assert(min_be_bytes(n) =~= seq![(n % 256) as u8]);
            assert(n % 256 == n);
        } else {
            lemma_min_be_bytes_no_leading_zero(n / 256);
            assert(min_be_bytes(n).first() == min_be_bytes(n / 256).first());
        }
    }
}

/// Any big-endian byte run folding to `n` is at least as long as the
/// minimal one: the tier-1 count is the smallest possible.
pub proof fn lemma_min_be_bytes_minimal(n: nat, s: Seq<u8>)
    requires
        be_fold(s) == n,
    ensures
        s.len() >= min_be_bytes(n).len(),
    decreases s.len(),
{
    if n != 0 {
        assert(s.len() > 0);
        lemma_min_be_bytes_minimal(be_fold(s.drop_last()), s.drop_last());
        if be_fold(s.drop_last()) == n / 256 {
        } else {
            lemma_min_be_len_le(n / 256, be_fold(s.drop_last()));
        }
    }
}

/// A smaller value never needs more minimal big-endian bytes.
proof fn lemma_min_be_len_le(a: nat, b: nat)
    requires
        a <= b,
    ensures
        min_be_bytes(a).len() <= min_be_bytes(b).len(),
    decreases b,
{
    if a != 0 {
        lemma_min_be_len_le(a / 256, b / 256);
    }
}

/// A value below `256^k` needs at most `k` minimal big-endian bytes.
pub proof fn lemma_min_be_bytes_len_bound(n: nat, k: nat)
    requires
        n < vstd::arithmetic::power::pow(256, k),
    ensures
        min_be_bytes(n).len() <= k,
    decreases n,
{
    if n != 0 {
        assert(k > 0) by {
            vstd::arithmetic::power::lemma_pow0(256);
        }
        assert(n / 256 < vstd::arithmetic::power::pow(256, (k - 1) as nat)) by {
            vstd::arithmetic::power::lemma_pow1(256);
            assert(vstd::arithmetic::power::pow(256, k) == 256 * vstd::arithmetic::power::pow(
                256,
                (k - 1) as nat,
            )) by {
                vstd::arithmetic::power::lemma_pow_adds(256, 1, (k - 1) as nat);
                vstd::arithmetic::power::lemma_pow1(256);
            }
        }
        lemma_min_be_bytes_len_bound(n / 256, (k - 1) as nat);
    }
}

/// Reversing after a push puts the new element in front.
proof fn lemma_reverse_push(s: Seq<u8>, x: u8)
    ensures
        s.push(x).reverse() =~= seq![x] + s.reverse(),
{
}

/// Every value that fits a `usize` fits in eight big-endian bytes.
pub proof fn lemma_min_be_bytes_bounded_len(n: nat)
    requires
        n <= usize::MAX,
    ensures
        min_be_bytes(n).len() <= 8,
{
    assert(vstd::arithmetic::power::pow(256, 8) == 0x1_0000_0000_0000_0000) by {
        reveal_with_fuel(vstd::arithmetic::power::pow, 9);
    }
    assert(usize::MAX as nat <= u64::MAX as nat);
    lemma_min_be_bytes_len_bound(n, 8);
}


/// Canonical length framing: decoding a large-length prefix gives the
/// length back, its tier-2 portion has no leading zero byte, and the
/// tier-1 byte counts the fewest big-endian bytes that can represent
/// the length.
pub proof fn lemma_len_large_canonical(n: nat)
    ensures
        be_fold(spec_encode_len_large(n).skip(1)) == n,
        spec_encode_len_large(n)[0] == min_be_bytes(n).len() as u8,
        n > 0 ==> spec_encode_len_large(n)[1] != 0,
        forall|s: Seq<u8>| be_fold(s) == n ==> s.len() >= min_be_bytes(n).len(),
{
    assert(spec_encode_len_large(n).skip(1) =~= min_be_bytes(n));
    lemma_be_fold_min_be_bytes(n);
    lemma_min_be_bytes_no_leading_zero(n);
    if n > 0 {
        assert(spec_encode_len_large(n)[1] == min_be_bytes(n).first());
    }
    assert forall|s: Seq<u8>| be_fold(s) == n implies s.len() >= min_be_bytes(n).len() by {
        lemma_min_be_bytes_minimal(n, s);
    }
}

/// Encodes a length known to be below 256 as one raw byte.
pub fn encode_len_small(len: usize) -> (r: u8)
    requires
        len < 256,
    ensures
        r as usize == len,
{
    len as u8
}

/// Decodes a one-byte small length.
pub fn decode_len_small(len_encoded: u8) -> (r: usize)
    ensures
        r == len_encoded as usize,
{
    len_encoded as usize
}

/// Encodes a length of any size as its canonical two-tier prefix.
pub fn encode_len_large(len: usize) -> (r: Vec<u8>)
    ensures
        r@ == spec_encode_len_large(len as nat),
{
    let mut digits: Vec<u8> = Vec::new();
    let mut m: usize = len;
    while m > 0
        invariant
            min_be_bytes(len as nat) =~= min_be_bytes(m as nat) + digits@.reverse(),
        decreases m,
    {
        proof {
            lemma_reverse_push(digits@, (m % 256) as u8);
            assert(min_be_bytes(m as nat) =~= min_be_bytes((m / 256) as nat) + seq![
                ((m as nat) % 256) as u8,
            ]);
        }
        digits.push((m % 256) as u8);
        m = m / 256;
    }
    proof {
        assert(min_be_bytes(len as nat) =~= digits@.reverse());
        lemma_min_be_bytes_bounded_len(len as nat);
    }
    let k = digits.len();
    let mut r: Vec<u8> = Vec::new();
    r.push(k as u8);
    let mut i = k;
    while i > 0
        invariant
            i <= k == digits@.len(),
            k <= 8,
            min_be_bytes(len as nat) =~= digits@.reverse(),
            r@ =~= seq![k as u8] + digits@.reverse().take((k - i) as int),
        decreases i,
    {
        i = i - 1;
        r.push(digits[i]);
        proof {
            assert(digits@.reverse()[(k - 1 - i) as int] == digits@[i as int]);
            assert(r@ =~= seq![k as u8] + digits@.reverse().take((k - i) as int));
        }
    }
    proof {
        assert(digits@.reverse().take(k as int) =~= digits@.reverse());
        assert(r@ =~= spec_encode_len_large(len as nat));
    }
    r
}

/// Decodes the tier-2 portion of a large length: the big-endian fold of
/// the given byte run.  The caller must have consumed the tier-1 byte
/// already and supplied exactly that many tier-2 bytes.
pub fn decode_len_large(len_encoded: &[u8]) -> (r: usize)
    requires
        be_fold(len_encoded@) <= usize::MAX,
    ensures
        r == be_fold(len_encoded@),
{
    let n = len_encoded.len();
    let mut r: usize = 0;
    let mut i: usize = 0;
    while i < n
        invariant
            i <= n == len_encoded@.len(),
            be_fold(len_encoded@) <= usize::MAX,
            r == be_fold(len_encoded@.take(i as int)),
        decreases n - i,
    {
        proof {
            lemma_be_fold_take_le(len_encoded@, (i + 1) as int);
            assert(len_encoded@.take((i + 1) as int).drop_last() =~= len_encoded@.take(i as int));
            assert(len_encoded@.take((i + 1) as int).last() == len_encoded@[i as int]);
        }
        r = r * 256 + (len_encoded[i] as usize);
        i = i + 1;
    }
    proof {
        assert(len_encoded@.take(n as int) =~= len_encoded@);
    }
    r
}

/// A prefix of a big-endian byte run never folds to more than the whole.
pub proof fn lemma_be_fold_take_le(s: Seq<u8>, i: int)
    requires
        0 <= i <= s.len(),
    ensures
        be_fold(s.take(i)) <= be_fold(s),
    decreases s.len() - i,
{
    if i < s.len() {
        lemma_be_fold_take_le(s, i + 1);
        assert(s.take(i + 1).drop_last() =~= s.take(i));
        assert(be_fold(s.take(i + 1)) == be_fold(s.take(i)) * 256 + s.take(i + 1).last());
    } else {
        assert(s.take(i) =~= s);
    }
}

} // verus!
