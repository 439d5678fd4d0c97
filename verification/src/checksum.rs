//! The Internet checksum: the one's-complement sum of the big-endian
//! 16-bit words of a message, carries folded back into the low bits,
//! complemented. An ICMP message whose checksum field holds this value
//! recomputes to zero, which is what receivers verify.

use vstd::arithmetic::div_mod::lemma_fundamental_div_mod;
use vstd::arithmetic::div_mod::lemma_mod_multiples_vanish;
use vstd::prelude::*;

verus! {

/// Plain integer sum of the big-endian 16-bit words of a byte string;
/// an odd trailing byte is padded with a zero low byte.
pub open spec fn sum_words(data: Seq<u8>) -> int
    decreases data.len(),
{
    if data.len() == 0 {
        0
    } else if data.len() == 1 {
        data[0] * 0x100
    } else {
        data[0] * 0x100 + data[1] + sum_words(data.skip(2))
    }
}

/// End-around carry: folds the carries of a word sum back into the low
/// 16 bits until the value fits.
pub open spec fn fold16(n: int) -> int
    recommends
        n >= 0,
    decreases n,
{
    if n > 0xFFFF {
        fold16(n % 0x10000 + n / 0x10000)
    } else {
        n
    }
}

/// The Internet checksum of a byte string, as a mathematical integer in
/// `0 ..= 0xFFFF`.
pub open spec fn internet_checksum(data: Seq<u8>) -> int {
    0xFFFF - fold16(sum_words(data))
}

pub proof fn lemma_sum_words_nonneg(data: Seq<u8>)
    ensures
        sum_words(data) >= 0,
    decreases data.len(),
{
    if data.len() >= 2 {
        lemma_sum_words_nonneg(data.skip(2));
    }
}

pub proof fn lemma_fold16_bounds(n: int)
    requires
        n >= 0,
    ensures
        0 <= fold16(n) <= 0xFFFF,
        fold16(n) <= n,
        n >= 1 ==> fold16(n) >= 1,
    decreases n,
{
    if n > 0xFFFF {
        lemma_fundamental_div_mod(n, 0x10000);
        lemma_fold16_bounds(n % 0x10000 + n / 0x10000);
    }
}

/// Folding keeps the value's residue modulo 0xFFFF: one end-around
/// carry step turns `0x10000 * q + r` into `q + r`, dropping a multiple
/// of 0xFFFF.
pub proof fn lemma_fold16_mod(n: int)
    requires
        n >= 0,
    ensures
        fold16(n) % 0xFFFF == n % 0xFFFF,
    decreases n,
{
    if n > 0xFFFF {
        let q = n / 0x10000;
        let r = n % 0x10000;
        lemma_fundamental_div_mod(n, 0x10000);
        assert(n == 0xFFFF * q + (r + q));
        lemma_fold16_mod(r + q);
        lemma_mod_multiples_vanish(q, r + q, 0xFFFF);
    }
}

/// Self-verification of the one's-complement checksum: adding the
/// complement of a folded sum back into the sum makes it fold to
/// 0xFFFF, whose complement is zero.
pub proof fn lemma_fold16_complement(s: int)
    requires
        s >= 0,
    ensures
        fold16(s + 0xFFFF - fold16(s)) == 0xFFFF,
{
    lemma_fold16_bounds(s);
    lemma_fold16_mod(s);
    let t = s + 0xFFFF - fold16(s);
    lemma_fold16_bounds(t);
    lemma_fold16_mod(t);
    lemma_fundamental_div_mod(s, 0xFFFF);
    lemma_fundamental_div_mod(fold16(s), 0xFFFF);
    let q1 = s / 0xFFFF;
    let q2 = fold16(s) / 0xFFFF;
    assert(t == 0xFFFF * (q1 - q2 + 1) + s % 0xFFFF - fold16(s) % 0xFFFF);
    assert(t == 0xFFFF * (q1 - q2 + 1) + 0);
    lemma_mod_multiples_vanish(q1 - q2 + 1, 0, 0xFFFF);
    assert(t % 0xFFFF == 0);
    assert(fold16(t) % 0xFFFF == 0);
    assert(1 <= fold16(t) <= 0xFFFF);
}

/// Splitting a byte string at an even offset splits its word sum.
pub proof fn lemma_sum_words_append(a: Seq<u8>, b: Seq<u8>)
    requires
        a.len() % 2 == 0,
    ensures
        sum_words(a + b) == sum_words(a) + sum_words(b),
    decreases a.len(),
{
    if a.len() == 0 {
        assert(a + b =~= b);
    } else {
        assert((a + b).skip(2) =~= a.skip(2) + b);
        lemma_sum_words_append(a.skip(2), b);
    }
}

/// Writing a 16-bit word over the zeroed bytes 2 and 3 of a message
/// adds exactly that word to the message's word sum.
pub proof fn lemma_sum_words_set_word(s: Seq<u8>, hi: u8, lo: u8)
    requires
        s.len() >= 4,
        s[2] == 0,
        s[3] == 0,
    ensures
        sum_words(s.update(2, hi).update(3, lo)) == sum_words(s) + hi * 0x100 + lo,
{
    let u = s.update(2, hi).update(3, lo);
    assert(u.skip(2) =~= s.skip(2).update(0, hi).update(1, lo));
    let s2 = s.skip(2);
    let u2 = u.skip(2);
    assert(u2.skip(2) =~= s2.skip(2));
    assert(sum_words(u2) == hi * 0x100 + lo + sum_words(s2.skip(2)));
    assert(sum_words(s2) == s2[0] * 0x100 + s2[1] + sum_words(s2.skip(2)));
    assert(sum_words(u) == u[0] * 0x100 + u[1] + sum_words(u2));
    assert(sum_words(s) == s[0] * 0x100 + s[1] + sum_words(s2));
}

/// Computes the Internet checksum of a buffer.
pub fn compute_checksum(buf: &[u8]) -> (c: u16)
    requires
        buf@.len() <= 0xFFFF,
    ensures
        c == internet_checksum(buf@),
{
    let n = buf.len();
    let mut i: usize = 0;
    let mut sum: u64 = 0;
    while i + 2 <= n
        invariant
            i % 2 == 0,
            i <= n,
            n == buf@.len() <= 0xFFFF,
            sum == sum_words(buf@.take(i as int)),
            sum <= 0x8000 * (i as int),
        decreases n - i,
    {
        let w: u64 = (buf[i] as u64) * 0x100 + (buf[i + 1] as u64);
        proof {
            let pair = seq![buf@[i as int], buf@[i as int + 1]];
            assert(buf@.take(i as int + 2) =~= buf@.take(i as int) + pair);
            lemma_sum_words_append(buf@.take(i as int), pair);
            assert(pair.skip(2) =~= Seq::<u8>::empty());
            assert(sum_words(Seq::<u8>::empty()) == 0);
            assert(sum_words(pair) == pair[0] * 0x100 + pair[1] + sum_words(pair.skip(2)));
        }
        sum = sum + w;
        i = i + 2;
    }
    if i < n {
        proof {
            let tail = seq![buf@[i as int]];
            assert(buf@.take(n as int) =~= buf@.take(i as int) + tail);
            lemma_sum_words_append(buf@.take(i as int), tail);
            assert(sum_words(tail) == tail[0] * 0x100);
        }
        sum = sum + (buf[i] as u64) * 0x100;
        proof {
            assert(sum == sum_words(buf@.take(n as int)));
        }
    }
    proof {
        assert(buf@.take(n as int) =~= buf@);
        lemma_sum_words_nonneg(buf@);
    }
    while sum > 0xFFFF
        invariant
            fold16(sum as int) == fold16(sum_words(buf@)),
        decreases sum,
    {
        sum = sum % 0x10000 + sum / 0x10000;
    }
    0xFFFFu16 - (sum as u16)
}

} // verus!
