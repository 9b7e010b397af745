//! Mathematical model shared by the whole crate: the value of a big-endian
//! byte string and modular inverses over a prime group order.

use vstd::prelude::*;
use vstd::arithmetic::div_mod::{lemma_breakdown, lemma_mul_mod_noop_general, lemma_small_mod};
use vstd::arithmetic::mul::lemma_mul_inequality;
use vstd::arithmetic::power::{lemma_pow_adds, pow};

verus! {

/// The integer a byte string denotes when read big-endian (the last byte is
/// the least significant).
pub open spec fn be_val(s: Seq<u8>) -> nat
    decreases s.len(),
{
    if s.len() == 0 {
        0
    } else {
        (be_val(s.drop_last()) * 256 + s.last()) as nat
    }
}

/// A big-endian byte string of length `len` denotes a value below `256^len`.
pub proof fn lemma_be_val_bound(s: Seq<u8>)
    ensures
        be_val(s) < pow(256, s.len()),
    decreases s.len(),
{
    reveal(pow);
    if s.len() == 0 {
    } else {
        lemma_be_val_bound(s.drop_last());
        assert(pow(256, s.len()) == 256 * pow(256, (s.len() - 1) as nat));
        lemma_mul_inequality(be_val(s.drop_last()) as int + 1, pow(256, (s.len() - 1) as nat), 256);
    }
}

/// Two byte strings of the same length with the same big-endian value are the
/// same string.
pub proof fn lemma_be_val_injective(s1: Seq<u8>, s2: Seq<u8>)
    requires
        s1.len() == s2.len(),
        be_val(s1) == be_val(s2),
    ensures
        s1 =~= s2,
    decreases s1.len(),
{
    if s1.len() == 0 {
    } else {
        let a = be_val(s1.drop_last()) as int;
        let b = be_val(s2.drop_last()) as int;
        let x = s1.last() as int;
        let y = s2.last() as int;
        assert(a * 256 + x == b * 256 + y);
        assert(a == b && x == y) by (nonlinear_arith)
            requires
                a * 256 + x == b * 256 + y,
                0 <= x < 256,
                0 <= y < 256,
                0 <= a,
                0 <= b,
        ;
        lemma_be_val_injective(s1.drop_last(), s2.drop_last());
        assert(s1 =~= s1.drop_last().push(s1.last()));
        assert(s2 =~= s2.drop_last().push(s2.last()));
    }
}

/// A byte string of zeros denotes zero.
pub proof fn lemma_be_val_zeros(s: Seq<u8>)
    requires
        forall|j: int| 0 <= j < s.len() ==> s[j] == 0,
    ensures
        be_val(s) == 0,
    decreases s.len(),
{
    if s.len() > 0 {
        lemma_be_val_zeros(s.drop_last());
    }
}

/// Leading zero bytes do not change the denoted value.
pub proof fn lemma_be_val_skip_zeros(s: Seq<u8>, k: int)
    requires
        0 <= k <= s.len(),
        forall|j: int| 0 <= j < k ==> s[j] == 0,
    ensures
        be_val(s) == be_val(s.skip(k)),
    decreases s.len(),
{
    if s.len() == 0 || k == 0 {
        assert(s.skip(k) =~= s);
    } else if k == s.len() {
        lemma_be_val_zeros(s);
        assert(s.skip(k) =~= Seq::<u8>::empty());
    } else {
        assert(s.skip(k).drop_last() =~= s.drop_last().skip(k));
        assert(s.skip(k).last() == s.last());
        lemma_be_val_skip_zeros(s.drop_last(), k);
    }
}

/// Prepending one byte shifts the value by one full byte position.
pub proof fn lemma_be_val_prepend(d: u8, t: Seq<u8>)
    ensures
        be_val(seq![d] + t) == d * pow(256, t.len()) + be_val(t),
    decreases t.len(),
{
    reveal(pow);
    let s = seq![d] + t;
    if t.len() == 0 {
        assert(s =~= seq![d]);
        assert(be_val(seq![d]) == be_val(seq![d].drop_last()) * 256 + d);
        assert(seq![d].drop_last() =~= Seq::<u8>::empty());
        assert(pow(256, 0) == 1);
    } else {
        assert(s.drop_last() =~= seq![d] + t.drop_last());
        assert(s.last() == t.last());
        lemma_be_val_prepend(d, t.drop_last());
        assert(pow(256, t.len()) == 256 * pow(256, (t.len() - 1) as nat));
        assert((d * (256 * pow(256, (t.len() - 1) as nat))) == (d * pow(
            256,
            (t.len() - 1) as nat,
        )) * 256) by (nonlinear_arith);
    }
}

/// `y` is the multiplicative inverse of `x` modulo `m`, with inverse of zero
/// defined as zero.
pub open spec fn is_mod_inverse(m: nat, x: nat, y: nat) -> bool {
    if x % m == 0 {
        y == 0
    } else {
        (x * y) % m == 1 && y < m
    }
}

/// The multiplicative inverse of `x` modulo `m` when one exists, zero
/// otherwise.
pub open spec fn mod_inv(m: nat, x: nat) -> nat {
    if exists|y: nat| is_mod_inverse(m, x, y) {
        choose|y: nat| is_mod_inverse(m, x, y)
    } else {
        0
    }
}


/// Modular inverses are unique, so any witness equals `mod_inv`.
pub proof fn lemma_mod_inverse_unique(m: nat, x: nat, y: nat)
    requires
        m > 1,
        is_mod_inverse(m, x, y),
    ensures
        mod_inv(m, x) == y,
{
    let y2 = mod_inv(m, x);
    assert(is_mod_inverse(m, x, y2));
    if x % m != 0 {
        assert((x * y) % m == 1 && (x * y2) % m == 1);
        assert(y % m == y) by {
            lemma_small_mod(y, m);
        }
        assert(y2 % m == y2) by {
            lemma_small_mod(y2, m);
        }
        assert((y * (x * y2)) % m == (y * ((x * y2) % m)) % m) by {
            lemma_mul_mod_noop_general(y as int, (x * y2) as int, m as int);
        }
        assert((y * ((x * y2) % m)) % m == y % m) by {
            assert(y * 1 == y);
        }
        assert(y * (x * y2) == (x * y) * y2) by (nonlinear_arith);
        assert(((x * y) * y2) % m == (((x * y) % m) * y2) % m) by {
            lemma_mul_mod_noop_general((x * y) as int, y2 as int, m as int);
        }
        assert((((x * y) % m) * y2) % m == y2 % m) by {
            assert(1 * y2 == y2);
        }
    }
}

/// Folding one more modular product term into a running sum keeps the sum's
/// residue: `((acc % m) + (a * (p % m)) % m) % m == (acc + a * p) % m`.
pub proof fn lemma_mod_madd(m: nat, acc: nat, a: nat, p: nat)
    requires
        m > 0,
    ensures
        ((acc % m) + (a * (p % m)) % m) % m == (acc + a * p) % m,
{
    lemma_mul_mod_noop_general(a as int, p as int, m as int);
    assert((a * (p % m)) % m == (a * p) % m);
    vstd::arithmetic::div_mod::lemma_add_mod_noop(acc as int, (a * p) as int, m as int);
    assert(((acc % m) + (a * p) % m) % m == (acc + a * p) % m);
}

/// A power of a nonnegative base is nonnegative.
pub proof fn lemma_pow_nonneg(b: int, e: nat)
    requires
        b >= 0,
    ensures
        pow(b, e) >= 0,
    decreases e,
{
    reveal(pow);
    if e > 0 {
        lemma_pow_nonneg(b, (e - 1) as nat);
        vstd::arithmetic::mul::lemma_mul_nonnegative(b, pow(b, (e - 1) as nat));
    }
}


/// The `len`-byte big-endian string denoting `n % 256^len`.
pub open spec fn nat_to_be(n: nat, len: nat) -> Seq<u8>
    decreases len,
{
    if len == 0 {
        Seq::empty()
    } else {
        nat_to_be(n / 256, (len - 1) as nat).push((n % 256) as u8)
    }
}

/// `nat_to_be` has the requested length and denotes `n % 256^len`.
pub proof fn lemma_nat_to_be(n: nat, len: nat)
    ensures
        nat_to_be(n, len).len() == len,
        be_val(nat_to_be(n, len)) == n as int % pow(256, len),
    decreases len,
{
    reveal(pow);
    if len == 0 {
        assert(n % 1 == 0) by (nonlinear_arith);
    } else {
        lemma_nat_to_be(n / 256, (len - 1) as nat);
        let s = nat_to_be(n, len);
        assert(s.drop_last() =~= nat_to_be(n / 256, (len - 1) as nat));
        assert(s.last() == (n % 256) as u8);
        vstd::arithmetic::power::lemma_pow_positive(256, (len - 1) as nat);
        lemma_breakdown(n as int, 256, pow(256, (len - 1) as nat));
        assert(pow(256, len) == 256 * pow(256, (len - 1) as nat));
        assert(be_val(s) == ((n as int / 256) % pow(256, (len - 1) as nat)) * 256 + n as int % 256);
        assert(n as int % (256 * pow(256, (len - 1) as nat)) == 256 * ((n as int / 256) % pow(256, (len - 1) as nat)) + n as int % 256);
        vstd::arithmetic::mul::lemma_mul_is_commutative((n as int / 256) % pow(256, (len - 1) as nat), 256);
    }
}

/// A 32-byte string is the canonical big-endian form of its own value.
pub proof fn lemma_be_canon(s: Seq<u8>)
    requires
        s.len() == 32,
    ensures
        s =~= nat_to_be(be_val(s), 32),
{
    lemma_be_val_bound(s);
    lemma_nat_to_be(be_val(s), 32);
    vstd::arithmetic::power::lemma_pow_positive(256, 32);
    lemma_small_mod(be_val(s), pow(256, 32) as nat);
    lemma_be_val_injective(s, nat_to_be(be_val(s), 32));
}

/// Appends the bytes of `src` to `dst`.
pub fn append_bytes(dst: &mut Vec<u8>, src: &[u8])
    ensures
        final(dst)@ == old(dst)@ + src@,
{
    let mut i: usize = 0;
    while i < src.len()
        invariant
            i <= src@.len(),
            dst@ =~= old(dst)@ + src@.take(i as int),
        decreases src@.len() - i,
    {
        dst.push(src[i]);
        i += 1;
    }
    proof {
        assert(dst@ =~= old(dst)@ + src@);
    }
}

/// Copies the bytes of `v` between `start` and `end` into a fresh vector.
pub fn sub_bytes(v: &[u8], start: usize, end: usize) -> (r: Vec<u8>)
    requires
        start <= end <= v@.len(),
    ensures
        r@ == v@.subrange(start as int, end as int),
{
    let mut out: Vec<u8> = Vec::new();
    let mut i: usize = start;
    while i < end
        invariant
            start <= i <= end <= v@.len(),
            out@ =~= v@.subrange(start as int, i as int),
        decreases end - i,
    {
        out.push(v[i]);
        i += 1;
    }
    proof {
        assert(out@ =~= v@.subrange(start as int, end as int));
    }
    out
}

/// Compares two byte strings for equality.
pub fn bytes_equal(a: &[u8], b: &[u8]) -> (r: bool)
    ensures
        r == (a@ =~= b@),
{
    if a.len() != b.len() {
        return false;
    }
    let mut i: usize = 0;
    while i < a.len()
        invariant
            a@.len() == b@.len(),
            i <= a@.len(),
            forall|t: int| 0 <= t < i ==> a@[t] == b@[t],
        decreases a@.len() - i,
    {
        if a[i] != b[i] {
            return false;
        }
        i += 1;
    }
    proof {
        assert(a@ =~= b@);
    }
    true
}

/// Adding a reduced product and reducing again is the same as reducing the
/// full sum: `(a + (c * x) % m) % m == (a + c * x) % m` for reduced `a`.
pub proof fn lemma_mod_add_mul(m: nat, a: nat, c: nat, x: nat)
    requires
        m > 0,
        a < m,
    ensures
        (a + (c * x) % m) % m == (a + c * x) % m,
{
    lemma_small_mod(a, m);
    vstd::arithmetic::div_mod::lemma_add_mod_noop(a as int, (c * x) as int, m as int);
}

/// Writes the value of `v` as 32 big-endian bytes.
pub fn u64_to_be32(v: u64) -> (r: Vec<u8>)
    ensures
        r@.len() == 32,
        be_val(r@) == v,
{
    let mut out: Vec<u8> = Vec::new();
    let mut j: usize = 0;
    while j < 32
        invariant
            j <= 32,
            out@.len() == j,
            forall|t: int| 0 <= t < j ==> out@[t] == 0,
        decreases 32 - j,
    {
        out.push(0u8);
        j += 1;
    }
    let mut n: u64 = v;
    let mut i: usize = 32;
    proof {
        assert(pow(256, 0) == 1) by {
            vstd::arithmetic::power::lemma_pow0(256);
        }
        assert(out@.skip(32) =~= Seq::<u8>::empty());
        assert(v as int / 1 == v) by (nonlinear_arith);
        assert(v as int % 1 == 0) by (nonlinear_arith);
    }
    while i > 24
        invariant
            24 <= i <= 32,
            out@.len() == 32,
            forall|t: int| 0 <= t < i ==> out@[t] == 0,
            n == v as int / pow(256, (32 - i) as nat),
            be_val(out@.skip(i as int)) == v as int % pow(256, (32 - i) as nat),
        decreases i,
    {
        let ghost k: nat = (32 - i) as nat;
        let d: u8 = (n % 256) as u8;
        proof {
            assert(pow(256, k) > 0) by {
                vstd::arithmetic::power::lemma_pow_positive(256, k);
            }
        }
        let ghost old_out = out@;
        out.set(i - 1, d);
        n = n / 256;
        i -= 1;
        proof {
            assert(out@.skip(i as int) =~= seq![d] + old_out.skip(i as int + 1));
            lemma_be_val_prepend(d, old_out.skip(i as int + 1));
            // be_val(out[i..]) == d * 256^k + v % 256^k, and d == (v / 256^k) % 256.
            assert(d == (v as int / pow(256, k)) % 256);
            lemma_breakdown(v as int, pow(256, k), 256);
            assert(pow(256, k) * 256 == pow(256, k + 1)) by {
                lemma_pow_adds(256, k, 1);
                assert(pow(256, 1) == 256) by {
                    vstd::arithmetic::power::lemma_pow1(256);
                }
            }
            assert(v as int % pow(256, k + 1) == pow(256, k) * ((v as int / pow(256, k)) % 256)
                + v as int % pow(256, k));
            assert(d * pow(256, k) == pow(256, k) * ((v as int / pow(256, k)) % 256))
                by (nonlinear_arith)
                requires
                    d == (v as int / pow(256, k)) % 256,
            ;
            // n went from v / 256^k to v / 256^(k+1).
            vstd::arithmetic::div_mod::lemma_div_denominator(v as int, pow(256, k), 256);
        }
    }
    proof {
        assert(pow(256, 8) == 0x1_0000_0000_0000_0000) by {
            reveal_with_fuel(pow, 9);
        }
        assert(v as int / pow(256, 8) == 0) by {
            assert(v < 0x1_0000_0000_0000_0000);
            vstd::arithmetic::div_mod::lemma_basic_div(v as int, 0x1_0000_0000_0000_0000);
        }
        assert(v as int % pow(256, 8) == v) by {
            lemma_small_mod(v as nat, 0x1_0000_0000_0000_0000nat);
        }
        lemma_be_val_skip_zeros(out@, 24);
    }
    out
}

} // verus!

