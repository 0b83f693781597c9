//! Big-endian encoding of unsigned integers as byte strings.

use vstd::prelude::*;

verus! {

/// `256^n`.
pub open spec fn pow256(n: nat) -> nat
    decreases n,
{
    if n == 0 {
        1
    } else {
        256 * pow256((n - 1) as nat)
    }
}

/// The number that a byte string denotes, most significant byte first.
pub open spec fn be_value(s: Seq<u8>) -> nat
    decreases s.len(),
{
    if s.len() == 0 {
        0
    } else {
        be_value(s.drop_last()) * 256 + s.last() as nat
    }
}

/// The `n` least significant bytes of `v`, most significant byte first.
pub open spec fn be_bytes(v: nat, n: nat) -> Seq<u8>
    decreases n,
{
    if n == 0 {
        Seq::empty()
    } else {
        be_bytes(v / 256, (n - 1) as nat).push((v % 256) as u8)
    }
}

/// The number of bytes in the shortest big-endian encoding of `v`.
pub open spec fn min_be_len(v: nat) -> nat
    decreases v,
{
    if v == 0 {
        0
    } else {
        1 + min_be_len(v / 256)
    }
}

pub proof fn lemma_pow256_monotone(a: nat, b: nat)
    requires
        a <= b,
    ensures
        0 < pow256(a) <= pow256(b),
    decreases b,
{
    if a < b {
        lemma_pow256_monotone(a, (b - 1) as nat);
    } else if a > 0 {
        lemma_pow256_monotone((a - 1) as nat, (a - 1) as nat);
    }
}

pub proof fn lemma_pow256_16()
    ensures
        pow256(16) == u128::MAX as nat + 1,
        pow256(8) == u64::MAX as nat + 1,
        pow256(4) == u32::MAX as nat + 1,
        pow256(2) == u16::MAX as nat + 1,
{
    reveal_with_fuel(pow256, 17);
}

pub proof fn lemma_be_bytes_len(v: nat, n: nat)
    ensures
        be_bytes(v, n).len() == n,
    decreases n,
{
    if n > 0 {
        lemma_be_bytes_len(v / 256, (n - 1) as nat);
    }
}

/// A byte string of length `n` denotes a number below `256^n`.
pub proof fn lemma_be_value_bound(s: Seq<u8>)
    ensures
        be_value(s) < pow256(s.len()),
    decreases s.len(),
{
    if s.len() > 0 {
        lemma_be_value_bound(s.drop_last());
    }
}

/// Decoding the `n`-byte encoding of a number below `256^n` gives the number back.
pub proof fn lemma_be_value_of_bytes(v: nat, n: nat)
    requires
        v < pow256(n),
    ensures
        be_value(be_bytes(v, n)) == v,
    decreases n,
{
    if n > 0 {
        let rest = be_bytes(v / 256, (n - 1) as nat);
        lemma_be_value_of_bytes(v / 256, (n - 1) as nat);
        assert(be_bytes(v, n).drop_last() =~= rest);
    }
}

/// Encoding the number that a byte string denotes, at the string's length, gives the
/// string back.
pub proof fn lemma_be_bytes_of_value(s: Seq<u8>)
    ensures
        be_bytes(be_value(s), s.len()) == s,
    decreases s.len(),
{
    if s.len() > 0 {
        let v = be_value(s);
        lemma_be_bytes_of_value(s.drop_last());
        assert(v / 256 == be_value(s.drop_last()));
        assert(v % 256 == s.last() as nat);
        assert(be_bytes(v, s.len()) =~= s);
    } else {
        assert(be_bytes(be_value(s), s.len()) =~= s);
    }
}

pub proof fn lemma_min_be_len(v: nat)
    ensures
        v < pow256(min_be_len(v)),
        v > 0 ==> v >= pow256((min_be_len(v) - 1) as nat),
    decreases v,
{
    if v > 0 {
        lemma_min_be_len(v / 256);
    }
}

/// Reads the `n` bytes of `s` that start at `start` as a big-endian number.
pub fn be_read(s: &[u8], start: usize, n: usize) -> (r: u128)
    requires
        start + n <= s.len(),
        n <= 16,
    ensures
        r == be_value(s@.subrange(start as int, start + n)),
    decreases n,
{
    if n == 0 {
        0
    } else {
        let high: u128 = be_read(s, start, n - 1);
        let low: u8 = s[start + n - 1];
        proof {
            let whole = s@.subrange(start as int, start + n);
            assert(whole.drop_last() =~= s@.subrange(start as int, start + n - 1));
            lemma_be_value_bound(whole.drop_last());
            lemma_pow256_monotone(n as nat, 16);
            lemma_pow256_16();
        }
        high * 256 + low as u128
    }
}

/// Appends to `out` the `n` least significant bytes of `x`, most significant first.
pub fn be_write(out: &mut Vec<u8>, x: u128, n: usize)
    ensures
        final(out)@ == old(out)@ + be_bytes(x as nat, n as nat),
    decreases n,
{
    if n > 0 {
        be_write(out, x / 256, n - 1);
        out.push((x % 256) as u8);
        assert(out@ =~= old(out)@ + be_bytes(x as nat, n as nat));
    } else {
        assert(out@ =~= old(out)@ + be_bytes(x as nat, n as nat));
    }
}

/// The number of bytes in the shortest big-endian encoding of `x`.
pub fn be_len(x: u64) -> (n: usize)
    ensures
        n == min_be_len(x as nat),
        n <= 8,
    decreases x,
{
    if x == 0 {
        0
    } else {
        let rest: usize = be_len(x / 256);
        proof {
            lemma_min_be_len(x as nat);
            lemma_pow256_16();
            if rest >= 8 {
                lemma_pow256_monotone(8, rest as nat);
            }
        }
        rest + 1
    }
}

} // verus!
