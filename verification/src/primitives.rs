//! Words, hashes and addresses.

use vstd::prelude::*;
use crate::encoding::{
    be_bytes, be_read, be_value, be_write, lemma_be_bytes_len, lemma_be_value_bound,
    lemma_pow256_16,
};

verus! {

/// A 256-bit unsigned integer, held as two 128-bit halves.
#[derive(Clone, Copy, Debug, PartialEq, Eq, Structural, Hash)]
pub struct U256 {
    pub hi: u128,
    pub lo: u128,
}

impl U256 {
    /// `2^256`.
    pub open spec fn modulus() -> nat {
        0x1_0000_0000_0000_0000nat * 0x1_0000_0000_0000_0000 * 0x1_0000_0000_0000_0000
            * 0x1_0000_0000_0000_0000
    }

    /// The number that the word holds: `hi * 2^128 + lo`.
    pub open spec fn value(self) -> nat {
        self.hi as nat * 0x1_0000_0000_0000_0000 * 0x1_0000_0000_0000_0000 + self.lo as nat
    }

    /// The word that holds `n`, for `n` below `2^256`.
    pub open spec fn from_nat(n: nat) -> U256 {
        let hi = n / 0x1_0000_0000_0000_0000 / 0x1_0000_0000_0000_0000;
        U256 {
            hi: hi as u128,
            lo: (n - hi * 0x1_0000_0000_0000_0000 * 0x1_0000_0000_0000_0000) as u128,
        }
    }

    /// The sum modulo `2^256`.
    #[verifier::opaque]
    pub open spec fn wrapping_add_spec(self, other: U256) -> U256 {
        let sum = self.value() + other.value();
        U256::from_nat(
            if sum >= U256::modulus() {
                (sum - U256::modulus()) as nat
            } else {
                sum
            },
        )
    }

    /// The difference modulo `2^256`.
    #[verifier::opaque]
    pub open spec fn wrapping_sub_spec(self, other: U256) -> U256 {
        U256::from_nat(
            if self.value() >= other.value() {
                (self.value() - other.value()) as nat
            } else {
                (self.value() + U256::modulus() - other.value()) as nat
            },
        )
    }

    /// The 32 bytes of the word, most significant first.
    pub open spec fn be_bytes_spec(self) -> Seq<u8> {
        be_bytes(self.hi as nat, 16) + be_bytes(self.lo as nat, 16)
    }

    /// Two words that hold the same number are the same word, and every word holds a
    /// number below `2^256`.
    pub proof fn lemma_value_injective(a: U256, b: U256)
        ensures
            a.value() < U256::modulus(),
            U256::from_nat(a.value()) == a,
            a.value() == b.value() ==> a == b,
    {
    }

    /// `from_nat` gives the word that holds the number.
    pub proof fn lemma_value_from_nat(n: nat)
        requires
            n < U256::modulus(),
        ensures
            U256::from_nat(n).value() == n,
    {
    }

    /// Adding a word and taking it away again, both modulo `2^256`, changes nothing.
    pub proof fn lemma_wrapping_add_sub(a: U256, b: U256)
        ensures
            a.wrapping_add_spec(b).wrapping_sub_spec(b) == a,
            a.wrapping_sub_spec(b).wrapping_add_spec(b) == a,
    {
        reveal(U256::wrapping_add_spec);
        reveal(U256::wrapping_sub_spec);
        U256::lemma_value_injective(a, b);
        U256::lemma_value_injective(b, a);
        let m = U256::modulus();
        let sum = a.value() + b.value();
        let s: nat = if sum >= m { (sum - m) as nat } else { sum };
        let d: nat = if a.value() >= b.value() { (a.value() - b.value()) as nat } else { (a.value() + m - b.value()) as nat };
        U256::lemma_value_from_nat(s);
        U256::lemma_value_from_nat(d);
    }

    /// Adding to zero gives the word added, and a sum that fits is the plain sum.
    pub proof fn lemma_wrapping_add_plain(a: U256, b: U256)
        ensures
            (U256 { hi: 0, lo: 0 }).wrapping_add_spec(b) == b,
            a.value() + b.value() < U256::modulus() ==> a.wrapping_add_spec(b).value() == a.value()
                + b.value(),
            a.value() >= b.value() ==> a.wrapping_sub_spec(b).value() == a.value() - b.value(),
    {
        reveal(U256::wrapping_add_spec);
        reveal(U256::wrapping_sub_spec);
        U256::lemma_value_injective(a, b);
        U256::lemma_value_injective(b, a);
    }

    pub fn new(hi: u128, lo: u128) -> (r: U256)
        ensures
            r == (U256 { hi, lo }),
    {
        U256 { hi, lo }
    }

    pub fn zero() -> (r: U256)
        ensures
            r == (U256 { hi: 0, lo: 0 }),
            r.value() == 0,
    {
        U256 { hi: 0, lo: 0 }
    }

    pub fn from_u64(v: u64) -> (r: U256)
        ensures
            r.value() == v,
            r == (U256 { hi: 0, lo: v as u128 }),
    {
        U256 { hi: 0, lo: v as u128 }
    }

    pub fn is_zero(&self) -> (r: bool)
        ensures
            r == (self.value() == 0),
    {
        self.hi == 0 && self.lo == 0
    }

    /// Whether `self` is strictly below `other`.
    pub fn lt(&self, other: &U256) -> (r: bool)
        ensures
            r == (self.value() < other.value()),
    {
        self.hi < other.hi || (self.hi == other.hi && self.lo < other.lo)
    }

    /// The sum, or `None` where it does not fit in 256 bits.
    pub fn checked_add(&self, other: &U256) -> (r: Option<U256>)
        ensures
            match r {
                Some(sum) => sum.value() == self.value() + other.value(),
                None => self.value() + other.value() >= U256::modulus(),
            },
    {
        let carry: bool = self.lo > u128::MAX - other.lo;
        let lo: u128 = self.lo.wrapping_add(other.lo);
        if self.hi > u128::MAX - other.hi {
            return None;
        }
        let hi: u128 = self.hi + other.hi;
        if carry {
            if hi == u128::MAX {
                return None;
            }
            Some(U256 { hi: hi + 1, lo })
        } else {
            Some(U256 { hi, lo })
        }
    }

    /// The difference, or `None` where `other` is the larger.
    pub fn checked_sub(&self, other: &U256) -> (r: Option<U256>)
        ensures
            match r {
                Some(diff) => diff.value() + other.value() == self.value(),
                None => self.value() < other.value(),
            },
    {
        if self.lt(other) {
            return None;
        }
        let lo: u128 = self.lo.wrapping_sub(other.lo);
        if self.lo >= other.lo {
            Some(U256 { hi: self.hi - other.hi, lo })
        } else {
            Some(U256 { hi: self.hi - other.hi - 1, lo })
        }
    }

    /// The sum modulo `2^256`.
    pub fn wrapping_add(&self, other: &U256) -> (r: U256)
        ensures
            r == self.wrapping_add_spec(*other),
    {
        reveal(U256::wrapping_add_spec);
        let carry: bool = self.lo > u128::MAX - other.lo;
        let lo: u128 = self.lo.wrapping_add(other.lo);
        let hi0: u128 = self.hi.wrapping_add(other.hi);
        let hi: u128 = if carry {
            hi0.wrapping_add(1)
        } else {
            hi0
        };
        U256 { hi, lo }
    }

    /// The difference modulo `2^256`.
    pub fn wrapping_sub(&self, other: &U256) -> (r: U256)
        ensures
            r == self.wrapping_sub_spec(*other),
    {
        reveal(U256::wrapping_sub_spec);
        let borrow: bool = self.lo < other.lo;
        let lo: u128 = self.lo.wrapping_sub(other.lo);
        let hi0: u128 = self.hi.wrapping_sub(other.hi);
        let hi: u128 = if borrow {
            hi0.wrapping_sub(1)
        } else {
            hi0
        };
        U256 { hi, lo }
    }

    /// The 32 bytes of the word, most significant first.
    pub fn to_be_bytes(&self) -> (out: Vec<u8>)
        ensures
            out@ == self.be_bytes_spec(),
            out@.len() == 32,
    {
        let mut out: Vec<u8> = Vec::new();
        be_write(&mut out, self.hi, 16);
        be_write(&mut out, self.lo, 16);
        proof {
            lemma_be_bytes_len(self.hi as nat, 16);
            lemma_be_bytes_len(self.lo as nat, 16);
            assert(out@ =~= self.be_bytes_spec());
        }
        out
    }

    /// The word that 32 bytes denote, most significant first.
    pub open spec fn from_be_bytes_spec(s: Seq<u8>) -> U256 {
        U256 {
            hi: be_value(s.subrange(0, 16)) as u128,
            lo: be_value(s.subrange(16, 32)) as u128,
        }
    }

    pub fn from_be_bytes(s: &[u8; 32]) -> (r: U256)
        ensures
            r == U256::from_be_bytes_spec(s@),
    {
        let hi: u128 = be_read(s.as_slice(), 0, 16);
        let lo: u128 = be_read(s.as_slice(), 16, 16);
        U256 { hi, lo }
    }
}

/// A 32-byte digest, held as two 128-bit halves of its big-endian reading.
#[derive(Clone, Copy, Debug, PartialEq, Eq, Structural, Hash)]
pub struct B256 {
    pub hi: u128,
    pub lo: u128,
}

impl B256 {
    /// The 32 bytes of the digest.
    pub open spec fn be_bytes_spec(self) -> Seq<u8> {
        be_bytes(self.hi as nat, 16) + be_bytes(self.lo as nat, 16)
    }

    /// The digest that 32 bytes make up.
    pub open spec fn from_be_bytes_spec(s: Seq<u8>) -> B256 {
        B256 {
            hi: be_value(s.subrange(0, 16)) as u128,
            lo: be_value(s.subrange(16, 32)) as u128,
        }
    }

    /// The hash of the empty byte string.
    pub open spec fn keccak_empty_spec() -> B256 {
        B256 { hi: 0xc5d2460186f7233c927e7db2dcc703c0, lo: 0xe500b653ca82273b7bfad8045d85a470 }
    }

    /// The hash of the two magic bytes `0xEF 0x00`.
    pub open spec fn eof_magic_hash_spec() -> B256 {
        B256 { hi: 0x9dbf3648db8210552e9c4f75c6a1c305, lo: 0x7c0ca432043bd648be15fe7be05646f5 }
    }

    pub fn new(hi: u128, lo: u128) -> (r: B256)
        ensures
            r == (B256 { hi, lo }),
    {
        B256 { hi, lo }
    }

    pub fn zero() -> (r: B256)
        ensures
            r == (B256 { hi: 0, lo: 0 }),
    {
        B256 { hi: 0, lo: 0 }
    }

    pub fn keccak_empty() -> (r: B256)
        ensures
            r == B256::keccak_empty_spec(),
    {
        B256 { hi: 0xc5d2460186f7233c927e7db2dcc703c0, lo: 0xe500b653ca82273b7bfad8045d85a470 }
    }

    pub fn eof_magic_hash() -> (r: B256)
        ensures
            r == B256::eof_magic_hash_spec(),
    {
        B256 { hi: 0x9dbf3648db8210552e9c4f75c6a1c305, lo: 0x7c0ca432043bd648be15fe7be05646f5 }
    }

    pub fn is_zero(&self) -> (r: bool)
        ensures
            r == (*self == (B256 { hi: 0, lo: 0 })),
    {
        self.hi == 0 && self.lo == 0
    }

    pub fn from_be_bytes(s: &[u8; 32]) -> (r: B256)
        ensures
            r == B256::from_be_bytes_spec(s@),
    {
        let hi: u128 = be_read(s.as_slice(), 0, 16);
        let lo: u128 = be_read(s.as_slice(), 16, 16);
        B256 { hi, lo }
    }

    pub fn to_be_bytes(&self) -> (out: Vec<u8>)
        ensures
            out@ == self.be_bytes_spec(),
            out@.len() == 32,
    {
        let mut out: Vec<u8> = Vec::new();
        be_write(&mut out, self.hi, 16);
        be_write(&mut out, self.lo, 16);
        proof {
            lemma_be_bytes_len(self.hi as nat, 16);
            lemma_be_bytes_len(self.lo as nat, 16);
            assert(out@ =~= self.be_bytes_spec());
        }
        out
    }
}

/// A 20-byte account identifier, held as the big-endian reading of its first four
/// bytes and of its last sixteen.
#[derive(Clone, Copy, Debug, PartialEq, Eq, Structural, Hash)]
pub struct Address {
    pub hi: u32,
    pub lo: u128,
}

impl Address {
    /// The 20 bytes of the address.
    pub open spec fn be_bytes_spec(self) -> Seq<u8> {
        be_bytes(self.hi as nat, 4) + be_bytes(self.lo as nat, 16)
    }

    /// The address that 20 bytes make up.
    pub open spec fn from_be_bytes_spec(s: Seq<u8>) -> Address {
        Address { hi: be_value(s.subrange(0, 4)) as u32, lo: be_value(s.subrange(4, 20)) as u128 }
    }

    /// The address in the last 20 bytes of a 32-byte digest.
    pub open spec fn from_digest_spec(digest: Seq<u8>) -> Address {
        Address::from_be_bytes_spec(digest.subrange(12, 32))
    }

    pub fn new(hi: u32, lo: u128) -> (r: Address)
        ensures
            r == (Address { hi, lo }),
    {
        Address { hi, lo }
    }

    pub fn zero() -> (r: Address)
        ensures
            r == (Address { hi: 0, lo: 0 }),
    {
        Address { hi: 0, lo: 0 }
    }

    pub fn from_be_bytes(s: &[u8; 20]) -> (r: Address)
        ensures
            r == Address::from_be_bytes_spec(s@),
    {
        let hi: u128 = be_read(s.as_slice(), 0, 4);
        let lo: u128 = be_read(s.as_slice(), 4, 16);
        proof {
            lemma_be_value_bound(s@.subrange(0, 4));
            lemma_pow256_16();
        }
        Address { hi: hi as u32, lo }
    }

    /// The address in the last 20 bytes of a 32-byte digest.
    pub fn from_digest(digest: &[u8; 32]) -> (r: Address)
        ensures
            r == Address::from_digest_spec(digest@),
    {
        let hi: u128 = be_read(digest.as_slice(), 12, 4);
        let lo: u128 = be_read(digest.as_slice(), 16, 16);
        proof {
            let tail = digest@.subrange(12, 32);
            assert(tail.subrange(0, 4) =~= digest@.subrange(12, 16));
            assert(tail.subrange(4, 20) =~= digest@.subrange(16, 32));
            lemma_be_value_bound(digest@.subrange(12, 16));
            lemma_pow256_16();
        }
        Address { hi: hi as u32, lo }
    }

    pub fn to_be_bytes(&self) -> (out: Vec<u8>)
        ensures
            out@ == self.be_bytes_spec(),
            out@.len() == 20,
    {
        let mut out: Vec<u8> = Vec::new();
        be_write(&mut out, self.hi as u128, 4);
        be_write(&mut out, self.lo, 16);
        proof {
            lemma_be_bytes_len(self.hi as nat, 4);
            lemma_be_bytes_len(self.lo as nat, 16);
            assert(out@ =~= self.be_bytes_spec());
        }
        out
    }
}

/// One storage slot of one account.
#[derive(Clone, Copy, Debug, PartialEq, Eq, Structural, Hash)]
pub struct SlotKey {
    pub address: Address,
    pub index: U256,
}

} // verus!
