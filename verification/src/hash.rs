//! Keccak-256 and the two ways in which the address of a new contract is derived.

use vstd::prelude::*;
use crate::encoding::{be_bytes, be_len, be_write, lemma_be_bytes_len, min_be_len};
use crate::primitives::{Address, B256, U256};

verus! {

/// The 32-byte Keccak-256 digest of a byte string.
pub uninterp spec fn keccak256_digest(bytes: Seq<u8>) -> Seq<u8>;

/// Calls `alloy_primitives::keccak256` and hands back the 32 bytes of the digest it
/// returns. Nothing is proved of the hash function: its result is named.
#[verifier::external_body]
fn keccak256_raw(bytes: &[u8]) -> (digest: [u8; 32])
    ensures
        digest@ == keccak256_digest(bytes@),
{
    alloy_primitives::keccak256(bytes).0
}

/// The Keccak-256 hash of a byte string, as a digest value.
pub open spec fn keccak256_spec(bytes: Seq<u8>) -> B256 {
    B256::from_be_bytes_spec(keccak256_digest(bytes))
}

/// The Keccak-256 hash of `bytes`.
pub fn keccak256(bytes: &[u8]) -> (hash: B256)
    ensures
        hash == keccak256_spec(bytes@),
{
    let digest = keccak256_raw(bytes);
    B256::from_be_bytes(&digest)
}

/// The RLP encoding of a nonce: the single byte `0x80` for zero, the number itself
/// below `0x80`, else a length byte and the shortest big-endian form.
pub open spec fn rlp_nonce(nonce: u64) -> Seq<u8> {
    if nonce == 0 {
        seq![0x80u8]
    } else if nonce < 0x80 {
        seq![nonce as u8]
    } else {
        seq![(0x80 + min_be_len(nonce as nat)) as u8] + be_bytes(
            nonce as nat,
            min_be_len(nonce as nat),
        )
    }
}

/// The RLP encoding of the list `[caller, nonce]`.
pub open spec fn create_preimage(caller: Address, nonce: u64) -> Seq<u8> {
    seq![(0xc0 + 21 + rlp_nonce(nonce).len()) as u8, 0x94u8] + caller.be_bytes_spec() + rlp_nonce(
        nonce,
    )
}

/// `0xff ‖ caller ‖ salt ‖ init_code_hash`.
pub open spec fn create2_preimage(caller: Address, salt: U256, init_code_hash: B256) -> Seq<u8> {
    seq![0xffu8] + caller.be_bytes_spec() + salt.be_bytes_spec() + init_code_hash.be_bytes_spec()
}

/// The address of a contract made by `CREATE`: the last 20 bytes of the hash of the
/// RLP list of the caller and its nonce.
pub open spec fn create_address_spec(caller: Address, nonce: u64) -> Address {
    Address::from_digest_spec(keccak256_digest(create_preimage(caller, nonce)))
}

/// The address of a contract made by `CREATE2`: the last 20 bytes of the hash of
/// `0xff ‖ caller ‖ salt ‖ init_code_hash`.
pub open spec fn create2_address_spec(caller: Address, salt: U256, init_code_hash: B256) -> Address {
    Address::from_digest_spec(keccak256_digest(create2_preimage(caller, salt, init_code_hash)))
}

/// Appends the RLP encoding of `nonce` to `out`.
pub fn rlp_write_nonce(out: &mut Vec<u8>, nonce: u64)
    ensures
        final(out)@ == old(out)@ + rlp_nonce(nonce),
        1 <= rlp_nonce(nonce).len() <= 9,
{
    proof {
        lemma_be_bytes_len(nonce as nat, min_be_len(nonce as nat));
    }
    if nonce == 0 {
        out.push(0x80);
        assert(out@ =~= old(out)@ + rlp_nonce(nonce));
    } else if nonce < 0x80 {
        out.push(nonce as u8);
        assert(out@ =~= old(out)@ + rlp_nonce(nonce));
    } else {
        let n: usize = be_len(nonce);
        out.push((0x80 + n) as u8);
        be_write(out, nonce as u128, n);
        assert(out@ =~= old(out)@ + rlp_nonce(nonce));
    }
}

impl Address {
    /// The address of the contract that this address makes by `CREATE` at `nonce`.
    pub fn create(&self, nonce: u64) -> (created: Address)
        ensures
            created == create_address_spec(*self, nonce),
    {
        let mut item: Vec<u8> = Vec::new();
        rlp_write_nonce(&mut item, nonce);
        assert(item@ =~= rlp_nonce(nonce));
        let mut bytes: Vec<u8> = Vec::new();
        bytes.push((0xc0 + 21 + item.len()) as u8);
        bytes.push(0x94);
        be_write(&mut bytes, self.hi as u128, 4);
        be_write(&mut bytes, self.lo, 16);
        bytes.append(&mut item);
        assert(bytes@ =~= create_preimage(*self, nonce));
        let digest = keccak256_raw(bytes.as_slice());
        Address::from_digest(&digest)
    }

    /// The address of the contract that this address makes by `CREATE2` with `salt`
    /// from init code whose hash is `init_code_hash`.
    pub fn create2(&self, salt: &U256, init_code_hash: &B256) -> (created: Address)
        ensures
            created == create2_address_spec(*self, *salt, *init_code_hash),
    {
        let mut bytes: Vec<u8> = Vec::new();
        bytes.push(0xff);
        be_write(&mut bytes, self.hi as u128, 4);
        be_write(&mut bytes, self.lo, 16);
        be_write(&mut bytes, salt.hi, 16);
        be_write(&mut bytes, salt.lo, 16);
        be_write(&mut bytes, init_code_hash.hi, 16);
        be_write(&mut bytes, init_code_hash.lo, 16);
        assert(bytes@ =~= create2_preimage(*self, *salt, *init_code_hash));
        let digest = keccak256_raw(bytes.as_slice());
        Address::from_digest(&digest)
    }
}

} // verus!
