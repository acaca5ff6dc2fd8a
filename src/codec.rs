use vstd::prelude::*;
use crate::bytes::{be_bytes, bytes20_to_vec, bytes32_to_vec, concat_bytes};

verus! {

/// The kind of an oracle query.
#[derive(Debug, Clone, Copy, PartialEq, Eq, Structural)]
pub enum GIODomain {
    GetStorage,
    GetAccount,
    GetImage,
    PreimageHint,
}

/// The subject of a `PreimageHint` query.
#[derive(Debug, Clone, Copy, PartialEq, Eq, Structural)]
pub enum GIOHint {
    EthCodePreimage,
    EthBlockPreimage,
}

/// The hash function that keys a `GetImage` query.
#[derive(Debug, Clone, Copy, PartialEq, Eq, Structural)]
pub enum GIOHash {
    Keccak256,
}

impl GIODomain {
    /// The numeric tag of the domain on the wire.
    pub open spec fn tag(self) -> u32 {
        match self {
            GIODomain::GetStorage => 0x27,
            GIODomain::GetAccount => 0x29,
            GIODomain::GetImage => 0x2a,
            GIODomain::PreimageHint => 0x2e,
        }
    }

    /// The numeric tag of the domain.
    pub fn code(self) -> (r: u32)
        ensures
            r == self.tag(),
    {
        match self {
            GIODomain::GetStorage => 0x27,
            GIODomain::GetAccount => 0x29,
            GIODomain::GetImage => 0x2a,
            GIODomain::PreimageHint => 0x2e,
        }
    }

    /// The tag as four big-endian bytes.
    pub fn to_bytes(self) -> (r: [u8; 4])
        ensures
            r@ == be_bytes(self.tag() as nat, 4),
    {
        proof {
            reveal_with_fuel(be_bytes, 5);
        }
        let r: [u8; 4] = match self {
            GIODomain::GetStorage => [0, 0, 0, 0x27],
            GIODomain::GetAccount => [0, 0, 0, 0x29],
            GIODomain::GetImage => [0, 0, 0, 0x2a],
            GIODomain::PreimageHint => [0, 0, 0, 0x2e],
        };
        assert(r@ =~= be_bytes(self.tag() as nat, 4));
        r
    }
}

impl GIOHint {
    /// The numeric tag of the hint on the wire.
    pub open spec fn tag(self) -> u8 {
        match self {
            GIOHint::EthCodePreimage => 1,
            GIOHint::EthBlockPreimage => 2,
        }
    }

    /// The tag as its single byte.
    pub fn to_bytes(self) -> (r: [u8; 1])
        ensures
            r@ == seq![self.tag()],
    {
        let r: [u8; 1] = match self {
            GIOHint::EthCodePreimage => [1],
            GIOHint::EthBlockPreimage => [2],
        };
        assert(r@ =~= seq![self.tag()]);
        r
    }
}

impl GIOHash {
    /// The numeric tag of the hash function on the wire.
    pub open spec fn tag(self) -> u8 {
        match self {
            GIOHash::Keccak256 => 2,
        }
    }

    /// The tag as its single byte.
    pub fn to_bytes(self) -> (r: [u8; 1])
        ensures
            r@ == seq![self.tag()],
    {
        let r: [u8; 1] = [2];
        assert(r@ =~= seq![self.tag()]);
        r
    }
}

/// One query for the oracle: its domain and its payload bytes.
#[derive(Debug, Clone, PartialEq, Eq)]
pub struct GIOQuery {
    pub domain: GIODomain,
    pub payload: Vec<u8>,
}

/// Payload of an account query: block hash, then address.
pub open spec fn account_payload(block_hash: Seq<u8>, address: Seq<u8>) -> Seq<u8> {
    block_hash + address
}

/// Payload of a storage query: block hash, address, then slot index.
pub open spec fn storage_payload(block_hash: Seq<u8>, address: Seq<u8>, slot: Seq<u8>) -> Seq<u8> {
    block_hash + address + slot
}

/// Payload of a preimage query: hash-function tag, then hash.
pub open spec fn preimage_payload(alg: GIOHash, hash: Seq<u8>) -> Seq<u8> {
    seq![alg.tag()] + hash
}

/// Payload of a hint query: hint tag, then the hinted bytes.
pub open spec fn hint_payload(hint: GIOHint, body: Seq<u8>) -> Seq<u8> {
    seq![hint.tag()] + body
}

/// The account query for `address` at `block_hash`.
pub fn encode_account_query(block_hash: &[u8; 32], address: &[u8; 20]) -> (r: Vec<u8>)
    ensures
        r@ == account_payload(block_hash@, address@),
        r@.len() == 52,
{
    concat_bytes(&bytes32_to_vec(block_hash), &bytes20_to_vec(address))
}

/// The storage query for slot `slot` of `address` at `block_hash`.
pub fn encode_storage_query(block_hash: &[u8; 32], address: &[u8; 20], slot: &[u8; 32]) -> (r: Vec<u8>)
    ensures
        r@ == storage_payload(block_hash@, address@, slot@),
        r@.len() == 84,
{
    let head = encode_account_query(block_hash, address);
    concat_bytes(&head, &bytes32_to_vec(slot))
}

/// The preimage query for `hash` under the hash function `alg`.
pub fn encode_preimage_query(alg: GIOHash, hash: &[u8; 32]) -> (r: Vec<u8>)
    ensures
        r@ == preimage_payload(alg, hash@),
        r@.len() == 33,
{
    let tag = alg.to_bytes();
    let mut t: Vec<u8> = Vec::new();
    t.push(tag[0]);
    assert(t@ =~= seq![alg.tag()]);
    concat_bytes(&t, &bytes32_to_vec(hash))
}

/// The hint query announcing `body` under `hint`.
pub fn encode_hint_query(hint: GIOHint, body: &Vec<u8>) -> (r: Vec<u8>)
    requires
        body@.len() < usize::MAX,
    ensures
        r@ == hint_payload(hint, body@),
{
    let tag = hint.to_bytes();
    let mut t: Vec<u8> = Vec::new();
    t.push(tag[0]);
    assert(t@ =~= seq![hint.tag()]);
    concat_bytes(&t, body)
}

} // verus!
