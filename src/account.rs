use vstd::prelude::*;
use crate::bytes::{
    be_bytes, be_nat, bytes32_at, bytes32_to_vec, concat_bytes,
    lemma_be_nat_of_bytes, lemma_bytes_of_be_nat, lemma_pow256_8, u64_be_at, u64_to_be,
};
use crate::error::{GIOError, ProtocolError};

verus! {

/// Length of the payload that answers an account query.
pub const ACCOUNT_PAYLOAD_LEN: usize = 72;

/// Length of a storage word.
pub const WORD_LEN: usize = 32;

/// The fixed fields of an account: big-endian balance, nonce and code hash.
#[derive(Debug, Clone, Copy, PartialEq, Eq)]
pub struct AccountFields {
    pub balance: [u8; 32],
    pub nonce: u64,
    pub code_hash: [u8; 32],
}

/// A full account record: the fixed fields and the account's code.
#[derive(Debug, Clone, PartialEq, Eq)]
pub struct Account {
    pub balance: [u8; 32],
    pub nonce: u64,
    pub code_hash: [u8; 32],
    pub code: Vec<u8>,
}

/// `f` holds the fields written in the 72-byte account payload `p`:
/// 32 bytes of balance, 8 bytes of nonce and 32 bytes of code hash, big-endian.
pub open spec fn fields_in_payload(f: AccountFields, p: Seq<u8>) -> bool {
    &&& p.len() == 72
    &&& f.balance@ == p.subrange(0, 32)
    &&& f.nonce as nat == be_nat(p.subrange(32, 40))
    &&& f.code_hash@ == p.subrange(40, 72)
}

/// The account payload that carries the fields `f`.
pub open spec fn payload_of_fields(f: AccountFields) -> Seq<u8> {
    f.balance@ + be_bytes(f.nonce as nat, 8) + f.code_hash@
}

/// Reads the fixed fields of an account from the oracle's payload, which must
/// be exactly 72 bytes long.
pub fn parse_account(payload: &Vec<u8>) -> (r: Result<AccountFields, GIOError>)
    ensures
        payload@.len() == 72 ==> r is Ok && fields_in_payload(r->Ok_0, payload@),
        payload@.len() != 72 ==> r == Err::<AccountFields, GIOError>(
            GIOError::BadResponseData(
                ProtocolError::InvalidLength { expected: 72, actual: payload@.len() as usize },
            ),
        ),
{
    let n = payload.len();
    if n != ACCOUNT_PAYLOAD_LEN {
        return Err(
            GIOError::BadResponseData(
                ProtocolError::InvalidLength { expected: ACCOUNT_PAYLOAD_LEN, actual: n },
            ),
        );
    }
    let balance = bytes32_at(payload, 0);
    let nonce = u64_be_at(payload, 32);
    let code_hash = bytes32_at(payload, 40);
    Ok(AccountFields { balance, nonce, code_hash })
}

/// The 72-byte account payload that carries the fields `f`.
pub fn encode_account_fields(f: &AccountFields) -> (r: Vec<u8>)
    ensures
        r@ == payload_of_fields(*f),
        r@.len() == 72,
{
    proof {
        lemma_pow256_8();
        lemma_be_nat_of_bytes(f.nonce as nat, 8);
    }
    let head = concat_bytes(&bytes32_to_vec(&f.balance), &u64_to_be(f.nonce));
    concat_bytes(&head, &bytes32_to_vec(&f.code_hash))
}

/// Re-encoding the fields read from an account payload gives back that payload,
/// and reading the payload of any fields gives back those fields.
pub proof fn lemma_account_payload_round_trip(f: AccountFields, p: Seq<u8>)
    ensures
        fields_in_payload(f, p) ==> payload_of_fields(f) == p,
        fields_in_payload(f, payload_of_fields(f)),
{
    lemma_pow256_8();
    lemma_be_nat_of_bytes(f.nonce as nat, 8);
    let q = payload_of_fields(f);
    assert(q.subrange(0, 32) =~= f.balance@);
    assert(q.subrange(32, 40) =~= be_bytes(f.nonce as nat, 8));
    assert(q.subrange(40, 72) =~= f.code_hash@);
    if fields_in_payload(f, p) {
        lemma_bytes_of_be_nat(p.subrange(32, 40));
        assert(q =~= p.subrange(0, 32) + p.subrange(32, 40) + p.subrange(40, 72));
        assert(q =~= p);
    }
}

/// Reads a storage word from the oracle's payload, which must be exactly 32
/// bytes long.
pub fn parse_storage(payload: &Vec<u8>) -> (r: Result<[u8; 32], GIOError>)
    ensures
        payload@.len() == 32 ==> r is Ok && r->Ok_0@ == payload@,
        payload@.len() != 32 ==> r == Err::<[u8; 32], GIOError>(
            GIOError::BadResponseData(
                ProtocolError::InvalidLength { expected: 32, actual: payload@.len() as usize },
            ),
        ),
{
    let n = payload.len();
    if n != WORD_LEN {
        return Err(
            GIOError::BadResponseData(ProtocolError::InvalidLength { expected: WORD_LEN, actual: n }),
        );
    }
    let w = bytes32_at(payload, 0);
    assert(payload@.subrange(0, 32) =~= payload@);
    Ok(w)
}

impl Account {
    /// The account record made of the fixed fields `fields` and the code `code`.
    pub fn assemble(fields: AccountFields, code: Vec<u8>) -> (r: Account)
        ensures
            r.balance == fields.balance,
            r.nonce == fields.nonce,
            r.code_hash == fields.code_hash,
            r.code@ == code@,
    {
        Account { balance: fields.balance, nonce: fields.nonce, code_hash: fields.code_hash, code }
    }
}

} // verus!
