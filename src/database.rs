use vstd::prelude::*;
use crate::account::AccountFields;
use crate::codec::{
    account_payload, encode_account_query, encode_hint_query, encode_preimage_query,
    encode_storage_query, hint_payload, preimage_payload, storage_payload, GIODomain, GIOHash,
    GIOHint, GIOQuery,
};
use crate::walker::BlockWalk;

verus! {

/// The state lookups of one call, all answered by the oracle for one fixed
/// block hash. Nothing is cached: each lookup issues its own queries.
#[derive(Debug, Clone, Copy, PartialEq, Eq)]
pub struct GIODatabase {
    pub block_hash: [u8; 32],
}

impl GIODatabase {
    /// A database that reads the state at `block_hash`.
    pub fn new(block_hash: [u8; 32]) -> (r: GIODatabase)
        ensures
            r.block_hash == block_hash,
    {
        GIODatabase { block_hash }
    }

    /// The query for the fixed fields of `address`.
    pub fn account_query(&self, address: &[u8; 20]) -> (r: GIOQuery)
        ensures
            r.domain == GIODomain::GetAccount,
            r.payload@ == account_payload(self.block_hash@, address@),
    {
        GIOQuery { domain: GIODomain::GetAccount, payload: encode_account_query(&self.block_hash, address) }
    }

    /// The queries that fetch the code of `address` once its fields are known,
    /// in order: the hint announcing the code preimage, then the fetch of the
    /// preimage of the code hash. The answer to the second is the code.
    pub fn code_queries(&self, address: &[u8; 20], fields: &AccountFields) -> (r: Vec<GIOQuery>)
        ensures
            r@.len() == 2,
            r@[0].domain == GIODomain::PreimageHint,
            r@[0].payload@ == hint_payload(
                GIOHint::EthCodePreimage,
                account_payload(self.block_hash@, address@),
            ),
            r@[1].domain == GIODomain::GetImage,
            r@[1].payload@ == preimage_payload(GIOHash::Keccak256, fields.code_hash@),
    {
        let key = encode_account_query(&self.block_hash, address);
        let hint = GIOQuery {
            domain: GIODomain::PreimageHint,
            payload: encode_hint_query(GIOHint::EthCodePreimage, &key),
        };
        let fetch = GIOQuery {
            domain: GIODomain::GetImage,
            payload: encode_preimage_query(GIOHash::Keccak256, &fields.code_hash),
        };
        let mut r: Vec<GIOQuery> = Vec::new();
        r.push(hint);
        r.push(fetch);
        r
    }

    /// The query for storage slot `slot` (a big-endian word) of `address`.
    pub fn storage_query(&self, address: &[u8; 20], slot: &[u8; 32]) -> (r: GIOQuery)
        ensures
            r.domain == GIODomain::GetStorage,
            r.payload@ == storage_payload(self.block_hash@, address@, slot@),
    {
        GIOQuery {
            domain: GIODomain::GetStorage,
            payload: encode_storage_query(&self.block_hash, address, slot),
        }
    }

    /// A walk from the database's block hash towards the block numbered `number`.
    pub fn block_walk(&self, number: u64) -> (r: BlockWalk)
        ensures
            r.wf(),
            r.target_spec() == number,
            r.current_spec() == self.block_hash@,
            r.start() == self.block_hash@,
            r.above_spec() is None,
    {
        BlockWalk::new(self.block_hash, number)
    }
}

} // verus!
