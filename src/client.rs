use vstd::prelude::*;
use crate::codec::GIOQuery;
use crate::error::{GIOError, ProtocolError};
use crate::hex::{hex_decode, hex_encode, hex_prefixed, unhex};

verus! {

/// The only response code that means success.
pub const OK_CODE: u32 = 200;

/// The body of an oracle request: domain tag and hex-encoded payload.
#[derive(Debug, Clone, PartialEq, Eq)]
pub struct GIORequest {
    pub domain: u32,
    pub id: String,
}

/// A decoded oracle reply: response code and payload bytes.
#[derive(Debug, Clone, PartialEq, Eq)]
pub struct GIOResponse {
    pub code: u32,
    pub data: Vec<u8>,
}

impl GIOResponse {
    /// Whether the oracle answered with success.
    pub fn is_ok(&self) -> (r: bool)
        ensures
            r == (self.code == OK_CODE),
    {
        self.code == OK_CODE
    }
}

/// The request that carries `query` to the oracle.
pub fn encode_request(query: &GIOQuery) -> (r: GIORequest)
    ensures
        r.domain == query.domain.tag(),
        r.id@ == hex_prefixed(query.payload@),
{
    GIORequest { domain: query.domain.code(), id: hex_encode(&query.payload) }
}

/// Reads the oracle's reply fields. A response code other than 200 is an
/// error carrying that code, whatever the payload text; otherwise the payload
/// must be hex text.
pub fn decode_response(response_code: u32, response_hex: &str) -> (r: Result<GIOResponse, GIOError>)
    ensures
        response_code != OK_CODE ==> r == Err::<GIOResponse, GIOError>(
            GIOError::BadResponse { response_code },
        ),
        response_code == OK_CODE ==> match unhex(response_hex@) {
            Some(b) => r is Ok && r->Ok_0.code == OK_CODE && r->Ok_0.data@ == b,
            None => r == Err::<GIOResponse, GIOError>(
                GIOError::BadResponseData(ProtocolError::InvalidHex),
            ),
        },
{
    if response_code != OK_CODE {
        return Err(GIOError::BadResponse { response_code });
    }
    match hex_decode(response_hex) {
        Ok(data) => {
            let resp = GIOResponse { code: response_code, data };
            Ok(resp)
        },
        Err(e) => Err(e),
    }
}

} // verus!
