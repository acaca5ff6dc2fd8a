use vstd::prelude::*;

verus! {

/// Ways in which an oracle reply can be malformed.
#[derive(Debug, Clone, Copy, PartialEq, Eq, Structural)]
pub enum ProtocolError {
    /// The reply body is not the expected JSON object.
    InvalidJson,
    /// The reply payload is not a valid hex string.
    InvalidHex,
    /// The decoded payload does not have the length its query calls for.
    InvalidLength { expected: usize, actual: usize },
    /// A block header preimage does not decode as an RLP header.
    InvalidHeader,
    /// A parent header does not carry a lower number than its child.
    BrokenChain,
}

/// Errors of an oracle query or of a state lookup built on oracle queries.
#[derive(Debug, Clone, PartialEq, Eq)]
pub enum GIOError {
    /// The transport could not complete the exchange.
    EmitFailed(String),
    /// The oracle answered with a response code other than 200.
    BadResponse { response_code: u32 },
    /// The oracle answered with a payload that breaks the protocol.
    BadResponseData(ProtocolError),
    /// The block walk passed the requested height without meeting it.
    BlockNotFound { number: u64 },
}

/// Errors of one call executed by the EVM.
#[derive(Debug, Clone, PartialEq, Eq)]
pub enum EVMError {
    /// The engine failed or ended the call abnormally.
    ExecutionFailed(String),
}

} // verus!
