//! The error taxonomy that crosses the RPC boundary.

use vstd::prelude::*;

verus! {

/// The only three failure categories a caller can ever see.
///
/// `InvalidParams` is caller-caused and carries a descriptive message.
/// `NotImplemented` marks a capability gap (an unimplemented method or an
/// unsupported block-selection mode). `InternalError` stands for a ledger
/// client failure and deliberately carries nothing, so backend detail can
/// never leak to the caller.
pub enum RpcError {
    InvalidParams(String),
    NotImplemented,
    InternalError,
}

/// Holds when `r` failed with `InvalidParams` carrying exactly `msg`.
pub open spec fn is_invalid_params<T>(r: Result<T, RpcError>, msg: Seq<char>) -> bool {
    &&& r matches Err(e)
    &&& e matches RpcError::InvalidParams(m)
    &&& m@ == msg
}

} // verus!
