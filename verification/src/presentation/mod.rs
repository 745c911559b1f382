//! The HTTP and gRPC front ends: paging defaults, bearer tokens, the
//! authenticated user, and the gRPC service's parts.
use vstd::prelude::*;

pub mod grpc_service;
pub mod middleware;

verus! {

/// The offset of a post list when none is given.
pub const DEFAULT_LIST_OFFSET: u32 = 0;

/// The length of a post list when none is given.
pub const DEFAULT_LIST_LIMIT: u8 = 10;

/// The offset and limit of an HTTP post list: the defaults for what is not
/// given.
pub fn page_params(offset: Option<u32>, limit: Option<u8>) -> (r: (u32, u8))
    ensures
        r.0 == match offset { Some(o) => o, None => DEFAULT_LIST_OFFSET },
        r.1 == match limit { Some(l) => l, None => DEFAULT_LIST_LIMIT },
{
    let o = match offset {
        Some(o) => o,
        None => DEFAULT_LIST_OFFSET,
    };
    let l = match limit {
        Some(l) => l,
        None => DEFAULT_LIST_LIMIT,
    };
    (o, l)
}

} // verus!
