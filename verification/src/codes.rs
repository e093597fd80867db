//! Error kinds surfaced by the broker and their numeric status encoding.

use vstd::prelude::*;

verus! {

/// The failure kinds a request can run into.
///
/// `Busy`, `SizeExceeded`, `OutOfResources` and `Unsupported` are detected
/// synchronously during command dispatch; `TransportFailure` and
/// `InvalidAccess` arrive asynchronously with a completion event and reach the
/// process only through its notification.
#[derive(Copy, Clone, PartialEq, Eq, Structural, Debug)]
pub enum ErrorCode {
    /// The transport reported a generic failure.
    TransportFailure,
    /// Another request is already in flight.
    Busy,
    /// A process memory region could not be entered.
    InvalidAccess,
    /// The frame does not fit the transfer buffer.
    SizeExceeded,
    /// The transfer buffer is unavailable, or per-process storage could not
    /// be allocated.
    OutOfResources,
    /// Unknown command identifier or registration slot.
    Unsupported,
}

/// The numeric status carried by a notification: 0 for success, a distinct
/// nonzero code per failure kind.
pub open spec fn statuscode(r: Result<(), ErrorCode>) -> u32 {
    match r {
        Ok(()) => 0,
        Err(ErrorCode::TransportFailure) => 1,
        Err(ErrorCode::Busy) => 2,
        Err(ErrorCode::InvalidAccess) => 6,
        Err(ErrorCode::SizeExceeded) => 7,
        Err(ErrorCode::OutOfResources) => 9,
        Err(ErrorCode::Unsupported) => 10,
    }
}

/// Encode a result as the numeric status delivered through the notification
/// channel.
pub fn into_statuscode(r: Result<(), ErrorCode>) -> (s: u32)
    ensures
        s == statuscode(r),
{
    match r {
        Ok(()) => 0,
        Err(ErrorCode::TransportFailure) => 1,
        Err(ErrorCode::Busy) => 2,
        Err(ErrorCode::InvalidAccess) => 6,
        Err(ErrorCode::SizeExceeded) => 7,
        Err(ErrorCode::OutOfResources) => 9,
        Err(ErrorCode::Unsupported) => 10,
    }
}

} // verus!
