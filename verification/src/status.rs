//! The status with which an RPC fails.

use vstd::prelude::*;

verus! {

/// The gRPC status codes that the plugin answers with.
#[derive(Clone, Copy, Debug, PartialEq, Eq, Structural)]
pub enum StatusCode {
    /// The caller's request names something that does not exist.
    InvalidArgument,
    /// The plugin could not do its own part.
    Internal,
}

/// A failed RPC: the code and a message for the caller.
#[derive(Debug, PartialEq, Eq)]
pub struct Status {
    pub code: StatusCode,
    pub message: String,
}

/// The message of the status that answers a request for the unknown device
/// id `id`.
pub open spec fn unknown_device_message(id: Seq<char>) -> Seq<char> {
    "unknown device ID "@ + id
}

/// The message of the status that answers a subscriber whose stream could
/// not take the first device list.
pub open spec fn send_failure_message() -> Seq<char> {
    "failed to send initial device list"@
}

impl Status {
    /// The status for a request that names the unknown device id `id`:
    /// `InvalidArgument`, with a message that ends in the id.
    pub fn unknown_device(id: &str) -> (s: Status)
        ensures
            s.code == StatusCode::InvalidArgument,
            s.message@ == unknown_device_message(id@),
    {
        let mut message = String::from_str("unknown device ID ");
        message.append(id);
        Status { code: StatusCode::InvalidArgument, message }
    }

    /// The status for a device-list stream that could not take its first
    /// item: `Internal`.
    pub fn send_failure() -> (s: Status)
        ensures
            s.code == StatusCode::Internal,
            s.message@ == send_failure_message(),
    {
        Status {
            code: StatusCode::Internal,
            message: String::from_str("failed to send initial device list"),
        }
    }
}

} // verus!
