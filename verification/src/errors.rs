//! The error taxonomy of the transport layer.

use vstd::prelude::*;

verus! {

/// Every fault the transport layer can report.
///
/// Dial-side faults (`ConnectTimeout`, `ConnectFailed`) surface to the
/// caller; listener-side faults (`AcceptFailed`) are logged and the accept
/// loop goes on; reader-side faults (`ConnectionClosed`, `FrameTooLarge`,
/// `MalformedPayload`) end that peer's reader task and remove the peer;
/// `WriteFailed` is per-peer during a broadcast and removes only that peer;
/// `EncodeFailed` fails the whole broadcast call.
#[derive(Debug, Clone, Copy, PartialEq, Eq, Structural)]
pub enum NetError {
    ConnectTimeout,
    ConnectFailed,
    AcceptFailed,
    ConnectionClosed,
    FrameTooLarge,
    MalformedPayload,
    WriteFailed,
    EncodeFailed,
}

impl NetError {
    /// A short fixed description, usable in logs.
    pub fn describe(&self) -> (r: &'static str)
        ensures
            r@ == self.spec_describe(),
    {
        match self {
            NetError::ConnectTimeout => "connection attempt timed out",
            NetError::ConnectFailed => "connection attempt failed",
            NetError::AcceptFailed => "accepting a connection failed",
            NetError::ConnectionClosed => "connection closed",
            NetError::FrameTooLarge => "frame exceeds the maximum message size",
            NetError::MalformedPayload => "message body could not be parsed",
            NetError::WriteFailed => "writing to a peer failed",
            NetError::EncodeFailed => "message could not be encoded",
        }
    }

    /// What `describe` returns for each variant.
    pub open spec fn spec_describe(self) -> Seq<char> {
        match self {
            NetError::ConnectTimeout => "connection attempt timed out"@,
            NetError::ConnectFailed => "connection attempt failed"@,
            NetError::AcceptFailed => "accepting a connection failed"@,
            NetError::ConnectionClosed => "connection closed"@,
            NetError::FrameTooLarge => "frame exceeds the maximum message size"@,
            NetError::MalformedPayload => "message body could not be parsed"@,
            NetError::WriteFailed => "writing to a peer failed"@,
            NetError::EncodeFailed => "message could not be encoded"@,
        }
    }
}

} // verus!
