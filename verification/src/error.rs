//! Session-level error kinds. Any of these terminates the owning session;
//! other sessions are unaffected.

use vstd::prelude::*;

verus! {

/// The error kinds a session can fail with. `BitsError` covers framing
/// failures on the byte stream (a short read or a broken pipe);
/// `InvalidProtocolVersion` is the login rejection; `ListenFailed` is the
/// sole process-fatal error, raised by the listener at startup.
#[derive(Debug, Clone, PartialEq)]
pub enum Error {
    BitsError { message: String },
    WriteHandshakePacket,
    WriteKeepAlivePacket,
    ReadOnGroundPacket,
    ListenFailed,
    InvalidProtocolVersion,
}

} // verus!
