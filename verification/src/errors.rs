//! The library's error taxonomy: parse failures, authentication
//! failures, and protocol failures on the sink push. Transport failures
//! happen outside the library and are not represented here.

use vstd::prelude::*;

verus! {

/// A field of one of the two JSON documents the library reads: the
/// login challenge and the network-status document.
#[derive(Debug, Clone, Copy, PartialEq, Eq, Structural)]
pub enum Field {
    Bandwidth,
    MinutesRx,
    MinutesTx,
    RxErrors,
    RxDropped,
    PasswordSalt,
    RequirePassword,
    DoSetupWizard,
    IsWireless,
    ErrorCode,
    MaxUsers,
    DenyState,
    DenyTimeout,
    MeshNetworkEnabledStatus,
    MeshUserEnabledConfig,
}

/// A malformed or incomplete JSON document.
#[derive(Debug, Clone, Copy, PartialEq, Eq, Structural)]
pub enum ParseError {
    /// The text is not a JSON document at all.
    Syntax,
    /// A required field is absent.
    Missing(Field),
    /// A field is present but has the wrong shape: not the expected
    /// type, an empty array where an element is required, or a number
    /// that is not an unsigned integer.
    Invalid(Field),
    /// A counter is an unsigned integer but too large to scale.
    TooLarge(Field),
}

/// A failure of the login handshake.
#[derive(Debug, Clone, Copy, PartialEq, Eq, Structural)]
pub enum AuthError {
    /// The credential POST came back with a non-success HTTP status.
    Status(u16),
    /// A successful POST carried no `XSRF-TOKEN` cookie. A session
    /// without its token would be unusable, so this is treated as an
    /// authentication failure rather than an empty credential.
    MissingXsrfToken,
    /// A successful POST carried no `Session` cookie; treated as an
    /// authentication failure for the same reason.
    MissingSession,
    /// The `Session` cookie is present but not an unsigned integer.
    SessionNotNumeric,
}

/// A failure of the login handshake as a whole: either an
/// authentication failure or a malformed challenge document.
#[derive(Debug, Clone, Copy, PartialEq, Eq, Structural)]
pub enum LoginError {
    Auth(AuthError),
    Parse(ParseError),
    /// The driver handed the handshake an event its current state does
    /// not expect; the protocol order is strict.
    UnexpectedEvent,
}

/// An unexpected HTTP status from the metric sink.
#[derive(Debug, Clone, Copy, PartialEq, Eq, Structural)]
pub enum ProtocolError {
    UnexpectedStatus(u16),
}

} // verus!
