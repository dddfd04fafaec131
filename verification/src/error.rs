//! The bridge's command error: a bounded vocabulary with stable, sanitized
//! `{ code, message }` shapes.

use vstd::prelude::*;

use crate::models::NativeCallFailureCode;

verus! {

/// Every way a bridge command can be rejected.
#[derive(Debug, Clone, Copy, PartialEq, Eq, Structural)]
pub enum Error {
    ActorUnavailable,
    PlatformCallUnsupported,
    PlatformCallBusy,
    PlatformCallStaleSession,
    PlatformCallStartFailed,
    PlatformCallStopFailed,
    /// A failure in the bounded native vocabulary.
    Failure(NativeCallFailureCode),
    /// A native invocation did not complete within its time bound.
    Timeout,
}

/// Result of a bridge command.
pub type Result<T> = core::result::Result<T, Error>;

impl Error {
    /// The wire code of this error.
    pub open spec fn wire(self) -> Seq<char> {
        match self {
            Error::ActorUnavailable => "actor_unavailable"@,
            Error::PlatformCallUnsupported => "platform_call_unsupported"@,
            Error::PlatformCallBusy => "platform_call_busy"@,
            Error::PlatformCallStaleSession => "platform_call_stale_session"@,
            Error::PlatformCallStartFailed => "platform_call_start_failed"@,
            Error::PlatformCallStopFailed => "platform_call_stop_failed"@,
            Error::Failure(code) => code.wire(),
            Error::Timeout => "timeout"@,
        }
    }

    /// The static message of this error.
    pub open spec fn message_text(self) -> Seq<char> {
        match self {
            Error::ActorUnavailable => "call lifecycle unavailable"@,
            Error::PlatformCallUnsupported =>
                "platform call lifecycle is not supported on this platform"@,
            Error::PlatformCallBusy => "platform call lifecycle is already active"@,
            Error::PlatformCallStaleSession =>
                "platform call session does not match the active session"@,
            Error::PlatformCallStartFailed => "platform call lifecycle failed to start"@,
            Error::PlatformCallStopFailed => "platform call lifecycle failed to stop"@,
            Error::Failure(code) => code.message_text(),
            Error::Timeout => "the native call did not respond in time"@,
        }
    }

    /// The error for a failure in the bounded native vocabulary.
    pub fn failure(code: NativeCallFailureCode) -> (r: Self)
        ensures
            r == Error::Failure(code),
    {
        Error::Failure(code)
    }

    /// Wire code string.
    pub fn code(&self) -> (r: &'static str)
        ensures
            r@ == self.wire(),
    {
        match self {
            Error::ActorUnavailable => "actor_unavailable",
            Error::PlatformCallUnsupported => "platform_call_unsupported",
            Error::PlatformCallBusy => "platform_call_busy",
            Error::PlatformCallStaleSession => "platform_call_stale_session",
            Error::PlatformCallStartFailed => "platform_call_start_failed",
            Error::PlatformCallStopFailed => "platform_call_stop_failed",
            Error::Failure(code) => code.code(),
            Error::Timeout => "timeout",
        }
    }

    /// Static message for the error; raw native detail never appears here.
    pub fn message(&self) -> (r: &'static str)
        ensures
            r@ == self.message_text(),
    {
        match self {
            Error::ActorUnavailable => "call lifecycle unavailable",
            Error::PlatformCallUnsupported =>
                "platform call lifecycle is not supported on this platform",
            Error::PlatformCallBusy => "platform call lifecycle is already active",
            Error::PlatformCallStaleSession =>
                "platform call session does not match the active session",
            Error::PlatformCallStartFailed => "platform call lifecycle failed to start",
            Error::PlatformCallStopFailed => "platform call lifecycle failed to stop",
            Error::Failure(code) => code.message(),
            Error::Timeout => "the native call did not respond in time",
        }
    }
}

/// Distinct errors have distinct wire codes: a code identifies its error.
pub proof fn lemma_error_codes_distinct(a: Error, b: Error)
    requires
        a != b,
    ensures
        a.wire() != b.wire(),
{
    reveal_strlit("actor_unavailable");
    reveal_strlit("platform_call_unsupported");
    reveal_strlit("platform_call_busy");
    reveal_strlit("platform_call_stale_session");
    reveal_strlit("platform_call_start_failed");
    reveal_strlit("platform_call_stop_failed");
    reveal_strlit("timeout");
    reveal_strlit("invalid_request");
    reveal_strlit("busy");
    reveal_strlit("permission_denied");
    reveal_strlit("connect_failed");
    reveal_strlit("media_failed");
    reveal_strlit("disconnected");
    reveal_strlit("cancelled");
    reveal_strlit("unavailable");
    reveal_strlit("unexpected");
    assert("actor_unavailable"@.len() == 17);
    assert("platform_call_unsupported"@.len() == 25);
    assert("platform_call_busy"@.len() == 18);
    assert("platform_call_stale_session"@.len() == 27);
    assert("platform_call_start_failed"@.len() == 26);
    assert("platform_call_stop_failed"@.len() == 25);
    assert("timeout"@.len() == 7);
    assert("invalid_request"@.len() == 15);
    assert("busy"@.len() == 4);
    assert("permission_denied"@.len() == 17);
    assert("connect_failed"@.len() == 14);
    assert("media_failed"@.len() == 12);
    assert("disconnected"@.len() == 12);
    assert("cancelled"@.len() == 9);
    assert("unavailable"@.len() == 11);
    assert("unexpected"@.len() == 10);
    assert("media_failed"@[0] != "disconnected"@[0]);
    assert("platform_call_unsupported"@[14] != "platform_call_stop_failed"@[14]);
    assert("actor_unavailable"@[0] != "permission_denied"@[0]);
    match (a, b) {
        (Error::Failure(x), Error::Failure(y)) => {
            crate::models::lemma_failure_wire_codes_distinct(x, y);
        },
        _ => {},
    }
}

} // verus!
