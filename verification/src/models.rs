//! Wire models exchanged between the guest, the bridge and the native room
//! plugins, with the bounded vocabularies every native value is folded into.

use vstd::prelude::*;
use vstd::string::*;

use crate::text::text_eq;

verus! {

/// Bounded connection-state vocabulary of every native snapshot.
#[derive(Debug, Clone, Copy, PartialEq, Eq, Structural)]
pub enum NativeCallConnectionState {
    Idle,
    Connecting,
    Connected,
    Reconnecting,
    Failed,
}

/// Bounded failure vocabulary shared by command errors and snapshot
/// `lastError`.
#[derive(Debug, Clone, Copy, PartialEq, Eq, Structural)]
pub enum NativeCallFailureCode {
    InvalidRequest,
    Busy,
    PermissionDenied,
    ConnectFailed,
    MediaFailed,
    Disconnected,
    Cancelled,
    Unavailable,
    Unexpected,
}

impl NativeCallFailureCode {
    /// The wire code of this failure.
    pub open spec fn wire(self) -> Seq<char> {
        match self {
            NativeCallFailureCode::InvalidRequest => "invalid_request"@,
            NativeCallFailureCode::Busy => "busy"@,
            NativeCallFailureCode::PermissionDenied => "permission_denied"@,
            NativeCallFailureCode::ConnectFailed => "connect_failed"@,
            NativeCallFailureCode::MediaFailed => "media_failed"@,
            NativeCallFailureCode::Disconnected => "disconnected"@,
            NativeCallFailureCode::Cancelled => "cancelled"@,
            NativeCallFailureCode::Unavailable => "unavailable"@,
            NativeCallFailureCode::Unexpected => "unexpected"@,
        }
    }

    /// The static, safe message of this failure.
    pub open spec fn message_text(self) -> Seq<char> {
        match self {
            NativeCallFailureCode::InvalidRequest => "the call request was invalid"@,
            NativeCallFailureCode::Busy => "another call is already active"@,
            NativeCallFailureCode::PermissionDenied =>
                "a microphone or camera permission was denied"@,
            NativeCallFailureCode::ConnectFailed => "the call failed to connect"@,
            NativeCallFailureCode::MediaFailed => "a microphone or camera update failed"@,
            NativeCallFailureCode::Disconnected => "the call connection ended unexpectedly"@,
            NativeCallFailureCode::Cancelled => "the operation was cancelled"@,
            NativeCallFailureCode::Unavailable => "the native call controller is unavailable"@,
            NativeCallFailureCode::Unexpected => "the call failed unexpectedly"@,
        }
    }

    /// Wire code string.
    pub fn code(&self) -> (r: &'static str)
        ensures
            r@ == self.wire(),
    {
        match self {
            NativeCallFailureCode::InvalidRequest => "invalid_request",
            NativeCallFailureCode::Busy => "busy",
            NativeCallFailureCode::PermissionDenied => "permission_denied",
            NativeCallFailureCode::ConnectFailed => "connect_failed",
            NativeCallFailureCode::MediaFailed => "media_failed",
            NativeCallFailureCode::Disconnected => "disconnected",
            NativeCallFailureCode::Cancelled => "cancelled",
            NativeCallFailureCode::Unavailable => "unavailable",
            NativeCallFailureCode::Unexpected => "unexpected",
        }
    }

    /// Static, safe message for the code. Native error strings are never
    /// forwarded.
    pub fn message(&self) -> (r: &'static str)
        ensures
            r@ == self.message_text(),
            r@.len() > 0,
    {
        match self {
            NativeCallFailureCode::InvalidRequest => {
                proof {
                    reveal_strlit("the call request was invalid");
                }
                "the call request was invalid"
            },
            NativeCallFailureCode::Busy => {
                proof {
                    reveal_strlit("another call is already active");
                }
                "another call is already active"
            },
            NativeCallFailureCode::PermissionDenied => {
                proof {
                    reveal_strlit("a microphone or camera permission was denied");
                }
                "a microphone or camera permission was denied"
            },
            NativeCallFailureCode::ConnectFailed => {
                proof {
                    reveal_strlit("the call failed to connect");
                }
                "the call failed to connect"
            },
            NativeCallFailureCode::MediaFailed => {
                proof {
                    reveal_strlit("a microphone or camera update failed");
                }
                "a microphone or camera update failed"
            },
            NativeCallFailureCode::Disconnected => {
                proof {
                    reveal_strlit("the call connection ended unexpectedly");
                }
                "the call connection ended unexpectedly"
            },
            NativeCallFailureCode::Cancelled => {
                proof {
                    reveal_strlit("the operation was cancelled");
                }
                "the operation was cancelled"
            },
            NativeCallFailureCode::Unavailable => {
                proof {
                    reveal_strlit("the native call controller is unavailable");
                }
                "the native call controller is unavailable"
            },
            NativeCallFailureCode::Unexpected => {
                proof {
                    reveal_strlit("the call failed unexpectedly");
                }
                "the call failed unexpectedly"
            },
        }
    }
}

/// The bounded code a raw native code string stands for: the code whose wire
/// string it is, and `Unexpected` for anything else, absence included.
pub open spec fn sanitized_failure_code(raw: Option<Seq<char>>) -> NativeCallFailureCode {
    match raw {
        Some(s) => if s == "invalid_request"@ {
            NativeCallFailureCode::InvalidRequest
        } else if s == "busy"@ {
            NativeCallFailureCode::Busy
        } else if s == "permission_denied"@ {
            NativeCallFailureCode::PermissionDenied
        } else if s == "connect_failed"@ {
            NativeCallFailureCode::ConnectFailed
        } else if s == "media_failed"@ {
            NativeCallFailureCode::MediaFailed
        } else if s == "disconnected"@ {
            NativeCallFailureCode::Disconnected
        } else if s == "cancelled"@ {
            NativeCallFailureCode::Cancelled
        } else if s == "unavailable"@ {
            NativeCallFailureCode::Unavailable
        } else {
            NativeCallFailureCode::Unexpected
        },
        None => NativeCallFailureCode::Unexpected,
    }
}

/// The view of an optional borrowed text.
pub open spec fn opt_str_view(raw: Option<&str>) -> Option<Seq<char>> {
    match raw {
        Some(s) => Some(s@),
        None => None,
    }
}

/// Sanitizes a native failure-code string into the bounded vocabulary.
/// Anything unrecognized degrades to [`NativeCallFailureCode::Unexpected`].
pub fn failure_code_from_raw(raw: Option<&str>) -> (r: NativeCallFailureCode)
    ensures
        r == sanitized_failure_code(opt_str_view(raw)),
{
    match raw {
        Some(s) => if text_eq(s, "invalid_request") {
            NativeCallFailureCode::InvalidRequest
        } else if text_eq(s, "busy") {
            NativeCallFailureCode::Busy
        } else if text_eq(s, "permission_denied") {
            NativeCallFailureCode::PermissionDenied
        } else if text_eq(s, "connect_failed") {
            NativeCallFailureCode::ConnectFailed
        } else if text_eq(s, "media_failed") {
            NativeCallFailureCode::MediaFailed
        } else if text_eq(s, "disconnected") {
            NativeCallFailureCode::Disconnected
        } else if text_eq(s, "cancelled") {
            NativeCallFailureCode::Cancelled
        } else if text_eq(s, "unavailable") {
            NativeCallFailureCode::Unavailable
        } else {
            NativeCallFailureCode::Unexpected
        },
        None => NativeCallFailureCode::Unexpected,
    }
}

/// Stable `{ code, message }` failure shape embedded in snapshots as
/// `lastError` and serialized for command errors. The message always comes
/// from the bounded code.
#[derive(Debug, Clone, PartialEq, Eq)]
pub struct NativeCallError {
    pub code: NativeCallFailureCode,
    pub message: String,
}

impl NativeCallError {
    /// The error for `code`, carrying the code's static message.
    pub fn from_code(code: NativeCallFailureCode) -> (r: Self)
        ensures
            r.code == code,
            r.message@ == code.message_text(),
    {
        NativeCallError { code, message: String::from_str(code.message()) }
    }

    /// The bounded error a raw native `{ code, message? }` pair stands for:
    /// the code is sanitized and the raw message is never kept.
    pub fn from_raw_code(raw_code: &str) -> (r: Self)
        ensures
            r.code == sanitized_failure_code(Some(raw_code@)),
            r.message@ == r.code.message_text(),
    {
        NativeCallError::from_code(failure_code_from_raw(Some(raw_code)))
    }

    /// The guest-visible text of the error: its message.
    pub fn to_string(&self) -> (r: String)
        ensures
            r@ == self.message@,
    {
        self.message.clone()
    }
}

} // verus!

verus! {

/// Every bounded failure code survives sanitizing its own wire string, so the
/// raw vocabulary and the bounded vocabulary name exactly the same codes.
pub proof fn lemma_failure_code_round_trip(code: NativeCallFailureCode)
    ensures
        sanitized_failure_code(Some(code.wire())) == code,
{
    reveal_strlit("invalid_request");
    reveal_strlit("busy");
    reveal_strlit("permission_denied");
    reveal_strlit("connect_failed");
    reveal_strlit("media_failed");
    reveal_strlit("disconnected");
    reveal_strlit("cancelled");
    reveal_strlit("unavailable");
    reveal_strlit("unexpected");
    assert("invalid_request"@.len() == 15);
    assert("busy"@.len() == 4);
    assert("permission_denied"@.len() == 17);
    assert("connect_failed"@.len() == 14);
    assert("media_failed"@.len() == 12);
    assert("disconnected"@.len() == 12);
    assert("cancelled"@.len() == 9);
    assert("unavailable"@.len() == 11);
    assert("unexpected"@.len() == 10);
    assert("media_failed"@[0] != "disconnected"@[0]);
}

/// Distinct failure codes have distinct wire strings.
pub proof fn lemma_failure_wire_codes_distinct(a: NativeCallFailureCode, b: NativeCallFailureCode)
    requires
        a != b,
    ensures
        a.wire() != b.wire(),
{
    lemma_failure_code_round_trip(a);
    lemma_failure_code_round_trip(b);
}

} // verus!

verus! {

/// What the native side can actually do on this device, so the guest can gate
/// a control instead of calling a command that will only ever reject.
#[derive(Debug, Clone, Copy, PartialEq, Eq, Structural)]
pub struct NativeCallCapabilities {
    pub supported: bool,
    pub microphone: bool,
    pub background_audio: bool,
    pub native_room: bool,
    pub camera: bool,
    pub native_video_overlay: bool,
    pub screen_share: bool,
    pub picture_in_picture: bool,
    pub call_kit: bool,
    pub system_calls: bool,
    pub audio_routes: bool,
    pub push_kit: bool,
}

impl NativeCallCapabilities {
    /// Truthful host capabilities: only a mobile target (Android or iOS) has
    /// a native LiveKit room; every runtime-resolved feature is off here.
    pub fn current(on_mobile_target: bool) -> (r: Self)
        ensures
            r.supported == on_mobile_target,
            r.microphone == on_mobile_target,
            r.background_audio == on_mobile_target,
            r.native_room == on_mobile_target,
            r.camera == on_mobile_target,
            !r.native_video_overlay,
            !r.screen_share,
            !r.picture_in_picture,
            !r.call_kit,
            !r.system_calls,
            !r.audio_routes,
            !r.push_kit,
    {
        let supported = on_mobile_target;
        NativeCallCapabilities {
            supported,
            microphone: supported,
            background_audio: supported,
            native_room: supported,
            camera: supported,
            native_video_overlay: false,
            screen_share: false,
            picture_in_picture: false,
            call_kit: false,
            system_calls: false,
            audio_routes: false,
            push_kit: false,
        }
    }
}

/// The capability flags a native plugin reports. Flags a native build does
/// not report are `false`: a missing feature is never claimed.
#[derive(Debug, Clone, Copy, PartialEq, Eq, Structural)]
pub struct NativeCallCapabilitiesWire {
    pub microphone: bool,
    pub background_audio: bool,
    pub camera: bool,
    pub native_video_overlay: bool,
    pub screen_share: bool,
    pub picture_in_picture: bool,
    pub call_kit: bool,
    pub system_calls: bool,
    pub audio_routes: bool,
    pub push_kit: bool,
}

/// A resolved native capabilities report proves the native room bridge
/// exists; every other flag is the native side's own.
pub open spec fn capabilities_from_native(native: NativeCallCapabilitiesWire) -> NativeCallCapabilities {
    NativeCallCapabilities {
        supported: true,
        microphone: native.microphone,
        background_audio: native.background_audio,
        native_room: true,
        camera: native.camera,
        native_video_overlay: native.native_video_overlay,
        screen_share: native.screen_share,
        picture_in_picture: native.picture_in_picture,
        call_kit: native.call_kit,
        system_calls: native.system_calls,
        audio_routes: native.audio_routes,
        push_kit: native.push_kit,
    }
}

impl From<NativeCallCapabilitiesWire> for NativeCallCapabilities {
    fn from(native: NativeCallCapabilitiesWire) -> (r: Self) {
        NativeCallCapabilities {
            supported: true,
            microphone: native.microphone,
            background_audio: native.background_audio,
            // These commands exist only in the native room bridge.
            native_room: true,
            camera: native.camera,
            native_video_overlay: native.native_video_overlay,
            screen_share: native.screen_share,
            picture_in_picture: native.picture_in_picture,
            call_kit: native.call_kit,
            system_calls: native.system_calls,
            audio_routes: native.audio_routes,
            push_kit: native.push_kit,
        }
    }
}

impl vstd::std_specs::convert::FromSpecImpl<NativeCallCapabilitiesWire> for NativeCallCapabilities {
    open spec fn obeys_from_spec() -> bool {
        true
    }

    open spec fn from_spec(native: NativeCallCapabilitiesWire) -> Self {
        capabilities_from_native(native)
    }
}

/// Camera projection of one remote participant's camera publication.
#[derive(Debug, Clone, PartialEq, Eq)]
pub struct NativeCallRemoteCamera {
    pub sid: String,
    pub muted: bool,
    pub subscribed: bool,
}

/// Screen-share projection of one remote participant's screen-share
/// publication.
#[derive(Debug, Clone, PartialEq, Eq)]
pub struct NativeCallScreenShare {
    pub sid: String,
    pub muted: bool,
    pub subscribed: bool,
}

/// Microphone projection of one remote participant's audio publication.
#[derive(Debug, Clone, PartialEq, Eq)]
pub struct NativeCallRemoteMicrophone {
    pub sid: String,
    pub muted: bool,
    pub subscribed: bool,
}

/// Remote-only participant projection; `identity` is the opaque backend
/// identity. Each publication is present only while the participant has it.
#[derive(Debug, Clone, PartialEq, Eq)]
pub struct NativeCallRemoteParticipant {
    pub identity: String,
    pub camera: Option<NativeCallRemoteCamera>,
    pub screen_share: Option<NativeCallScreenShare>,
    pub microphone: Option<NativeCallRemoteMicrophone>,
    pub connection_quality: Option<String>,
}

/// The native room snapshot resolved by native commands and announced over
/// the connect channel. `revision` is native-owned and passed through
/// unchanged.
#[derive(Debug, Clone, PartialEq, Eq)]
pub struct NativeCallSnapshot {
    pub revision: u64,
    pub call_id: Option<String>,
    pub connection_state: NativeCallConnectionState,
    pub microphone_enabled: bool,
    pub camera_enabled: bool,
    pub screen_share_enabled: bool,
    pub participant_count: u32,
    pub remote_participants: Vec<NativeCallRemoteParticipant>,
    pub last_error: Option<NativeCallError>,
    pub local_connection_quality: Option<String>,
}

impl NativeCallSnapshot {
    /// Whether the snapshot reports a live room: anything but idle.
    pub open spec fn live(&self) -> bool {
        self.connection_state != NativeCallConnectionState::Idle
    }

    /// True while the native side reports anything but an idle room.
    pub fn is_live(&self) -> (r: bool)
        ensures
            r == self.live(),
    {
        self.connection_state != NativeCallConnectionState::Idle
    }
}

/// The only channel event kind: snapshot announcements.
#[derive(Debug, Clone)]
pub enum NativeCallChannelEvent {
    SnapshotChanged { snapshot: NativeCallSnapshot },
}

/// One shared-E2EE key: `key` is the raw key material, base64-encoded,
/// scoped to a participant `identity` and a `key_index`. Keys only flow guest
/// to native; they never appear in snapshots or events.
#[derive(Clone)]
pub struct EncryptionKey {
    pub identity: String,
    pub key_index: u32,
    pub key: String,
}

/// One TURN/STUN server entry.
#[derive(Debug, Clone)]
pub struct IceServerConfig {
    pub urls: Vec<String>,
    pub username: Option<String>,
    pub credential: Option<String>,
}

/// A guest request to connect the native room.
pub struct ConnectNativeCallRequest {
    pub call_id: String,
    pub url: String,
    pub token: String,
    pub microphone_enabled: bool,
    /// Initial shared-E2EE keys; empty means an ordinary unencrypted call.
    pub encryption_keys: Vec<EncryptionKey>,
    /// Optional TURN/STUN servers; absent means server-provided ICE only.
    pub ice_servers: Option<Vec<IceServerConfig>>,
    /// Overrides the default reconnection-attempt count.
    pub reconnect_attempts: Option<u32>,
}

#[derive(Debug, Clone)]
pub struct DisconnectNativeCallRequest {
    pub call_id: String,
}

#[derive(Debug, Clone)]
pub struct SetNativeCallMicrophoneEnabledRequest {
    pub call_id: String,
    pub enabled: bool,
}

#[derive(Debug, Clone)]
pub struct SetNativeCallCameraEnabledRequest {
    pub call_id: String,
    pub enabled: bool,
}

#[derive(Debug, Clone)]
pub struct SetNativeCallScreenShareEnabledRequest {
    pub call_id: String,
    pub enabled: bool,
}

#[derive(Debug, Clone)]
pub struct SetNativeCallPiPEnabledRequest {
    pub call_id: String,
    pub enabled: bool,
}

#[derive(Debug, Clone)]
pub struct SwitchNativeCallCameraRequest {
    pub call_id: String,
}

#[derive(Debug, Clone)]
pub struct ClearNativeCallRemoteVideoOverlayRequest {
    pub call_id: String,
}

#[derive(Debug, Clone)]
pub struct ClearNativeCallLocalVideoOverlayRequest {
    pub call_id: String,
}

#[derive(Debug, Clone)]
pub struct ReportSystemIncomingCallRequest {
    pub uuid: String,
    pub caller_name: String,
}

#[derive(Debug, Clone)]
pub struct StartSystemCallRequest {
    pub call_id: String,
    pub uuid: String,
    pub caller_name: String,
}

#[derive(Debug, Clone)]
pub struct AnswerSystemCallRequest {
    pub call_id: String,
    pub uuid: String,
}

#[derive(Debug, Clone)]
pub struct EndSystemCallRequest {
    pub call_id: String,
    pub remote_ended: bool,
}

/// Whether a flag is unset; an unset `remote_ended` is left off the wire.
pub fn is_false(v: &bool) -> (r: bool)
    ensures
        r == !*v,
{
    !*v
}

#[derive(Debug, Clone)]
pub struct SetSystemCallMutedRequest {
    pub call_id: String,
    pub muted: bool,
}

#[derive(Debug, Clone)]
pub struct GetAudioRoutesRequest {
    pub call_id: String,
}

#[derive(Debug, Clone)]
pub struct SetAudioRouteRequest {
    pub call_id: String,
    pub route_id: String,
}

#[derive(Debug, Clone)]
pub struct UpdateCallDisplayRequest {
    pub call_id: String,
    pub caller_name: String,
    pub has_video: Option<bool>,
}

#[derive(Debug, Clone)]
pub struct FulfillAnswerCallRequest {
    pub uuid: String,
}

#[derive(Debug, Clone)]
pub struct FulfillEndCallRequest {
    pub uuid: String,
}

#[derive(Debug, Clone)]
pub struct ReportConnectedRequest {
    pub uuid: String,
}

#[derive(Debug, Clone)]
pub struct ReportAnsweredElsewhereRequest {
    pub call_id: String,
}

#[derive(Debug, Clone)]
pub struct ReportDeclinedElsewhereRequest {
    pub call_id: String,
}

#[derive(Debug, Clone)]
pub struct ReportUnansweredRequest {
    pub call_id: String,
}

#[derive(Debug, Clone)]
pub struct DeclineSystemCallRequest {
    pub call_id: String,
    pub reason: String,
}

/// System-call action enqueued by CallKit while JS is suspended.
#[derive(Debug, Clone)]
pub struct SystemCallAction {
    pub action: SystemCallActionKind,
    pub uuid: String,
    pub muted: Option<bool>,
    pub room_id: Option<String>,
    pub caller_name: Option<String>,
}

#[derive(Debug, Clone, Copy, PartialEq, Eq, Structural)]
pub enum SystemCallActionKind {
    Answer,
    End,
    Mute,
}

/// Mid-call shared-E2EE key rotation/update for one participant identity.
#[derive(Clone)]
pub struct SetNativeCallEncryptionKeyRequest {
    pub call_id: String,
    pub identity: String,
    pub key_index: u32,
    pub key: String,
}

/// The connect payload fields forwarded to the native room plugins.
pub struct NativeConnectCallFields<'a> {
    pub call_id: &'a str,
    pub url: &'a str,
    pub token: &'a str,
    pub microphone_enabled: bool,
    pub encryption_keys: &'a [EncryptionKey],
    pub ice_servers: Option<&'a [IceServerConfig]>,
    pub reconnect_attempts: Option<u32>,
}

/// Native commands that wrap their snapshot in a `receiver` key.
#[derive(Debug)]
pub struct CommandWithSnapshotResponse {
    pub receiver: NativeCallSnapshot,
}

} // verus!

verus! {

/// Converting a native capabilities report claims the native room bridge
/// (`supported`, `native_room`) and passes every reported flag through
/// unchanged: no flag is dropped, invented or moved to another feature.
pub proof fn lemma_native_capabilities_pass_through(native: NativeCallCapabilitiesWire)
    ensures
        ({
            let caps = <NativeCallCapabilities as vstd::std_specs::convert::FromSpec<
                NativeCallCapabilitiesWire,
            >>::from_spec(native);
            &&& <NativeCallCapabilities as vstd::std_specs::convert::FromSpec<
                NativeCallCapabilitiesWire,
            >>::obeys_from_spec()
            &&& caps.supported
            &&& caps.native_room
            &&& caps.microphone == native.microphone
            &&& caps.background_audio == native.background_audio
            &&& caps.camera == native.camera
            &&& caps.native_video_overlay == native.native_video_overlay
            &&& caps.screen_share == native.screen_share
            &&& caps.picture_in_picture == native.picture_in_picture
            &&& caps.call_kit == native.call_kit
            &&& caps.system_calls == native.system_calls
            &&& caps.audio_routes == native.audio_routes
            &&& caps.push_kit == native.push_kit
        }),
{
}

} // verus!
