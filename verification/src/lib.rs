//! Verified core of the LiveKit mobile call bridge: the bounded failure and
//! connection vocabularies, the wire models exchanged with the native room
//! plugins, request validation, and the owner-webview routing decisions.

pub mod bridge;
pub mod error;
pub mod models;
pub mod text;
pub mod validation;

pub use bridge::{
    after_native_connect, cancel_request_for, connect_rejection, disconnect_rejection, forwarded_rejection,
    forwarded_request_is_valid, idle_snapshot, invalid_request, native_connect_fields,
    reconcile_timed_out_connect, sanitize_invoke_failure, unavailable, ConnectFollowUp, EventRouting,
    ForwardedRequest, NativeInvokeFailure,
};
pub use error::{Error, Result};
pub use models::{
    failure_code_from_raw, is_false, AnswerSystemCallRequest,
    ClearNativeCallLocalVideoOverlayRequest, ClearNativeCallRemoteVideoOverlayRequest,
    CommandWithSnapshotResponse, ConnectNativeCallRequest, DeclineSystemCallRequest,
    DisconnectNativeCallRequest, EncryptionKey, EndSystemCallRequest, FulfillAnswerCallRequest,
    FulfillEndCallRequest, GetAudioRoutesRequest, IceServerConfig, NativeCallCapabilities,
    NativeCallCapabilitiesWire, NativeCallChannelEvent, NativeCallConnectionState,
    NativeCallError, NativeCallFailureCode, NativeCallRemoteCamera, NativeCallRemoteMicrophone,
    NativeCallRemoteParticipant, NativeCallScreenShare, NativeCallSnapshot,
    NativeConnectCallFields, ReportAnsweredElsewhereRequest, ReportConnectedRequest,
    ReportDeclinedElsewhereRequest, ReportSystemIncomingCallRequest, ReportUnansweredRequest,
    SetAudioRouteRequest, SetNativeCallCameraEnabledRequest, SetNativeCallEncryptionKeyRequest,
    SetNativeCallMicrophoneEnabledRequest, SetNativeCallPiPEnabledRequest,
    SetNativeCallScreenShareEnabledRequest, SetSystemCallMutedRequest, StartSystemCallRequest,
    SwitchNativeCallCameraRequest, SystemCallAction, SystemCallActionKind,
    UpdateCallDisplayRequest,
};
pub use text::{char_is_white_space, text_eq, text_is_blank};
pub use validation::{
    call_id_is_valid, connect_request_is_valid, decoded_key_material_is_valid,
    encryption_key_material_is_valid,
};
