//! The bridge's decisions between native invocations: which requests reach the
//! native side, what each command resolves with, and which webview owns the
//! call's snapshot events.
//!
//! The native side owns the room; the bridge only validates, forwards and
//! routes. The awaiting itself is done by the caller, which performs each
//! native invocation these functions call for and hands the outcome back.

use vstd::prelude::*;

use crate::error::{Error, Result};
use crate::models::{
    AnswerSystemCallRequest, ClearNativeCallLocalVideoOverlayRequest,
    ClearNativeCallRemoteVideoOverlayRequest, ConnectNativeCallRequest, DeclineSystemCallRequest,
    DisconnectNativeCallRequest, EndSystemCallRequest, FulfillAnswerCallRequest,
    FulfillEndCallRequest, GetAudioRoutesRequest, NativeCallConnectionState,
    NativeCallFailureCode, NativeCallSnapshot, NativeConnectCallFields,
    ReportAnsweredElsewhereRequest, ReportConnectedRequest, ReportDeclinedElsewhereRequest,
    ReportSystemIncomingCallRequest, ReportUnansweredRequest, SetAudioRouteRequest,
    SetNativeCallCameraEnabledRequest, SetNativeCallEncryptionKeyRequest,
    SetNativeCallMicrophoneEnabledRequest, SetNativeCallPiPEnabledRequest,
    SetNativeCallScreenShareEnabledRequest, SetSystemCallMutedRequest, StartSystemCallRequest,
    SwitchNativeCallCameraRequest, UpdateCallDisplayRequest,
};
use crate::models::{failure_code_from_raw, sanitized_failure_code};
use crate::text::{is_blank, text_is_blank};
use crate::validation::{
    call_id_is_valid, call_id_valid, connect_request_is_valid, connect_request_valid,
    encryption_key_material_is_valid, key_material_valid,
};

verus! {

/// The rejection of a request the bridge refuses to forward.
pub fn invalid_request<T>() -> (r: Result<T>)
    ensures
        r == Err::<T, Error>(Error::Failure(NativeCallFailureCode::InvalidRequest)),
{
    Err(Error::failure(NativeCallFailureCode::InvalidRequest))
}

/// The rejection of every room command where no native room exists.
pub fn unavailable<T>() -> (r: Result<T>)
    ensures
        r == Err::<T, Error>(Error::Failure(NativeCallFailureCode::Unavailable)),
{
    Err(Error::failure(NativeCallFailureCode::Unavailable))
}

/// The snapshot of a host without a native room: idle, revision 0, no call,
/// nothing enabled, an empty roster and no error.
pub open spec fn is_idle_projection(s: NativeCallSnapshot) -> bool {
    &&& s.revision == 0
    &&& s.call_id is None
    &&& s.connection_state == NativeCallConnectionState::Idle
    &&& !s.microphone_enabled
    &&& !s.camera_enabled
    &&& !s.screen_share_enabled
    &&& s.participant_count == 0
    &&& s.remote_participants@.len() == 0
    &&& s.last_error is None
    &&& s.local_connection_quality is None
}

/// The state reported where there is no native room.
pub fn idle_snapshot() -> (r: NativeCallSnapshot)
    ensures
        is_idle_projection(r),
{
    NativeCallSnapshot {
        revision: 0,
        call_id: None,
        connection_state: NativeCallConnectionState::Idle,
        microphone_enabled: false,
        camera_enabled: false,
        screen_share_enabled: false,
        participant_count: 0,
        remote_participants: Vec::new(),
        last_error: None,
        local_connection_quality: None,
    }
}

/// Why a connect request is refused before reaching the native side, if it
/// is.
pub fn connect_rejection(request: &ConnectNativeCallRequest) -> (r: Option<Error>)
    ensures
        r == (if connect_request_valid(request) {
            None
        } else {
            Some(Error::Failure(NativeCallFailureCode::InvalidRequest))
        }),
{
    if connect_request_is_valid(request) {
        None
    } else {
        Some(Error::failure(NativeCallFailureCode::InvalidRequest))
    }
}

/// The fields of `request` the native connect invocation carries: every one
/// of them, unchanged.
pub open spec fn forwards_connect_fields(
    request: &ConnectNativeCallRequest,
    fields: NativeConnectCallFields,
) -> bool {
    &&& fields.call_id@ == request.call_id@
    &&& fields.url@ == request.url@
    &&& fields.token@ == request.token@
    &&& fields.microphone_enabled == request.microphone_enabled
    &&& fields.encryption_keys@ == request.encryption_keys@
    &&& match request.ice_servers {
        Some(servers) => fields.ice_servers matches Some(s) && s@ == servers@,
        None => fields.ice_servers is None,
    }
    &&& fields.reconnect_attempts == request.reconnect_attempts
}

/// The connect payload forwarded to the native room plugin.
pub fn native_connect_fields(request: &ConnectNativeCallRequest) -> (r: NativeConnectCallFields<'_>)
    ensures
        forwards_connect_fields(request, r),
{
    let ice_servers = match &request.ice_servers {
        Some(servers) => Some(servers.as_slice()),
        None => None,
    };
    NativeConnectCallFields {
        call_id: request.call_id.as_str(),
        url: request.url.as_str(),
        token: request.token.as_str(),
        microphone_enabled: request.microphone_enabled,
        encryption_keys: request.encryption_keys.as_slice(),
        ice_servers,
        reconnect_attempts: request.reconnect_attempts,
    }
}

/// What follows the native connect invocation.
pub enum ConnectFollowUp {
    /// The connect resolved; this is its outcome.
    Settled(Result<NativeCallSnapshot>),
    /// The invocation timed out: cancel the pending native connect, then
    /// reconcile against the native state.
    Reconcile,
}

/// The step after the native connect invocation returned `result`.
pub fn after_native_connect(result: Result<NativeCallSnapshot>) -> (r: ConnectFollowUp)
    ensures
        result == Err::<NativeCallSnapshot, Error>(Error::Timeout) ==> r is Reconcile,
        result != Err::<NativeCallSnapshot, Error>(Error::Timeout) ==> r == ConnectFollowUp::Settled(
            result,
        ),
{
    match result {
        Err(Error::Timeout) => ConnectFollowUp::Reconcile,
        other => ConnectFollowUp::Settled(other),
    }
}

/// The native cancel sent after a connect timed out: it addresses the
/// connect's own call.
pub fn cancel_request_for(request: &ConnectNativeCallRequest) -> (r: DisconnectNativeCallRequest)
    ensures
        r.call_id@ == request.call_id@,
{
    DisconnectNativeCallRequest { call_id: request.call_id.clone() }
}

/// The outcome of a timed-out connect once the native state has been queried.
pub open spec fn reconciled(state: Result<NativeCallSnapshot>) -> Result<NativeCallSnapshot> {
    match state {
        Ok(snapshot) => Ok(snapshot),
        Err(_) => Err(Error::Timeout),
    }
}

/// A timed-out connect resolves with the native-truth snapshot, or with
/// `Timeout` when the native side cannot be reached at all.
pub fn reconcile_timed_out_connect(state: Result<NativeCallSnapshot>) -> (r: Result<
    NativeCallSnapshot,
>)
    ensures
        r == reconciled(state),
{
    match state {
        Ok(snapshot) => Ok(snapshot),
        Err(_) => Err(Error::Timeout),
    }
}

/// The whole outcome of a connect whose request was valid: the native
/// connect result, or, where it timed out, the reconciled native state.
pub open spec fn connect_outcome(
    connect: Result<NativeCallSnapshot>,
    state: Result<NativeCallSnapshot>,
) -> Result<NativeCallSnapshot> {
    if connect == Err::<NativeCallSnapshot, Error>(Error::Timeout) {
        reconciled(state)
    } else {
        connect
    }
}

/// Who owns the call's events after a connect by `label` resolved with
/// `result`: the connecting webview when the room is live, and also when the
/// native state stayed unknown, so a still running room keeps delivering.
pub open spec fn owner_after_connect(
    owner: Option<String>,
    label: String,
    result: Result<NativeCallSnapshot>,
) -> Option<String> {
    match result {
        Ok(snapshot) => if snapshot.live() {
            Some(label)
        } else {
            owner
        },
        Err(Error::Timeout) => Some(label),
        Err(_) => owner,
    }
}

/// Who owns the call's events after a disconnect resolved with `result`: no
/// one once the native side reports an idle room.
pub open spec fn owner_after_disconnect(
    owner: Option<String>,
    result: Result<NativeCallSnapshot>,
) -> Option<String> {
    match result {
        Ok(snapshot) => if snapshot.live() {
            owner
        } else {
            None
        },
        Err(_) => owner,
    }
}

/// Who owns the call's events after `caller` queried the native state: the
/// caller takes over a live room that no webview owns, provided it has a
/// label; an owned room keeps its owner.
pub open spec fn owner_after_state_query(
    owner: Option<String>,
    caller: String,
    result: Result<NativeCallSnapshot>,
) -> Option<String> {
    match result {
        Ok(snapshot) => if snapshot.live() && owner is None && caller@.len() > 0 {
            Some(caller)
        } else {
            owner
        },
        Err(_) => owner,
    }
}

/// Who owns the call's events after a snapshot event was delivered: a
/// snapshot of an idle room ends ownership.
pub open spec fn owner_after_event(owner: Option<String>, snapshot: NativeCallSnapshot) -> Option<
    String,
> {
    if snapshot.live() {
        owner
    } else {
        None
    }
}

/// How a native invocation failed to produce a response.
pub enum NativeInvokeFailure {
    /// The native side rejected the invocation, with its raw code if any.
    Rejected(Option<String>),
    /// The invocation failed in transport or decoding.
    Other,
    /// The time bound elapsed first.
    Elapsed,
}

/// The bridge error a failed native invocation surfaces as.
pub open spec fn invoke_failure_error(failure: NativeInvokeFailure) -> Error {
    match failure {
        NativeInvokeFailure::Rejected(code) => Error::Failure(
            sanitized_failure_code(
                match code {
                    Some(c) => Some(c@),
                    None => None,
                },
            ),
        ),
        NativeInvokeFailure::Other => Error::Failure(NativeCallFailureCode::Unexpected),
        NativeInvokeFailure::Elapsed => Error::Timeout,
    }
}

/// Folds a failed native invocation into the bounded vocabulary: a rejection
/// keeps only its sanitized code, anything else is unexpected, and an
/// elapsed bound is the bridge-level timeout.
pub fn sanitize_invoke_failure(failure: &NativeInvokeFailure) -> (r: Error)
    ensures
        r == invoke_failure_error(*failure),
{
    match failure {
        NativeInvokeFailure::Rejected(code) => {
            let raw: Option<&str> = match code {
                Some(c) => Some(c.as_str()),
                None => None,
            };
            Error::failure(failure_code_from_raw(raw))
        },
        NativeInvokeFailure::Other => Error::failure(NativeCallFailureCode::Unexpected),
        NativeInvokeFailure::Elapsed => Error::Timeout,
    }
}

/// The webview that currently receives the call's snapshot events.
pub struct EventRouting {
    pub owner_label: Option<String>,
}

impl EventRouting {
    /// No webview owns events before the first connect.
    pub fn new() -> (r: Self)
        ensures
            r.owner_label is None,
    {
        EventRouting { owner_label: None }
    }

    /// Records who owns events after a connect by `owner_label` resolved with
    /// `result`, and returns `result` unchanged.
    pub fn settle_connect(&mut self, owner_label: String, result: Result<NativeCallSnapshot>) -> (r:
        Result<NativeCallSnapshot>)
        ensures
            r == result,
            final(self).owner_label == owner_after_connect(old(self).owner_label, owner_label, result),
    {
        match &result {
            Ok(snapshot) => {
                if snapshot.is_live() {
                    self.owner_label = Some(owner_label);
                }
            },
            Err(Error::Timeout) => {
                self.owner_label = Some(owner_label);
            },
            Err(_) => {},
        }
        result
    }

    /// Records who owns events after a disconnect resolved with `result`, and
    /// returns `result` unchanged.
    pub fn settle_disconnect(&mut self, result: Result<NativeCallSnapshot>) -> (r: Result<
        NativeCallSnapshot,
    >)
        ensures
            r == result,
            final(self).owner_label == owner_after_disconnect(old(self).owner_label, result),
    {
        if let Ok(snapshot) = &result {
            if !snapshot.is_live() {
                self.owner_label = None;
            }
        }
        result
    }

    /// Records who owns events after `caller_label` queried the native state
    /// with outcome `result`, and returns `result` unchanged.
    pub fn settle_state_query(&mut self, caller_label: String, result: Result<NativeCallSnapshot>) -> (r:
        Result<NativeCallSnapshot>)
        ensures
            r == result,
            final(self).owner_label == owner_after_state_query(
                old(self).owner_label,
                caller_label,
                result,
            ),
    {
        if let Ok(snapshot) = &result {
            if snapshot.is_live() && self.owner_label.is_none() && !caller_label.as_str().is_empty() {
                self.owner_label = Some(caller_label);
            }
        }
        result
    }

    /// The webview a snapshot event is delivered to: the owner, and no one
    /// when there is none. Nothing is broadcast.
    pub fn route_snapshot(&mut self, snapshot: &NativeCallSnapshot) -> (r: Option<String>)
        ensures
            r == old(self).owner_label,
            final(self).owner_label == owner_after_event(old(self).owner_label, *snapshot),
    {
        match &self.owner_label {
            None => None,
            Some(label) => {
                let target = label.clone();
                if !snapshot.is_live() {
                    self.owner_label = None;
                }
                Some(target)
            },
        }
    }
}

/// Why a disconnect request is refused before reaching the native side, if
/// it is.
pub fn disconnect_rejection(request: &DisconnectNativeCallRequest) -> (r: Option<Error>)
    ensures
        r == (if call_id_valid(request.call_id@) {
            None
        } else {
            Some(Error::Failure(NativeCallFailureCode::InvalidRequest))
        }),
{
    if call_id_is_valid(request.call_id.as_str()) {
        None
    } else {
        Some(Error::failure(NativeCallFailureCode::InvalidRequest))
    }
}

/// A command whose bridge-side work is exactly "validate, then forward to
/// native".
pub enum ForwardedRequest {
    SetNativeCallMicrophoneEnabled(SetNativeCallMicrophoneEnabledRequest),
    SetNativeCallCameraEnabled(SetNativeCallCameraEnabledRequest),
    SetNativeCallScreenShareEnabled(SetNativeCallScreenShareEnabledRequest),
    SetNativeCallPiPEnabled(SetNativeCallPiPEnabledRequest),
    SwitchNativeCallCamera(SwitchNativeCallCameraRequest),
    ClearNativeCallRemoteVideoOverlay(ClearNativeCallRemoteVideoOverlayRequest),
    ClearNativeCallLocalVideoOverlay(ClearNativeCallLocalVideoOverlayRequest),
    SetNativeCallEncryptionKey(SetNativeCallEncryptionKeyRequest),
    ReportSystemIncomingCall(ReportSystemIncomingCallRequest),
    StartSystemCall(StartSystemCallRequest),
    AnswerSystemCall(AnswerSystemCallRequest),
    EndSystemCall(EndSystemCallRequest),
    SetSystemCallMuted(SetSystemCallMutedRequest),
    FulfillAnswerCall(FulfillAnswerCallRequest),
    FulfillEndCall(FulfillEndCallRequest),
    ReportSystemCallConnected(ReportConnectedRequest),
    GetAudioRoutes(GetAudioRoutesRequest),
    SetAudioRoute(SetAudioRouteRequest),
    UpdateCallDisplay(UpdateCallDisplayRequest),
    ReportSystemCallAnsweredElsewhere(ReportAnsweredElsewhereRequest),
    ReportSystemCallDeclinedElsewhere(ReportDeclinedElsewhereRequest),
    ReportSystemCallUnanswered(ReportUnansweredRequest),
    DeclineSystemCall(DeclineSystemCallRequest),
}

/// What each forwarded command checks before it reaches the native side:
/// its call id and every other identifying text are nonblank, and rotated
/// key material is well-formed.
pub open spec fn forwarded_request_valid(request: &ForwardedRequest) -> bool {
    match request {
        ForwardedRequest::SetNativeCallMicrophoneEnabled(r) => call_id_valid(r.call_id@),
        ForwardedRequest::SetNativeCallCameraEnabled(r) => call_id_valid(r.call_id@),
        ForwardedRequest::SetNativeCallScreenShareEnabled(r) => call_id_valid(r.call_id@),
        ForwardedRequest::SetNativeCallPiPEnabled(r) => call_id_valid(r.call_id@),
        ForwardedRequest::SwitchNativeCallCamera(r) => call_id_valid(r.call_id@),
        ForwardedRequest::ClearNativeCallRemoteVideoOverlay(r) => call_id_valid(r.call_id@),
        ForwardedRequest::ClearNativeCallLocalVideoOverlay(r) => call_id_valid(r.call_id@),
        ForwardedRequest::SetNativeCallEncryptionKey(r) => call_id_valid(r.call_id@)
            && key_material_valid(r.identity@, r.key@),
        ForwardedRequest::ReportSystemIncomingCall(r) => !is_blank(r.uuid@) && !is_blank(
            r.caller_name@,
        ),
        ForwardedRequest::StartSystemCall(r) => !is_blank(r.call_id@) && !is_blank(r.uuid@)
            && !is_blank(r.caller_name@),
        ForwardedRequest::AnswerSystemCall(r) => !is_blank(r.call_id@) && !is_blank(r.uuid@),
        ForwardedRequest::EndSystemCall(r) => !is_blank(r.call_id@),
        ForwardedRequest::SetSystemCallMuted(r) => !is_blank(r.call_id@),
        ForwardedRequest::FulfillAnswerCall(r) => !is_blank(r.uuid@),
        ForwardedRequest::FulfillEndCall(r) => !is_blank(r.uuid@),
        ForwardedRequest::ReportSystemCallConnected(r) => !is_blank(r.uuid@),
        ForwardedRequest::GetAudioRoutes(r) => call_id_valid(r.call_id@),
        ForwardedRequest::SetAudioRoute(r) => call_id_valid(r.call_id@) && !is_blank(r.route_id@),
        ForwardedRequest::UpdateCallDisplay(r) => call_id_valid(r.call_id@) && !is_blank(
            r.caller_name@,
        ),
        ForwardedRequest::ReportSystemCallAnsweredElsewhere(r) => call_id_valid(r.call_id@),
        ForwardedRequest::ReportSystemCallDeclinedElsewhere(r) => call_id_valid(r.call_id@),
        ForwardedRequest::ReportSystemCallUnanswered(r) => call_id_valid(r.call_id@),
        ForwardedRequest::DeclineSystemCall(r) => call_id_valid(r.call_id@) && !is_blank(r.reason@),
    }
}

/// Whether a forwarded command may reach the native side.
pub fn forwarded_request_is_valid(request: &ForwardedRequest) -> (r: bool)
    ensures
        r == forwarded_request_valid(request),
{
    match request {
        ForwardedRequest::SetNativeCallMicrophoneEnabled(r) => call_id_is_valid(r.call_id.as_str()),
        ForwardedRequest::SetNativeCallCameraEnabled(r) => call_id_is_valid(r.call_id.as_str()),
        ForwardedRequest::SetNativeCallScreenShareEnabled(r) => call_id_is_valid(r.call_id.as_str()),
        ForwardedRequest::SetNativeCallPiPEnabled(r) => call_id_is_valid(r.call_id.as_str()),
        ForwardedRequest::SwitchNativeCallCamera(r) => call_id_is_valid(r.call_id.as_str()),
        ForwardedRequest::ClearNativeCallRemoteVideoOverlay(r) => call_id_is_valid(
            r.call_id.as_str(),
        ),
        ForwardedRequest::ClearNativeCallLocalVideoOverlay(r) => call_id_is_valid(
            r.call_id.as_str(),
        ),
        ForwardedRequest::SetNativeCallEncryptionKey(r) => call_id_is_valid(r.call_id.as_str())
            && encryption_key_material_is_valid(r.identity.as_str(), r.key.as_str()),
        ForwardedRequest::ReportSystemIncomingCall(r) => !text_is_blank(r.uuid.as_str())
            && !text_is_blank(r.caller_name.as_str()),
        ForwardedRequest::StartSystemCall(r) => !text_is_blank(r.call_id.as_str())
            && !text_is_blank(r.uuid.as_str()) && !text_is_blank(r.caller_name.as_str()),
        ForwardedRequest::AnswerSystemCall(r) => !text_is_blank(r.call_id.as_str())
            && !text_is_blank(r.uuid.as_str()),
        ForwardedRequest::EndSystemCall(r) => !text_is_blank(r.call_id.as_str()),
        ForwardedRequest::SetSystemCallMuted(r) => !text_is_blank(r.call_id.as_str()),
        ForwardedRequest::FulfillAnswerCall(r) => !text_is_blank(r.uuid.as_str()),
        ForwardedRequest::FulfillEndCall(r) => !text_is_blank(r.uuid.as_str()),
        ForwardedRequest::ReportSystemCallConnected(r) => !text_is_blank(r.uuid.as_str()),
        ForwardedRequest::GetAudioRoutes(r) => call_id_is_valid(r.call_id.as_str()),
        ForwardedRequest::SetAudioRoute(r) => call_id_is_valid(r.call_id.as_str())
            && !text_is_blank(r.route_id.as_str()),
        ForwardedRequest::UpdateCallDisplay(r) => call_id_is_valid(r.call_id.as_str())
            && !text_is_blank(r.caller_name.as_str()),
        ForwardedRequest::ReportSystemCallAnsweredElsewhere(r) => call_id_is_valid(
            r.call_id.as_str(),
        ),
        ForwardedRequest::ReportSystemCallDeclinedElsewhere(r) => call_id_is_valid(
            r.call_id.as_str(),
        ),
        ForwardedRequest::ReportSystemCallUnanswered(r) => call_id_is_valid(r.call_id.as_str()),
        ForwardedRequest::DeclineSystemCall(r) => call_id_is_valid(r.call_id.as_str())
            && !text_is_blank(r.reason.as_str()),
    }
}

/// Why a forwarded command is refused before reaching the native side, if it
/// is.
pub fn forwarded_rejection(request: &ForwardedRequest) -> (r: Option<Error>)
    ensures
        r == (if forwarded_request_valid(request) {
            None
        } else {
            Some(Error::Failure(NativeCallFailureCode::InvalidRequest))
        }),
{
    if forwarded_request_is_valid(request) {
        None
    } else {
        Some(Error::failure(NativeCallFailureCode::InvalidRequest))
    }
}

} // verus!

verus! {

/// Who owns the call's events after a run of snapshot events.
pub open spec fn owner_after_events(owner: Option<String>, events: Seq<NativeCallSnapshot>) -> Option<
    String,
>
    decreases events.len(),
{
    if events.len() == 0 {
        owner
    } else {
        owner_after_events(owner_after_event(owner, events[0]), events.drop_first())
    }
}

/// A webview whose connect the native side reports live receives the call's
/// events, and a later state query by any webview does not take them away.
pub proof fn lemma_connected_webview_keeps_events(
    owner: Option<String>,
    label: String,
    snapshot: NativeCallSnapshot,
    other: String,
    queried: Result<NativeCallSnapshot>,
)
    requires
        snapshot.live(),
    ensures
        owner_after_connect(owner, label, Ok(snapshot)) == Some(label),
        owner_after_state_query(owner_after_connect(owner, label, Ok(snapshot)), other, queried)
            == Some(label),
{
}

/// An owned room never changes owner through a state query.
pub proof fn lemma_state_query_keeps_owner(
    owner: String,
    caller: String,
    result: Result<NativeCallSnapshot>,
)
    ensures
        owner_after_state_query(Some(owner), caller, result) == Some(owner),
{
}

/// The first labelled webview to query a live room that no webview owns
/// becomes its owner.
pub proof fn lemma_orphaned_live_room_is_claimed(caller: String, snapshot: NativeCallSnapshot)
    requires
        snapshot.live(),
        caller@.len() > 0,
    ensures
        owner_after_state_query(None, caller, Ok(snapshot)) == Some(caller),
{
}

/// A disconnect the native side reports idle ends event delivery: no later
/// snapshot event reaches any webview until a new owner is recorded.
pub proof fn lemma_idle_disconnect_ends_delivery(
    owner: Option<String>,
    snapshot: NativeCallSnapshot,
    events: Seq<NativeCallSnapshot>,
)
    requires
        !snapshot.live(),
    ensures
        owner_after_disconnect(owner, Ok(snapshot)) is None,
        owner_after_events(owner_after_disconnect(owner, Ok(snapshot)), events) is None,
{
    lemma_unowned_stays_unowned(events);
}

/// Without an owner, snapshot events are delivered to no one and leave the
/// room unowned.
pub proof fn lemma_unowned_stays_unowned(events: Seq<NativeCallSnapshot>)
    ensures
        owner_after_events(None, events) is None,
    decreases events.len(),
{
    if events.len() > 0 {
        lemma_unowned_stays_unowned(events.drop_first());
    }
}

/// Once any snapshot of an idle room has been delivered, the room has no
/// owner: later events reach no webview.
pub proof fn lemma_idle_event_ends_ownership(owner: Option<String>, events: Seq<NativeCallSnapshot>, i: int)
    requires
        0 <= i < events.len(),
        !events[i].live(),
    ensures
        owner_after_events(owner, events) is None,
    decreases events.len(),
{
    if i == 0 {
        assert(owner_after_event(owner, events[0]) is None);
        lemma_unowned_stays_unowned(events.drop_first());
    } else {
        lemma_idle_event_ends_ownership(
            owner_after_event(owner, events[0]),
            events.drop_first(),
            i - 1,
        );
    }
}

/// While the native side reports a live room, every snapshot event goes to
/// the same owner.
pub proof fn lemma_live_events_keep_owner(owner: Option<String>, events: Seq<NativeCallSnapshot>)
    requires
        forall|i: int| 0 <= i < events.len() ==> #[trigger] events[i].live(),
    ensures
        owner_after_events(owner, events) == owner,
    decreases events.len(),
{
    if events.len() > 0 {
        assert(events[0].live());
        lemma_live_events_keep_owner(owner, events.drop_first());
    }
}

/// A timed-out connect is never dropped: it resolves with the reconciled
/// native snapshot, or with `Timeout` when the native state stays unknown, in
/// which case the connecting webview keeps receiving events.
pub proof fn lemma_timed_out_connect_is_reconciled(
    owner: Option<String>,
    label: String,
    state: Result<NativeCallSnapshot>,
)
    ensures
        connect_outcome(Err(Error::Timeout), state) == (match state {
            Ok(snapshot) => Ok(snapshot),
            Err(_) => Err::<NativeCallSnapshot, Error>(Error::Timeout),
        }),
        state is Err ==> owner_after_connect(owner, label, connect_outcome(Err(Error::Timeout), state))
            == Some(label),
        (state matches Ok(snapshot) && snapshot.live()) ==> owner_after_connect(
            owner,
            label,
            connect_outcome(Err(Error::Timeout), state),
        ) == Some(label),
{
}

/// A connect that the native side rejects leaves event ownership as it was.
pub proof fn lemma_rejected_connect_keeps_owner(
    owner: Option<String>,
    label: String,
    code: NativeCallFailureCode,
)
    ensures
        owner_after_connect(owner, label, Err(Error::Failure(code))) == owner,
{
}

} // verus!

verus! {

/// The native connect payload is the request's own: every field of the
/// forwarded payload equals the corresponding field of the connect request.
pub proof fn lemma_connect_payload_is_the_request(
    request: &ConnectNativeCallRequest,
    fields: NativeConnectCallFields,
)
    requires
        forwards_connect_fields(request, fields),
    ensures
        fields.call_id@ == request.call_id@,
        fields.url@ == request.url@,
        fields.token@ == request.token@,
        fields.microphone_enabled == request.microphone_enabled,
        fields.encryption_keys@ == request.encryption_keys@,
        request.ice_servers is None <==> fields.ice_servers is None,
        request.ice_servers is Some ==> fields.ice_servers.unwrap()@
            == request.ice_servers.unwrap()@,
        fields.reconnect_attempts == request.reconnect_attempts,
{
}

/// A media toggle is forwarded exactly when its call id is nonblank, whatever
/// its flag: turning a feature off is checked exactly like turning it on.
pub proof fn lemma_media_toggles_check_only_the_call_id(call_id: String, enabled: bool)
    ensures
        forwarded_request_valid(
            &ForwardedRequest::SetNativeCallMicrophoneEnabled(
                SetNativeCallMicrophoneEnabledRequest { call_id, enabled },
            ),
        ) == !is_blank(call_id@),
        forwarded_request_valid(
            &ForwardedRequest::SetNativeCallCameraEnabled(
                SetNativeCallCameraEnabledRequest { call_id, enabled },
            ),
        ) == !is_blank(call_id@),
        forwarded_request_valid(
            &ForwardedRequest::SetNativeCallScreenShareEnabled(
                SetNativeCallScreenShareEnabledRequest { call_id, enabled },
            ),
        ) == !is_blank(call_id@),
        forwarded_request_valid(
            &ForwardedRequest::SetNativeCallPiPEnabled(
                SetNativeCallPiPEnabledRequest { call_id, enabled },
            ),
        ) == !is_blank(call_id@),
        forwarded_request_valid(
            &ForwardedRequest::SwitchNativeCallCamera(SwitchNativeCallCameraRequest { call_id }),
        ) == !is_blank(call_id@),
        forwarded_request_valid(
            &ForwardedRequest::SetNativeCallCameraEnabled(
                SetNativeCallCameraEnabledRequest { call_id, enabled: true },
            ),
        ) == forwarded_request_valid(
            &ForwardedRequest::SetNativeCallCameraEnabled(
                SetNativeCallCameraEnabledRequest { call_id, enabled: false },
            ),
        ),
{
}

/// A native rejection carrying a bounded code's wire string surfaces as that
/// very code; a rejection without a code, or a transport failure, surfaces
/// as `unexpected`; an elapsed bound surfaces as the timeout.
pub proof fn lemma_native_rejections_keep_their_code(code: NativeCallFailureCode, raw: String)
    requires
        raw@ == code.wire(),
    ensures
        invoke_failure_error(NativeInvokeFailure::Rejected(Some(raw))) == Error::Failure(code),
        invoke_failure_error(NativeInvokeFailure::Rejected(None)) == Error::Failure(
            NativeCallFailureCode::Unexpected,
        ),
        invoke_failure_error(NativeInvokeFailure::Other) == Error::Failure(
            NativeCallFailureCode::Unexpected,
        ),
        invoke_failure_error(NativeInvokeFailure::Elapsed) == Error::Timeout,
{
    crate::models::lemma_failure_code_round_trip(code);
}

} // verus!
