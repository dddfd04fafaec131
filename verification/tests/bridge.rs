use tauri_plugin_livekit_mobile::{
    after_native_connect, cancel_request_for, connect_rejection, disconnect_rejection, forwarded_rejection,
    forwarded_request_is_valid, idle_snapshot, invalid_request, native_connect_fields,
    reconcile_timed_out_connect, unavailable, ConnectFollowUp, ConnectNativeCallRequest,
    DeclineSystemCallRequest, DisconnectNativeCallRequest, EncryptionKey, Error, EventRouting,
    ForwardedRequest, IceServerConfig, NativeCallConnectionState, NativeCallFailureCode,
    NativeCallSnapshot, ReportSystemIncomingCallRequest, SetAudioRouteRequest,
    SetNativeCallEncryptionKeyRequest, SetNativeCallMicrophoneEnabledRequest,
    StartSystemCallRequest, UpdateCallDisplayRequest,
};

fn snapshot(revision: u64, state: NativeCallConnectionState) -> NativeCallSnapshot {
    NativeCallSnapshot {
        revision,
        call_id: Some("call-1".into()),
        connection_state: state,
        ..idle_snapshot()
    }
}

fn connect_request(call_id: &str) -> ConnectNativeCallRequest {
    ConnectNativeCallRequest {
        call_id: call_id.into(),
        url: "wss://livekit.example".into(),
        token: "secret-jwt".into(),
        microphone_enabled: true,
        encryption_keys: Vec::new(),
        ice_servers: None,
        reconnect_attempts: None,
    }
}

#[test]
fn desktop_idle_snapshot_has_empty_room_projection() {
    let idle = idle_snapshot();
    assert_eq!(idle.revision, 0);
    assert_eq!(idle.call_id, None);
    assert_eq!(idle.remote_participants, Vec::new());
    assert!(!idle.is_live());
}

#[test]
fn desktop_rejections_use_the_bounded_codes() {
    assert_eq!(
        unavailable::<NativeCallSnapshot>(),
        Err(Error::Failure(NativeCallFailureCode::Unavailable))
    );
    assert_eq!(
        invalid_request::<()>(),
        Err(Error::Failure(NativeCallFailureCode::InvalidRequest))
    );
}

#[test]
fn a_live_connect_routes_events_to_the_connecting_webview_only() {
    let mut routing = EventRouting::new();
    assert_eq!(routing.route_snapshot(&snapshot(1, NativeCallConnectionState::Connected)), None);

    let result = routing.settle_connect(
        "main".into(),
        Ok(snapshot(2, NativeCallConnectionState::Connecting)),
    );
    assert_eq!(result.unwrap().revision, 2, "native revision passes through");
    assert_eq!(routing.owner_label.as_deref(), Some("main"));

    // Another webview querying the state does not take the events over.
    let queried = routing.settle_state_query(
        "popout".into(),
        Ok(snapshot(3, NativeCallConnectionState::Connected)),
    );
    assert_eq!(queried.unwrap().revision, 3);
    assert_eq!(
        routing.route_snapshot(&snapshot(4, NativeCallConnectionState::Connected)),
        Some("main".into())
    );
    // An idle snapshot is still delivered, then ends ownership.
    assert_eq!(
        routing.route_snapshot(&snapshot(5, NativeCallConnectionState::Idle)),
        Some("main".into())
    );
    assert_eq!(routing.owner_label, None);
    assert_eq!(routing.route_snapshot(&snapshot(6, NativeCallConnectionState::Connected)), None);
}

#[test]
fn an_idle_or_failed_connect_result_records_no_owner() {
    let mut routing = EventRouting::new();
    routing.settle_connect("main".into(), Ok(snapshot(1, NativeCallConnectionState::Idle)));
    assert_eq!(routing.owner_label, None);
    let rejected = routing.settle_connect(
        "main".into(),
        Err(Error::Failure(NativeCallFailureCode::Busy)),
    );
    assert_eq!(rejected, Err(Error::Failure(NativeCallFailureCode::Busy)));
    assert_eq!(routing.owner_label, None);
}

#[test]
fn a_timed_out_connect_is_reconciled_and_keeps_delivery_alive() {
    assert!(matches!(
        after_native_connect(Err(Error::Timeout)),
        ConnectFollowUp::Reconcile
    ));
    assert!(matches!(
        after_native_connect(Err(Error::Failure(NativeCallFailureCode::ConnectFailed))),
        ConnectFollowUp::Settled(Err(Error::Failure(NativeCallFailureCode::ConnectFailed)))
    ));
    match after_native_connect(Ok(snapshot(7, NativeCallConnectionState::Connected))) {
        ConnectFollowUp::Settled(Ok(s)) => assert_eq!(s.revision, 7),
        _ => panic!("a resolved connect settles"),
    }

    // The native state is reachable: resolve with it.
    let reconciled =
        reconcile_timed_out_connect(Ok(snapshot(8, NativeCallConnectionState::Reconnecting)));
    assert_eq!(reconciled.as_ref().unwrap().revision, 8);
    let mut routing = EventRouting::new();
    routing.settle_connect("main".into(), reconciled);
    assert_eq!(routing.owner_label.as_deref(), Some("main"));

    // The native state is unknown: timeout, and the owner still receives events.
    let unknown = reconcile_timed_out_connect(Err(Error::Failure(NativeCallFailureCode::Unexpected)));
    assert_eq!(unknown, Err(Error::Timeout));
    let mut routing = EventRouting::new();
    let result = routing.settle_connect("main".into(), unknown);
    assert_eq!(result, Err(Error::Timeout));
    assert_eq!(
        routing.route_snapshot(&snapshot(9, NativeCallConnectionState::Connected)),
        Some("main".into())
    );
}

#[test]
fn a_disconnect_to_idle_ends_delivery() {
    let mut routing = EventRouting::new();
    routing.settle_connect("main".into(), Ok(snapshot(1, NativeCallConnectionState::Connected)));
    routing.settle_disconnect(Ok(snapshot(2, NativeCallConnectionState::Connected)));
    assert_eq!(routing.owner_label.as_deref(), Some("main"));
    routing.settle_disconnect(Err(Error::Timeout));
    assert_eq!(routing.owner_label.as_deref(), Some("main"));
    let result = routing.settle_disconnect(Ok(snapshot(3, NativeCallConnectionState::Idle)));
    assert_eq!(result.unwrap().revision, 3);
    assert_eq!(routing.owner_label, None);
    assert_eq!(routing.route_snapshot(&snapshot(4, NativeCallConnectionState::Connected)), None);
}

#[test]
fn the_first_labelled_query_claims_an_orphaned_live_room() {
    let mut routing = EventRouting::new();
    routing.settle_state_query("".into(), Ok(snapshot(1, NativeCallConnectionState::Connected)));
    assert_eq!(routing.owner_label, None);
    routing.settle_state_query("late".into(), Ok(snapshot(2, NativeCallConnectionState::Idle)));
    assert_eq!(routing.owner_label, None);
    routing.settle_state_query("late".into(), Err(Error::Timeout));
    assert_eq!(routing.owner_label, None);
    routing.settle_state_query("popout".into(), Ok(snapshot(3, NativeCallConnectionState::Connected)));
    assert_eq!(routing.owner_label.as_deref(), Some("popout"));
    routing.settle_state_query("other".into(), Ok(snapshot(4, NativeCallConnectionState::Connected)));
    assert_eq!(routing.owner_label.as_deref(), Some("popout"));
}

#[test]
fn invalid_commands_never_reach_the_native_side() {
    assert_eq!(connect_rejection(&connect_request("call-1")), None);
    assert_eq!(
        connect_rejection(&connect_request(" ")),
        Some(Error::Failure(NativeCallFailureCode::InvalidRequest))
    );
    assert_eq!(
        disconnect_rejection(&DisconnectNativeCallRequest { call_id: "call-1".into() }),
        None
    );
    assert_eq!(
        disconnect_rejection(&DisconnectNativeCallRequest { call_id: "".into() }),
        Some(Error::Failure(NativeCallFailureCode::InvalidRequest))
    );
}

#[test]
fn forwarded_commands_check_every_identifying_field() {
    let mic = |call_id: &str| {
        ForwardedRequest::SetNativeCallMicrophoneEnabled(SetNativeCallMicrophoneEnabledRequest {
            call_id: call_id.into(),
            enabled: true,
        })
    };
    assert!(forwarded_request_is_valid(&mic("call-1")));
    assert!(!forwarded_request_is_valid(&mic("  ")));
    assert_eq!(
        forwarded_rejection(&mic("")),
        Some(Error::Failure(NativeCallFailureCode::InvalidRequest))
    );
    assert_eq!(forwarded_rejection(&mic("call-1")), None);

    let key = |identity: &str, key: &str| {
        ForwardedRequest::SetNativeCallEncryptionKey(SetNativeCallEncryptionKeyRequest {
            call_id: "call-1".into(),
            identity: identity.into(),
            key_index: 2,
            key: key.into(),
        })
    };
    assert!(forwarded_request_is_valid(&key("@alice:example.org", "c2VjcmV0LWtleQ==")));
    assert!(!forwarded_request_is_valid(&key(" ", "c2VjcmV0LWtleQ==")));
    assert!(!forwarded_request_is_valid(&key("@alice:example.org", "c2VjcmV0LWtleQ")));

    assert!(forwarded_request_is_valid(&ForwardedRequest::StartSystemCall(StartSystemCallRequest {
        call_id: "call-1".into(),
        uuid: "3F2504E0-4F89-11D3-9A0C-0305E82C3301".into(),
        caller_name: "Alice".into(),
    })));
    assert!(!forwarded_request_is_valid(&ForwardedRequest::StartSystemCall(StartSystemCallRequest {
        call_id: "call-1".into(),
        uuid: "3F2504E0-4F89-11D3-9A0C-0305E82C3301".into(),
        caller_name: " ".into(),
    })));
    assert!(!forwarded_request_is_valid(&ForwardedRequest::ReportSystemIncomingCall(
        ReportSystemIncomingCallRequest { uuid: "".into(), caller_name: "Alice".into() }
    )));
    assert!(!forwarded_request_is_valid(&ForwardedRequest::SetAudioRoute(SetAudioRouteRequest {
        call_id: "call-1".into(),
        route_id: "\t".into(),
    })));
    assert!(forwarded_request_is_valid(&ForwardedRequest::SetAudioRoute(SetAudioRouteRequest {
        call_id: "call-1".into(),
        route_id: "speaker".into(),
    })));
    assert!(forwarded_request_is_valid(&ForwardedRequest::UpdateCallDisplay(UpdateCallDisplayRequest {
        call_id: "call-1".into(),
        caller_name: "Alice".into(),
        has_video: None,
    })));
    assert!(!forwarded_request_is_valid(&ForwardedRequest::DeclineSystemCall(DeclineSystemCallRequest {
        call_id: "call-1".into(),
        reason: "".into(),
    })));
}

#[test]
fn native_connect_payload_carries_every_field_unchanged() {
    let mut request = connect_request("call-1");
    request.encryption_keys = vec![EncryptionKey {
        identity: "@alice:example.org".into(),
        key_index: 0,
        key: "c2VjcmV0LWtleQ==".into(),
    }];
    request.ice_servers = Some(vec![IceServerConfig {
        urls: vec!["turn:turn.example:3478".into()],
        username: Some("turn-user".into()),
        credential: Some("turn-pass".into()),
    }]);
    request.reconnect_attempts = Some(5);
    let fields = native_connect_fields(&request);
    assert_eq!(fields.call_id, "call-1");
    assert_eq!(fields.url, "wss://livekit.example");
    assert_eq!(fields.token, "secret-jwt");
    assert!(fields.microphone_enabled);
    assert_eq!(fields.encryption_keys.len(), 1);
    assert_eq!(fields.encryption_keys[0].key, "c2VjcmV0LWtleQ==");
    assert_eq!(fields.ice_servers.map(|s| s.len()), Some(1));
    assert_eq!(fields.reconnect_attempts, Some(5));

    let plain = connect_request("call-1");
    let fields = native_connect_fields(&plain);
    assert!(fields.encryption_keys.is_empty());
    assert!(fields.ice_servers.is_none());
    assert_eq!(fields.reconnect_attempts, None);
}

#[test]
fn a_timed_out_connect_cancels_its_own_call() {
    let request = connect_request("call-1");
    assert!(matches!(after_native_connect(Err(Error::Timeout)), ConnectFollowUp::Reconcile));
    let cancel = cancel_request_for(&request);
    assert_eq!(cancel.call_id, "call-1");
    let reconciled =
        reconcile_timed_out_connect(Ok(snapshot(7, NativeCallConnectionState::Connected)));
    let mut routing = EventRouting::new();
    let result = routing.settle_connect("main".into(), reconciled);
    assert_eq!(result.as_ref().unwrap().revision, 7);
    assert_eq!(result.unwrap().connection_state, NativeCallConnectionState::Connected);
    assert_eq!(routing.owner_label.as_deref(), Some("main"));
}
