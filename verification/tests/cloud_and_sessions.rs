use rustkvm::channels::{
    is_upload_label, signal_command, upload_complete_on_close, ChannelRoute, DataChannelManager,
    SignalCommand, UploadAction, UploadTracker,
};
use rustkvm::cloud::{
    after_connect, cloud_error_code, cloud_message_command, connection_step,
    deregistration_allowed, deregistration_result, registration_api, CloudCommand,
    CloudConnectionState, CloudError, CloudErrorCode, CloudManager, ConnectOutcome, LoopAction,
};
use rustkvm::sessions::SessionTable;

#[test]
fn cloud_loop_walks_through_its_states() {
    let mut m = CloudManager::new();
    assert_eq!(connection_step(&mut m, false), LoopAction::Wait(5));
    assert_eq!(m.get_state(), CloudConnectionState::NotConfigured);
    assert_eq!(connection_step(&mut m, true), LoopAction::Again);
    assert_eq!(m.get_state(), CloudConnectionState::Disconnected);
    assert_eq!(connection_step(&mut m, true), LoopAction::Connect);
    assert_eq!(m.get_state(), CloudConnectionState::Connecting);
    assert_eq!(connection_step(&mut m, true), LoopAction::Wait(5));
    assert_eq!(after_connect(&mut m, ConnectOutcome::Failed), LoopAction::Wait(5));
    assert_eq!(m.get_state(), CloudConnectionState::Disconnected);
    m.set_state(CloudConnectionState::Connected);
    assert_eq!(after_connect(&mut m, ConnectOutcome::UnexpectedEof), LoopAction::Again);
    assert_eq!(after_connect(&mut m, ConnectOutcome::Clean), LoopAction::Again);
    assert_eq!(after_connect(&mut m, ConnectOutcome::NoToken), LoopAction::Wait(5));
}

#[test]
fn cloud_state_and_url_change() {
    let mut m = CloudManager::new();
    let st = m.get_cloud_state(true, "https://api", "https://app");
    assert!(st.connected);
    assert_eq!(st.url.as_deref(), Some("https://api"));
    assert!(!m.get_cloud_state(true, "", "x").connected);
    assert!(!m.get_cloud_state(false, "https://api", "x").connected);
    m.set_state(CloudConnectionState::Connected);
    m.set_cloud_url("https://api", "https://api");
    assert_eq!(m.get_state(), CloudConnectionState::Connected);
    m.set_cloud_url("https://api", "https://other");
    assert_eq!(m.get_state(), CloudConnectionState::Disconnected);
}

#[test]
fn registration_and_deregistration_rules() {
    assert_eq!(registration_api("https://a", "https://b").unwrap(), "https://a");
    assert_eq!(registration_api("", "https://b").unwrap(), "https://b");
    assert_eq!(registration_api("", ""), Err(CloudError::UrlNotConfigured));
    assert_eq!(deregistration_allowed(true, "https://a"), Ok(()));
    assert_eq!(deregistration_allowed(false, "https://a"), Err(CloudError::NotRegistered));
    assert_eq!(deregistration_allowed(true, ""), Err(CloudError::NotRegistered));
    let mut m = CloudManager::new();
    m.set_state(CloudConnectionState::Connected);
    assert_eq!(deregistration_result(&mut m, 500), Err(CloudError::RequestFailed(500)));
    assert_eq!(m.get_state(), CloudConnectionState::Connected);
    assert_eq!(deregistration_result(&mut m, 404), Ok(()));
    assert_eq!(m.get_state(), CloudConnectionState::NotConfigured);
    m.set_state(CloudConnectionState::Connected);
    assert_eq!(deregistration_result(&mut m, 204), Ok(()));
}

#[test]
fn cloud_messages_are_dispatched_by_type() {
    assert_eq!(cloud_message_command(Some("ping"), false, None, None), CloudCommand::SendPong);
    assert_eq!(cloud_message_command(Some("offer"), true, None, None), CloudCommand::StartSession);
    assert_eq!(cloud_message_command(Some("session_request"), true, None, None), CloudCommand::StartSession);
    assert_eq!(cloud_message_command(Some("offer"), false, None, None), CloudCommand::Ignore);
    assert_eq!(cloud_message_command(Some("new-ice-candidate"), true, None, None), CloudCommand::AddIceCandidate);
    assert_eq!(
        cloud_message_command(Some("session_close"), true, Some("s1"), None),
        CloudCommand::CloseSession("s1".to_string())
    );
    assert_eq!(cloud_message_command(Some("session_close"), true, None, None), CloudCommand::MalformedClose);
    assert_eq!(
        cloud_message_command(Some("error"), true, None, Some("auth_failed")),
        CloudCommand::ReportError(CloudErrorCode::AuthFailed)
    );
    assert_eq!(cloud_message_command(Some("error"), false, None, None), CloudCommand::Ignore);
    assert_eq!(
        cloud_message_command(Some("hello"), false, None, None),
        CloudCommand::UnknownType("hello".to_string())
    );
    assert_eq!(cloud_message_command(None, true, None, None), CloudCommand::Ignore);
}

#[test]
fn cloud_error_codes() {
    assert_eq!(cloud_error_code(Some("session_not_found")), CloudErrorCode::SessionNotFound);
    assert_eq!(cloud_error_code(Some("auth_failed")), CloudErrorCode::AuthFailed);
    assert_eq!(cloud_error_code(Some("weird")), CloudErrorCode::Other);
    assert_eq!(cloud_error_code(None), CloudErrorCode::Other);
}

#[test]
fn sessions_keep_the_first_as_current() {
    let mut t = SessionTable::new();
    t.add_session("a");
    t.add_session("b");
    t.add_session("a");
    assert_eq!(t.session_count(), 2);
    assert_eq!(t.get_current_session().as_deref(), Some("a"));
    assert!(t.remove_session("a"));
    assert_eq!(t.get_current_session(), None);
    assert!(!t.remove_session("a"));
    assert_eq!(t.session_count(), 1);
    t.set_current_session(Some("b".to_string()));
    assert_eq!(t.get_current_session().as_deref(), Some("b"));
}

#[test]
fn ice_candidates_are_queued_and_bounded() {
    let mut t = SessionTable::new();
    for i in 0..25 {
        t.queue_ice_candidate("s", format!("c{}", i));
    }
    t.queue_ice_candidate("other", "x".to_string());
    let got = t.get_ice_candidates("s");
    assert_eq!(got.len(), 20);
    assert_eq!(got[0], "c5");
    assert_eq!(got[19], "c24");
    assert!(t.get_ice_candidates("s").is_empty());
    assert_eq!(t.get_ice_candidates("other"), vec!["x".to_string()]);
}

#[test]
fn channels_are_routed_by_label() {
    let m = DataChannelManager::new();
    assert_eq!(m.route_data_channel("rpc"), ChannelRoute::Rpc);
    assert_eq!(m.route_data_channel("disk"), ChannelRoute::Disk);
    assert_eq!(m.route_data_channel("hidrpc"), ChannelRoute::HidRpc(true));
    assert_eq!(m.route_data_channel("hidrpc-unreliable-ordered"), ChannelRoute::HidRpc(false));
    assert_eq!(m.route_data_channel("upload_abc"), ChannelRoute::Upload);
    assert_eq!(m.route_data_channel("uploadx"), ChannelRoute::Unknown);
    assert!(is_upload_label("upload_1"));
    assert!(!is_upload_label("Upload_1"));
}

#[test]
fn upload_progress_is_rate_limited() {
    let mut t = UploadTracker::new(1_000);
    assert_eq!(t.on_chunk(1_100, true, Some((100, 10))), UploadAction::Nothing);
    assert_eq!(t.on_chunk(1_250, true, Some((100, 20))), UploadAction::Progress(100, 20));
    assert_eq!(t.last_progress_ms, 1_250);
    assert_eq!(t.on_chunk(1_260, false, Some((100, 100))), UploadAction::Nothing);
    assert_eq!(t.on_chunk(1_270, true, Some((100, 100))), UploadAction::Finish(100, 100));
    assert_eq!(t.on_chunk(5_000, true, None), UploadAction::Nothing);
    assert_eq!(upload_complete_on_close(Some((10, 10))), Some(true));
    assert_eq!(upload_complete_on_close(Some((10, 9))), Some(false));
    assert_eq!(upload_complete_on_close(None), None);
}

#[test]
fn signaling_messages() {
    assert_eq!(signal_command("ping", None, false), SignalCommand::Pong);
    assert_eq!(signal_command("{}", Some("offer"), true), SignalCommand::StartSession);
    assert_eq!(signal_command("{}", Some("offer"), false), SignalCommand::Ignore);
    assert_eq!(signal_command("{}", Some("new-ice-candidate"), true), SignalCommand::AddIceCandidate);
    assert_eq!(signal_command("{}", Some("bye"), true), SignalCommand::UnknownType("bye".to_string()));
    assert_eq!(signal_command("{}", None, true), SignalCommand::Ignore);
}
