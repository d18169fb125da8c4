use qonductor_verified::proto::{
    BufferState, DeviceInfo, LoopMode, PlayingState, QConnectMessage, QueueTrackRef, QueueVersion,
    SrvrCtrlAddRenderer, SrvrCtrlLoopModeSet, SrvrCtrlQueueState, SrvrCtrlRemoveRenderer,
    SrvrCtrlSessionState, SrvrRndrSetActive, SrvrRndrSetState,
};
use qonductor_verified::session::{
    collect_queue_tracks, file_quality_report, ActivationState, Effect, PlaybackCommand,
    PlaybackResponse, QueueTrack, SessionCore, SessionNotice, StreamEnd,
};
use qonductor_verified::transport::set_active_renderer_message;

const DEV: [u8; 16] = [1u8; 16];

fn device_info(uuid: [u8; 16], name: &str) -> DeviceInfo {
    DeviceInfo {
        device_uuid: Some(uuid.to_vec()),
        friendly_name: Some(name.to_string()),
        brand: None,
        model: None,
        serial_number: None,
        device_type: None,
        capabilities: None,
        software_version: None,
    }
}

fn add_renderer(uuid: [u8; 16], id: u64) -> QConnectMessage {
    let mut m = QConnectMessage::blank(Some(83));
    m.srvr_ctrl_add_renderer = Some(SrvrCtrlAddRenderer { renderer_id: Some(id), renderer: Some(device_info(uuid, "R")) });
    m
}

fn set_active(active: bool) -> QConnectMessage {
    let mut m = QConnectMessage::blank(Some(43));
    m.srvr_rndr_set_active = Some(SrvrRndrSetActive { active: Some(active) });
    m
}

#[test]
fn new_session_sends_no_heartbeat() {
    let s = SessionCore::new("sid".to_string(), DEV);
    assert_eq!(s.heartbeat_due(), None);
}

#[test]
fn own_registration_then_activation() {
    let mut s = SessionCore::new("sid".to_string(), DEV);
    let (effects, exit) = s.handle_qconnect_message(add_renderer(DEV, 7));
    assert!(!exit);
    assert_eq!(s.renderer_id, 7);
    assert_eq!(
        effects,
        vec![
            Effect::Notify(SessionNotice::DeviceRegistered { device_uuid: DEV, renderer_id: 7 }),
            Effect::Send(set_active_renderer_message(7)),
        ]
    );
    assert_eq!(s.heartbeat_due(), None);
    let (effects, exit) = s.handle_qconnect_message(set_active(true));
    assert!(!exit);
    assert!(s.is_active);
    assert_eq!(effects.len(), 2);
    assert_eq!(effects[0], Effect::AskActivation { renderer_id: 7 });
    match &effects[1] {
        Effect::Send(m) => {
            assert_eq!(m.message_type, Some(76));
            let ask = m.ctrl_srvr_ask_for_queue_state.as_ref().unwrap();
            assert_eq!(ask.queue_uuid, Some(DEV.to_vec()));
            assert_eq!(ask.queue_version, None);
        }
        _ => panic!("expected a queue state request"),
    }
    assert_eq!(s.heartbeat_due(), Some(7));
}

#[test]
fn other_renderer_added() {
    let mut s = SessionCore::new("sid".to_string(), DEV);
    let (effects, _) = s.handle_qconnect_message(add_renderer([2u8; 16], 9));
    assert_eq!(effects, vec![Effect::Notify(SessionNotice::RendererAdded { renderer_id: 9, name: "R".to_string() })]);
    assert_eq!(s.renderer_id, 0);
}

#[test]
fn deactivation_ends_session() {
    let mut s = SessionCore::new("sid".to_string(), DEV);
    s.handle_qconnect_message(add_renderer(DEV, 7));
    s.handle_qconnect_message(set_active(true));
    let (effects, exit) = s.handle_qconnect_message(set_active(false));
    assert!(exit);
    assert!(!s.is_active);
    assert_eq!(s.heartbeat_due(), None);
    assert_eq!(
        effects,
        vec![
            Effect::Notify(SessionNotice::Deactivated { renderer_id: 7 }),
            Effect::Close,
            Effect::Notify(SessionNotice::Disconnected {
                session_id: "sid".to_string(),
                reason: Some("Server set inactive".to_string()),
            }),
        ]
    );
}

#[test]
fn own_renderer_removed_stops_heartbeat() {
    let mut s = SessionCore::new("sid".to_string(), DEV);
    s.handle_qconnect_message(add_renderer(DEV, 7));
    s.handle_qconnect_message(set_active(true));
    let mut m = QConnectMessage::blank(Some(85));
    m.srvr_ctrl_remove_renderer = Some(SrvrCtrlRemoveRenderer { renderer_id: Some(7) });
    let (effects, exit) = s.handle_qconnect_message(m);
    assert!(!exit);
    assert_eq!(effects, vec![Effect::Notify(SessionNotice::RendererRemoved { renderer_id: 7 })]);
    assert_eq!(s.heartbeat_due(), None);
}

#[test]
fn session_state_records_server_session() {
    let mut s = SessionCore::new("sid".to_string(), DEV);
    let mut m = QConnectMessage::blank(Some(81));
    m.srvr_ctrl_session_state = Some(SrvrCtrlSessionState {
        session_id: Some(44),
        session_uuid: Some(vec![3u8; 16]),
        queue_version: Some(QueueVersion { major: Some(2), minor: Some(5) }),
    });
    let (effects, _) = s.handle_qconnect_message(m);
    assert_eq!(s.server_session_id, Some(44));
    assert_eq!(s.session_uuid, Some([3u8; 16]));
    assert_eq!(s.queue_version, Some((2, 5)));
    assert_eq!(effects.len(), 1);
    match &effects[0] {
        Effect::Send(m) => {
            assert_eq!(m.message_type, Some(77));
            assert_eq!(m.ctrl_srvr_ask_for_renderer_state.unwrap().session_id, Some(44));
        }
        _ => panic!("expected a renderer state request"),
    }
}

#[test]
fn queue_state_updates_tracks_and_version() {
    let mut s = SessionCore::new("sid".to_string(), DEV);
    let mut m = QConnectMessage::blank(Some(90));
    m.srvr_ctrl_queue_state = Some(SrvrCtrlQueueState {
        queue_version: Some(QueueVersion { major: Some(3), minor: None }),
        tracks: vec![
            QueueTrackRef { track_id: Some(10), queue_item_id: Some(100) },
            QueueTrackRef { track_id: None, queue_item_id: Some(101) },
            QueueTrackRef { track_id: Some(12), queue_item_id: Some(102) },
        ],
    });
    let (effects, _) = s.handle_qconnect_message(m);
    assert_eq!(s.queue_version, Some((3, 0)));
    assert_eq!(
        effects,
        vec![Effect::Notify(SessionNotice::QueueUpdated {
            tracks: vec![
                QueueTrack { track_id: 10, queue_item_id: 100 },
                QueueTrack { track_id: 12, queue_item_id: 102 },
            ],
            version: (3, 0),
        })]
    );
}

#[test]
fn set_state_asks_for_playback() {
    let mut s = SessionCore::new("sid".to_string(), DEV);
    let mut m = QConnectMessage::blank(Some(41));
    m.srvr_rndr_set_state = Some(SrvrRndrSetState {
        playing_state: Some(2),
        current_position: Some(5000),
        queue_version: None,
        current_queue_item: Some(QueueTrackRef { track_id: Some(1), queue_item_id: Some(8) }),
        next_queue_item: None,
    });
    let (effects, _) = s.handle_qconnect_message(m);
    assert_eq!(
        effects,
        vec![Effect::AskPlayback {
            renderer_id: 0,
            cmd: PlaybackCommand { state: Some(PlayingState::Playing), position_ms: Some(5000), queue_item_id: Some(8) },
        }]
    );
    let mut empty = QConnectMessage::blank(Some(41));
    empty.srvr_rndr_set_state = Some(SrvrRndrSetState {
        playing_state: None,
        current_position: None,
        queue_version: None,
        current_queue_item: None,
        next_queue_item: None,
    });
    let (effects, _) = s.handle_qconnect_message(empty);
    assert!(effects.is_empty());
}

#[test]
fn loop_mode_and_unknown_messages() {
    let mut s = SessionCore::new("sid".to_string(), DEV);
    let mut m = QConnectMessage::blank(Some(97));
    m.srvr_ctrl_loop_mode_set = Some(SrvrCtrlLoopModeSet { mode: Some(3) });
    let (effects, _) = s.handle_qconnect_message(m);
    assert_eq!(effects, vec![Effect::Notify(SessionNotice::LoopModeChanged { mode: LoopMode::RepeatAll })]);
    let before = s.clone();
    let (effects, exit) = s.handle_qconnect_message(QConnectMessage::blank(Some(1234)));
    assert!(effects.is_empty());
    assert!(!exit);
    assert_eq!(s, before);
}

#[test]
fn playback_and_activation_reports() {
    let mut s = SessionCore::new("sid".to_string(), DEV);
    s.queue_version = Some((4, 1));
    let resp = PlaybackResponse {
        state: PlayingState::Paused,
        buffer_state: BufferState::Ready,
        position_ms: 1234,
        duration_ms: Some(200_000),
        queue_item_id: Some(5),
        next_queue_item_id: None,
    };
    let m = s.playback_report(&resp, 99);
    assert_eq!(m.message_type, Some(23));
    let st = m.rndr_srvr_state_updated.unwrap().state.unwrap();
    assert_eq!(st.playing_state, Some(3));
    assert_eq!(st.buffer_state, Some(2));
    assert_eq!(st.current_position.unwrap().value, Some(1234));
    assert_eq!(st.current_position.unwrap().timestamp, Some(99));
    assert_eq!(st.queue_version, Some(QueueVersion { major: Some(4), minor: Some(1) }));
    let reports = s.activation_reports(&ActivationState { muted: true, volume: 40, max_quality: 4, playback: resp });
    assert_eq!(reports.len(), 3);
    assert_eq!(reports[0].message_type, Some(29));
    assert_eq!(reports[0].rndr_srvr_volume_muted.unwrap().value, Some(true));
    assert_eq!(reports[1].rndr_srvr_volume_changed.unwrap().volume, Some(40));
    assert_eq!(reports[2].rndr_srvr_max_audio_quality_changed.unwrap().value, Some(4));
}

#[test]
fn quality_and_queue_helpers() {
    let m = file_quality_report(96000);
    assert_eq!(m.message_type, Some(26));
    assert_eq!(m.rndr_srvr_file_audio_quality_changed.unwrap().value, Some(96000));
    let tracks = collect_queue_tracks(&vec![QueueTrackRef { track_id: Some(1), queue_item_id: None }]);
    assert!(tracks.is_empty());
}

#[test]
fn session_notices() {
    let s = SessionCore::new("sid".to_string(), DEV);
    assert_eq!(s.closed(), SessionNotice::SessionClosed { device_uuid: DEV });
    assert_eq!(
        s.disconnected(Some("bye".to_string())),
        SessionNotice::Disconnected { session_id: "sid".to_string(), reason: Some("bye".to_string()) }
    );
}

#[test]
fn stream_end_effects() {
    let s = SessionCore::new("sid".to_string(), DEV);
    let (effects, exit) = s.on_stream_end(StreamEnd::Failed("boom".to_string()));
    assert!(exit);
    assert_eq!(
        effects,
        vec![
            Effect::Notify(SessionNotice::Disconnected { session_id: "sid".to_string(), reason: Some("boom".to_string()) }),
            Effect::Notify(SessionNotice::SessionClosed { device_uuid: DEV }),
        ]
    );
    let (effects, _) = s.on_stream_end(StreamEnd::Closed);
    assert_eq!(effects[0], Effect::Notify(SessionNotice::Disconnected { session_id: "sid".to_string(), reason: None }));
    assert_eq!(s.on_exit(), vec![Effect::Notify(SessionNotice::SessionClosed { device_uuid: DEV })]);
}
