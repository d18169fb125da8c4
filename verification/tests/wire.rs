use qonductor_verified::connection::{decode_input, envelope_type_name, format_qconnect_message, inspect_envelope, ms_since_epoch, now_ms, EnvelopeInspection};
use qonductor_verified::proto::{
    DeviceInfo, QConnectMessage, QueueTrackRef, QueueVersion, RndrSrvrStateUpdated, RndrSrvrVolumeChanged,
    SrvrCtrlAddRenderer, SrvrCtrlLoopModeSet, SrvrCtrlQueueState, SrvrRndrSetActive, SrvrRndrSetState,
};
use qonductor_verified::transport::{reader_frame_step, transport_frame_step, FrameStep, WsFrameKind};
use qonductor_verified::wire::{decode_varint, encode_envelope, encode_varint, parse_frame};

#[test]
fn varint_known_encodings() {
    let mut buf = Vec::new();
    encode_varint(300, &mut buf);
    assert_eq!(buf, vec![0xac, 0x02]);
    let mut one = Vec::new();
    encode_varint(1, &mut one);
    assert_eq!(one, vec![0x01]);
    let mut max = Vec::new();
    encode_varint(u64::MAX, &mut max);
    assert_eq!(max.len(), 10);
    assert_eq!(max[9], 0x01);
}

#[test]
fn varint_roundtrip_concrete() {
    for v in [0u64, 1, 127, 128, 16383, 16384, 1 << 35, u64::MAX] {
        let mut buf = Vec::new();
        encode_varint(v, &mut buf);
        let n = buf.len();
        buf.extend_from_slice(&[0xaa, 0xbb]);
        assert_eq!(decode_varint(&buf, 0), Some((v, n)));
    }
}

#[test]
fn varint_rejects_bad_input() {
    assert_eq!(decode_varint(&[], 0), None);
    assert_eq!(decode_varint(&[0x80, 0x80], 0), None);
    // A tenth byte above 1 would overflow 64 bits.
    let too_big = [0xff, 0xff, 0xff, 0xff, 0xff, 0xff, 0xff, 0xff, 0xff, 0x02];
    assert_eq!(decode_varint(&too_big, 0), None);
    let eleven = [0x80, 0x80, 0x80, 0x80, 0x80, 0x80, 0x80, 0x80, 0x80, 0x80, 0x00];
    assert_eq!(decode_varint(&eleven, 0), None);
}

#[test]
fn envelope_roundtrip_concrete() {
    let data = b"hello";
    let mut env = encode_envelope(6, data);
    assert_eq!(env, vec![6, 5, b'h', b'e', b'l', b'l', b'o']);
    env.extend_from_slice(&[9, 9]);
    let f = parse_frame(&env).unwrap();
    assert_eq!(f.msg_type, 6);
    assert_eq!(f.payload, data.to_vec());
}

#[test]
fn parse_frame_rejects_short() {
    assert!(parse_frame(&[]).is_none());
    assert!(parse_frame(&[6, 3, 1, 2]).is_none());
    assert!(parse_frame(&[6, 0x80]).is_none());
}

#[test]
fn envelope_type_names() {
    assert_eq!(envelope_type_name(1), "AUTHENTICATE");
    assert_eq!(envelope_type_name(2), "SUBSCRIBE");
    assert_eq!(envelope_type_name(6), "PAYLOAD");
    assert_eq!(envelope_type_name(9), "ERROR");
    assert_eq!(envelope_type_name(10), "PONG");
    assert_eq!(envelope_type_name(3), "UNKNOWN");
}

#[test]
fn decode_input_hex() {
    assert_eq!(decode_input("0a1B"), Some(vec![0x0a, 0x1b]));
    assert_eq!(decode_input(""), Some(vec![]));
}

#[test]
fn decode_input_base64() {
    // Odd number of hex digits: not hex, but standard base64 of "hi!".
    assert_eq!(decode_input("aGkh"), Some(b"hi!".to_vec()));
    // '-' and '_' only exist in the URL-safe alphabet.
    assert_eq!(decode_input("-_8="), Some(vec![0xfb, 0xff]));
    assert_eq!(decode_input("abc"), None);
    assert_eq!(decode_input("not base64!"), None);
}

#[test]
fn inspect_envelope_cases() {
    assert_eq!(inspect_envelope(&[]), EnvelopeInspection::Empty);
    assert_eq!(inspect_envelope(&[9, 0x80]), EnvelopeInspection::BadLength { msg_type: 9 });
    assert_eq!(
        inspect_envelope(&[6, 0x64, 1, 2]),
        EnvelopeInspection::Incomplete { msg_type: 6, payload_len: 100, varint_len: 1, expected: 102, got: 4 }
    );
    assert_eq!(
        inspect_envelope(&[2, 2, 7, 8, 9]),
        EnvelopeInspection::Complete { msg_type: 2, payload_len: 2, varint_len: 1, payload: vec![7, 8] }
    );
}

#[test]
fn format_message_by_type() {
    let mut m = QConnectMessage::blank(Some(43));
    m.srvr_rndr_set_active = Some(SrvrRndrSetActive { active: Some(true) });
    assert_eq!(format_qconnect_message(&m), "Some(SrvrRndrSetActive { active: Some(true) })");
    assert_eq!(format_qconnect_message(&QConnectMessage::blank(Some(12345))), "None");
    assert_eq!(format_qconnect_message(&QConnectMessage::blank(None)), "None");
    assert_eq!(format_qconnect_message(&QConnectMessage::blank(Some(21))), "None");
}

#[test]
fn clock_is_after_2020() {
    assert!(now_ms() > 1_577_836_800_000);
}

#[test]
fn format_shows_the_body_the_type_selects() {
    let mut m = QConnectMessage::blank(Some(25));
    m.rndr_srvr_volume_changed = Some(RndrSrvrVolumeChanged { volume: Some(40) });
    m.rndr_srvr_state_updated = Some(RndrSrvrStateUpdated { state: None });
    assert_eq!(format_qconnect_message(&m), "Some(RndrSrvrVolumeChanged { volume: Some(40) })");
    m.message_type = Some(23);
    assert_eq!(format_qconnect_message(&m), "Some(RndrSrvrStateUpdated { state: None })");
    assert_eq!(format_qconnect_message(&QConnectMessage::blank(Some(87))), "None");
}

#[test]
fn milliseconds_from_epoch_count() {
    assert_eq!(ms_since_epoch(None), 0);
    assert_eq!(ms_since_epoch(Some(1_700_000_000_123)), 1_700_000_000_123);
    assert_eq!(ms_since_epoch(Some((1u128 << 64) + 5)), 5);
}

#[test]
fn frame_steps() {
    assert_eq!(transport_frame_step(WsFrameKind::Binary), FrameStep::ReadEnvelope);
    assert_eq!(transport_frame_step(WsFrameKind::Ping), FrameStep::ReplyPong);
    assert_eq!(transport_frame_step(WsFrameKind::Close), FrameStep::Closed);
    assert_eq!(transport_frame_step(WsFrameKind::Text), FrameStep::Ignore);
    assert_eq!(reader_frame_step(WsFrameKind::Binary), FrameStep::ReadEnvelope);
    assert_eq!(reader_frame_step(WsFrameKind::Ping), FrameStep::Ignore);
    assert_eq!(reader_frame_step(WsFrameKind::Close), FrameStep::Closed);
    assert_eq!(reader_frame_step(WsFrameKind::Raw), FrameStep::Ignore);
}

#[test]
fn format_nested_lists_enums_and_strings() {
    let mut q = QConnectMessage::blank(Some(90));
    q.srvr_ctrl_queue_state = Some(SrvrCtrlQueueState {
        queue_version: Some(QueueVersion { major: Some(3), minor: Some(-1) }),
        tracks: vec![
            QueueTrackRef { track_id: Some(10), queue_item_id: None },
            QueueTrackRef { track_id: None, queue_item_id: Some(7) },
        ],
    });
    assert_eq!(
        format_qconnect_message(&q),
        "Some(SrvrCtrlQueueState { queue_version: Some(QueueVersion { major: Some(3), minor: Some(-1) }), \
         tracks: [QueueTrackRef { track_id: Some(10), queue_item_id: None }, QueueTrackRef { track_id: None, queue_item_id: Some(7) }] })"
    );

    let mut st = QConnectMessage::blank(Some(41));
    st.srvr_rndr_set_state = Some(SrvrRndrSetState {
        playing_state: Some(2),
        current_position: Some(0),
        queue_version: None,
        current_queue_item: None,
        next_queue_item: None,
    });
    assert_eq!(
        format_qconnect_message(&st),
        "Some(SrvrRndrSetState { playing_state: Some(Playing), current_position: Some(0), queue_version: None, \
         current_queue_item: None, next_queue_item: None })"
    );

    let mut lm = QConnectMessage::blank(Some(97));
    lm.srvr_ctrl_loop_mode_set = Some(SrvrCtrlLoopModeSet { mode: Some(9) });
    assert_eq!(format_qconnect_message(&lm), "Some(SrvrCtrlLoopModeSet { mode: Some(9) })");

    let mut add = QConnectMessage::blank(Some(83));
    add.srvr_ctrl_add_renderer = Some(SrvrCtrlAddRenderer {
        renderer_id: Some(4),
        renderer: Some(DeviceInfo {
            device_uuid: Some(vec![1, 255]),
            friendly_name: Some("Den \"A\"\\B\n".to_string()),
            brand: None,
            model: None,
            serial_number: None,
            device_type: Some(1),
            capabilities: None,
            software_version: None,
        }),
    });
    assert_eq!(
        format_qconnect_message(&add),
        "Some(SrvrCtrlAddRenderer { renderer_id: Some(4), renderer: Some(DeviceInfo { device_uuid: Some([1, 255]), \
         friendly_name: Some(\"Den \\\"A\\\"\\\\B\\n\"), brand: None, model: None, serial_number: None, \
         type: Some(Speaker), capabilities: None, software_version: None }) })"
    );
}
