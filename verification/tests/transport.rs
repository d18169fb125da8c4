use qonductor_verified::proto::{DeviceType, QConnectMessage};
use qonductor_verified::transport::{join_session_message, ask_for_queue_state_message, TransportState};

#[test]
fn message_ids_count_up_from_one() {
    let mut t = TransportState::new();
    assert_eq!(t.msg_id(), 0);
    let a = t.authenticate("jwt", 5);
    assert_eq!(a.msg_id, Some(1));
    assert_eq!(a.jwt, Some("jwt".to_string()));
    let s = t.subscribe_default(6);
    assert_eq!(s.msg_id, Some(2));
    assert_eq!(s.proto, Some(1));
    assert!(s.channels.is_empty());
    let c = t.subscribe(&[1, 2], 7);
    assert_eq!(c.msg_id, Some(3));
    assert_eq!(c.channels, vec![vec![1, 2]]);
    let p = t.payload_for(vec![9], 8);
    assert_eq!(p.msg_id, Some(4));
    assert_eq!(p.payload, Some(vec![9]));
    assert_eq!(t.next_msg_id(), 5);
}

#[test]
fn batch_uses_last_id() {
    let mut t = TransportState::new();
    t.next_msg_id();
    t.next_msg_id();
    let b = t.batch_of_one(QConnectMessage::blank(Some(23)), 1000);
    assert_eq!(b.messages_id, Some(2));
    assert_eq!(b.messages_time, Some(1000));
    assert_eq!(b.messages.len(), 1);
    assert_eq!(t.msg_id(), 2);
}

#[test]
fn join_session_describes_device() {
    let m = join_session_message(&[4u8; 16], "Den", "0.1.0");
    assert_eq!(m.message_type, Some(61));
    let j = m.ctrl_srvr_join_session.unwrap();
    assert_eq!(j.session_uuid, None);
    let info = j.device_info.unwrap();
    assert_eq!(info.device_uuid, Some(vec![4u8; 16]));
    assert_eq!(info.friendly_name, Some("Den".to_string()));
    assert_eq!(info.brand, Some("Qonductor".to_string()));
    assert_eq!(info.model, Some("Qonductor Rust".to_string()));
    assert_eq!(info.device_type, Some(DeviceType::Speaker.number()));
    assert_eq!(info.software_version, Some("qonductor-0.1.0".to_string()));
    let caps = info.capabilities.unwrap();
    assert_eq!((caps.min_audio_quality, caps.max_audio_quality, caps.volume_remote_control), (Some(1), Some(4), Some(2)));
}

#[test]
fn queue_state_request() {
    let m = ask_for_queue_state_message(&[5u8; 16], Some((3, 2)));
    assert_eq!(m.message_type, Some(76));
    let a = m.ctrl_srvr_ask_for_queue_state.unwrap();
    assert_eq!(a.queue_uuid, Some(vec![5u8; 16]));
    let v = a.queue_version.unwrap();
    assert_eq!((v.major, v.minor), (Some(3), Some(2)));
}
