use qonductor_verified::config::{AudioQuality, DeviceConfig, SessionInfo};
use qonductor_verified::discovery::{
    audio_quality_display, connect_info, connect_response, connect_to_qconnect, display_info,
    mdns_txt_records, same_uuid, select_device, ConnectRequest, DeviceSelected, DeviceTable,
    DeviceTypeExt, HttpStatus, JwtInfo,
};
use qonductor_verified::error::Error;
use qonductor_verified::proto::DeviceType;

const UUID: [u8; 16] = [0x12, 0x34, 0x56, 0x78, 0x9a, 0xbc, 0xde, 0xf0, 0x01, 0x23, 0x45, 0x67, 0x89, 0xab, 0xcd, 0xef];
const UUID_TEXT: &str = "12345678-9abc-def0-0123-456789abcdef";

fn request(endpoint: Option<&str>) -> ConnectRequest {
    ConnectRequest {
        session_id: "sess-1".to_string(),
        jwt_qconnect: JwtInfo { endpoint: endpoint.map(|e| e.to_string()), jwt: "ws-jwt".to_string(), exp: 11 },
        jwt_api: JwtInfo { endpoint: None, jwt: "api-jwt".to_string(), exp: 22 },
    }
}

fn table_with_device() -> DeviceTable {
    let mut t = DeviceTable::new();
    t.insert(DeviceConfig::with_uuid(UUID, "Living Room", "app-1"));
    t
}

#[test]
fn device_type_strings() {
    assert_eq!(DeviceType::Speaker.as_str(), "SPEAKER");
    assert_eq!(DeviceType::GoogleCast.as_str(), "GOOGLE_CAST");
    assert_eq!(DeviceType::Tablet.as_str(), "TABLET");
    assert_eq!(DeviceType::Unknown.as_str(), "UNKNOWN");
}

#[test]
fn audio_quality_names() {
    assert_eq!(audio_quality_display(AudioQuality::Mp3), "MP3");
    assert_eq!(audio_quality_display(AudioQuality::FlacLossless), "LOSSLESS");
    assert_eq!(audio_quality_display(AudioQuality::HiRes96), "HIRES_L2");
    assert_eq!(audio_quality_display(AudioQuality::HiRes192), "HIRES_L3");
}

#[test]
fn registered_device_display_info() {
    let t = table_with_device();
    let info = display_info(&t, UUID_TEXT).unwrap();
    assert_eq!(info.device_type, "SPEAKER");
    assert_eq!(info.friendly_name, "Living Room");
    assert_eq!(info.model_display_name, "Qonductor Rust");
    assert_eq!(info.brand_display_name, "Qonductor");
    assert_eq!(info.serial_number, UUID_TEXT);
    assert_eq!(info.max_audio_quality, "HIRES_L3");
    // The simple form of the identifier names the same device.
    assert!(display_info(&t, "123456789abcdef00123456789abcdef").is_ok());
}

#[test]
fn endpoint_errors() {
    let t = table_with_device();
    assert_eq!(display_info(&t, "not-a-uuid"), Err(HttpStatus::BadRequest));
    assert_eq!(display_info(&t, "00000000-0000-0000-0000-000000000000"), Err(HttpStatus::NotFound));
    assert_eq!(connect_info(&t, "zz"), Err(HttpStatus::BadRequest));
    assert_eq!(HttpStatus::BadRequest.code(), 400);
    assert_eq!(HttpStatus::NotFound.code(), 404);
}

#[test]
fn connect_then_connect_info_reports_session() {
    let mut t = table_with_device();
    let before = connect_info(&t, UUID_TEXT).unwrap();
    assert_eq!(before.current_session_id, "");
    assert_eq!(before.app_id, "app-1");
    let sel = connect_to_qconnect(&mut t, UUID_TEXT, request(None)).unwrap();
    assert_eq!(sel.device_uuid, UUID);
    assert_eq!(
        sel.session_info,
        SessionInfo {
            session_id: "sess-1".to_string(),
            ws_endpoint: "wss://play.qobuz.com/ws".to_string(),
            ws_jwt: "ws-jwt".to_string(),
            ws_jwt_exp: 11,
            api_jwt: "api-jwt".to_string(),
            api_jwt_exp: 22,
        }
    );
    let after = connect_info(&t, UUID_TEXT).unwrap();
    assert_eq!(after.current_session_id, "sess-1");
    assert_eq!(after.app_id, "app-1");
}

#[test]
fn connect_keeps_given_endpoint_and_refuses_unknown_device() {
    let mut t = table_with_device();
    let sel = connect_to_qconnect(&mut t, UUID_TEXT, request(Some("wss://other/ws"))).unwrap();
    assert_eq!(sel.session_info.ws_endpoint, "wss://other/ws");
    let unknown = "ffffffff-ffff-ffff-ffff-ffffffffffff";
    assert_eq!(connect_to_qconnect(&mut t, unknown, request(None)), Err(HttpStatus::NotFound));
    assert_eq!(connect_to_qconnect(&mut t, "x", request(None)), Err(HttpStatus::BadRequest));
}

#[test]
fn connect_responses() {
    let ok = connect_response(true);
    assert!(ok.success);
    assert_eq!(ok.error, None);
    let failed = connect_response(false);
    assert!(!failed.success);
    assert_eq!(failed.error, Some("Internal error".to_string()));
}

#[test]
fn table_insert_replace_remove() {
    let mut t = DeviceTable::new();
    assert!(t.devices().is_empty());
    t.insert(DeviceConfig::with_uuid(UUID, "A", "x"));
    t.insert(DeviceConfig::with_uuid([7u8; 16], "B", "x"));
    t.insert(DeviceConfig::with_uuid(UUID, "A2", "x"));
    let devices = t.devices();
    assert_eq!(devices.len(), 2);
    assert_eq!(t.get_device(&UUID).unwrap().friendly_name, "A2");
    let removed = t.remove(&UUID).unwrap();
    assert_eq!(removed.config.friendly_name, "A2");
    assert!(t.get_device(&UUID).is_none());
    assert!(t.remove(&UUID).is_none());
    assert_eq!(t.devices().len(), 1);
    assert_eq!(display_info(&t, UUID_TEXT), Err(HttpStatus::NotFound));
}

#[test]
fn set_session_of_unknown_device() {
    let mut t = table_with_device();
    assert!(!t.set_session(&[9u8; 16], "s".to_string()));
    assert!(t.set_session(&UUID, "s".to_string()));
    assert_eq!(t.get(&UUID).unwrap().current_session_id, Some("s".to_string()));
}

#[test]
fn selecting_devices() {
    let t = table_with_device();
    let info = SessionInfo {
        session_id: "s".to_string(),
        ws_endpoint: "e".to_string(),
        ws_jwt: "j".to_string(),
        ws_jwt_exp: 0,
        api_jwt: "a".to_string(),
        api_jwt_exp: 0,
    };
    let sel = DeviceSelected { device_uuid: UUID, session_info: info.clone() };
    assert_eq!(select_device(&t, &sel).unwrap().friendly_name, "Living Room");
    let missing = DeviceSelected { device_uuid: [0u8; 16], session_info: info };
    assert_eq!(select_device(&t, &missing), Err(Error::Discovery("Device not found".to_string())));
}

#[test]
fn mdns_records_of_device() {
    let c = DeviceConfig::with_uuid(UUID, "Kitchen", "app");
    let r = mdns_txt_records(&c);
    let expected: Vec<(String, String)> = vec![
        ("path".to_string(), format!("/devices/{UUID_TEXT}")),
        ("type".to_string(), "SPEAKER".to_string()),
        ("Name".to_string(), "Kitchen".to_string()),
        ("device_uuid".to_string(), UUID_TEXT.to_string()),
        ("sdk_version".to_string(), "0.9.6".to_string()),
    ];
    assert_eq!(r, expected);
}

#[test]
fn advertised_identifier_finds_device() {
    let c = DeviceConfig::with_uuid(UUID, "Kitchen", "app");
    let mut t = DeviceTable::new();
    t.insert(c.duplicate());
    let r = mdns_txt_records(&c);
    let info = display_info(&t, &r[3].1).unwrap();
    assert_eq!(info.friendly_name, "Kitchen");
}

#[test]
fn uuid_comparison() {
    assert!(same_uuid(&UUID, &UUID));
    assert!(!same_uuid(&UUID, &[0u8; 16]));
}

#[test]
fn identifier_text_forms() {
    let t = table_with_device();
    assert!(display_info(&t, "{12345678-9abc-def0-0123-456789abcdef}").is_ok());
    assert!(display_info(&t, "URN:uuid:12345678-9ABC-DEF0-0123-456789ABCDEF").is_ok());
    assert!(display_info(&t, "123456789ABCDEF00123456789ABCDEF").is_ok());
    assert_eq!(display_info(&t, "x12345678-9abc-def0-0123-456789abcdefx"), Err(HttpStatus::BadRequest));
    assert_eq!(display_info(&t, "123456789-abc-def0-0123-456789abcdef"), Err(HttpStatus::BadRequest));
    assert_eq!(display_info(&t, "urn:uid:12345678-9abc-def0-0123-456789abcdef"), Err(HttpStatus::BadRequest));
    assert_eq!(display_info(&t, "12345678-9abc-def0-0123-456789abcdeg"), Err(HttpStatus::BadRequest));
}
