use qonductor_verified::config::{AudioQuality, DeviceConfig};
use qonductor_verified::proto::DeviceType;
use qonductor_verified::types::AudioFormat;

#[test]
fn device_config_new_is_deterministic() {
    let a = DeviceConfig::new("Living Room", "app-1");
    let b = DeviceConfig::new("Living Room", "app-2");
    let c = DeviceConfig::new("Kitchen", "app-1");
    assert_eq!(a.device_uuid, b.device_uuid);
    assert_ne!(a.device_uuid, c.device_uuid);
    assert_eq!(a.friendly_name, "Living Room");
    assert_eq!(a.app_id, "app-1");
    assert_eq!(a.device_type, DeviceType::Speaker);
    assert_eq!(a.brand, "Qonductor");
    assert_eq!(a.model, "Qonductor Rust");
    assert_eq!(a.max_audio_quality, AudioQuality::HiRes192);
}

#[test]
fn device_config_new_uses_md5_of_prefixed_name() {
    let c = DeviceConfig::new("Living Room", "x");
    assert_eq!(c.uuid_hex(), "3e0e8ca4f31da6a9410d37d318af0ccf");
    assert_eq!(c, DeviceConfig::with_uuid(c.device_uuid, "Living Room", "x"));
}

#[test]
fn uuid_text_forms() {
    let c = DeviceConfig::with_uuid([0xab; 16], "n", "a");
    assert_eq!(c.uuid_hex(), "abababababababababababababababab");
    assert_eq!(c.uuid_formatted(), "abababab-abab-abab-abab-abababababab");
    let d = DeviceConfig::with_uuid([0, 1, 2, 3, 4, 5, 6, 7, 8, 9, 10, 11, 12, 13, 14, 15], "n", "a");
    assert_eq!(d.uuid_hex(), "000102030405060708090a0b0c0d0e0f");
    assert_eq!(d.uuid_formatted(), "00010203-0405-0607-0809-0a0b0c0d0e0f");
}

#[test]
fn quality_levels_and_format_ids() {
    assert_eq!(AudioQuality::Mp3.level(), 1);
    assert_eq!(AudioQuality::FlacLossless.level(), 2);
    assert_eq!(AudioQuality::HiRes96.level(), 3);
    assert_eq!(AudioQuality::HiRes192.level(), 4);
    assert_eq!(AudioFormat::Mp3.format_id(), 5);
    assert_eq!(AudioFormat::FlacLossless.format_id(), 6);
    assert_eq!(AudioFormat::FlacHiRes96.format_id(), 7);
    assert_eq!(AudioFormat::FlacHiRes192.format_id(), 27);
}

#[test]
fn formatted_without_hyphens_is_hex() {
    let c = DeviceConfig::new("Study", "a");
    let f = c.uuid_formatted();
    assert_eq!(f.len(), 36);
    assert_eq!(f.replace('-', ""), c.uuid_hex());
}
