//! Configuration of a Qobuz Connect device.

use vstd::prelude::*;
use vstd::utf8::{encode_utf8, is_ascii_chars, is_ascii_chars_encode_utf8};
use crate::proto::DeviceType;
use crate::transport::{brand_name, brand_string, model_name, model_string};
use crate::wrappers::{
    hex32_bytes, hex_byte_value, hex_digit, hex_lower, hyphenated_uuid_bytes, md5_digest, md5_of, uuid_hyphenated, uuid_hyphenated_string, uuid_parsed,
    uuid_simple_string,
};

verus! {

broadcast use vstd::array::group_array_axioms;

/// Audio quality capability level: 1 = MP3, 2 = FLAC lossless,
/// 3 = hi-res 96 kHz, 4 = hi-res 192 kHz.
#[derive(Debug, Clone, Copy, PartialEq, Eq, Structural, Hash)]
pub enum AudioQuality {
    Mp3,
    FlacLossless,
    HiRes96,
    HiRes192,
}

/// Capability level of MP3.
pub const AUDIO_QUALITY_MP3: i32 = 1;
/// Capability level of FLAC lossless.
pub const AUDIO_QUALITY_FLAC_LOSSLESS: i32 = 2;
/// Capability level of hi-res 96 kHz.
pub const AUDIO_QUALITY_HIRES_96: i32 = 3;
/// Capability level of hi-res 192 kHz.
pub const AUDIO_QUALITY_HIRES_192: i32 = 4;

impl AudioQuality {
    /// The capability level (1-4).
    pub open spec fn spec_level(self) -> i32 {
        match self {
            AudioQuality::Mp3 => 1,
            AudioQuality::FlacLossless => 2,
            AudioQuality::HiRes96 => 3,
            AudioQuality::HiRes192 => 4,
        }
    }

    /// The capability level (1-4).
    pub fn level(self) -> (l: i32)
        ensures
            l == self.spec_level(),
    {
        match self {
            AudioQuality::Mp3 => AUDIO_QUALITY_MP3,
            AudioQuality::FlacLossless => AUDIO_QUALITY_FLAC_LOSSLESS,
            AudioQuality::HiRes96 => AUDIO_QUALITY_HIRES_96,
            AudioQuality::HiRes192 => AUDIO_QUALITY_HIRES_192,
        }
    }
}

/// Configuration of a Qobuz Connect device.
#[derive(Debug, Clone, PartialEq)]
pub struct DeviceConfig {
    /// 16-byte unique device identifier.
    pub device_uuid: [u8; 16],
    /// Human-readable device name.
    pub friendly_name: String,
    /// Device type.
    pub device_type: DeviceType,
    /// Brand name for display.
    pub brand: String,
    /// Model name for display.
    pub model: String,
    /// Maximum audio quality capability.
    pub max_audio_quality: AudioQuality,
    /// Qobuz app id (required for get-connect-info).
    pub app_id: String,
}

/// The identifier derived from a device name: the MD5 digest of the UTF-8
/// bytes of `qonductor:` followed by the name.
pub open spec fn name_uuid(name: Seq<char>) -> Seq<u8> {
    md5_digest(encode_utf8("qonductor:"@ + name))
}

/// Whether `c` is the configuration of a speaker of this library's brand
/// and model, with the highest audio quality, under the given name,
/// app id and identifier.
pub open spec fn is_default_config(c: DeviceConfig, uuid: Seq<u8>, name: Seq<char>, app_id: Seq<char>) -> bool {
    &&& c.device_uuid@ == uuid
    &&& c.friendly_name@ == name
    &&& c.device_type == DeviceType::Speaker
    &&& c.brand@ == brand_name()
    &&& c.model@ == model_name()
    &&& c.max_audio_quality == AudioQuality::HiRes192
    &&& c.app_id@ == app_id
}

impl DeviceConfig {
    /// A device configuration whose identifier is derived from the name, so
    /// that the same name gets the same identifier across restarts.
    pub fn new(friendly_name: &str, app_id: &str) -> (c: DeviceConfig)
        ensures
            is_default_config(c, name_uuid(friendly_name@), friendly_name@, app_id@),
    {
        let mut seed = "qonductor:".to_owned();
        seed.append(friendly_name);
        let uuid = md5_of(seed.as_str().as_bytes());
        DeviceConfig::with_uuid(uuid, friendly_name, app_id)
    }

    /// A device configuration with the given identifier.
    pub fn with_uuid(device_uuid: [u8; 16], friendly_name: &str, app_id: &str) -> (c: DeviceConfig)
        ensures
            is_default_config(c, device_uuid@, friendly_name@, app_id@),
            c.device_uuid == device_uuid,
    {
        DeviceConfig {
            device_uuid,
            friendly_name: friendly_name.to_owned(),
            device_type: DeviceType::Speaker,
            brand: brand_string(),
            model: model_string(),
            max_audio_quality: AudioQuality::HiRes192,
            app_id: app_id.to_owned(),
        }
    }

    /// The identifier as 32 hexadecimal digits (no hyphens).
    pub fn uuid_hex(&self) -> (s: String)
        ensures
            s@ == hex_lower(self.device_uuid@),
    {
        uuid_simple_string(&self.device_uuid)
    }

    /// The identifier in the standard 8-4-4-4-12 form, which the UUID
    /// parser reads back as the same identifier.
    pub fn uuid_formatted(&self) -> (s: String)
        ensures
            s@ == uuid_hyphenated(self.device_uuid@),
            uuid_parsed(s@) == Some(self.device_uuid@),
    {
        proof { lemma_hyphenated_parses_back(self.device_uuid); }
        uuid_hyphenated_string(&self.device_uuid)
    }

    /// A copy of this configuration.
    pub fn duplicate(&self) -> (c: DeviceConfig)
        ensures
            c == *self,
    {
        DeviceConfig {
            device_uuid: self.device_uuid,
            friendly_name: self.friendly_name.clone(),
            device_type: self.device_type,
            brand: self.brand.clone(),
            model: self.model.clone(),
            max_audio_quality: self.max_audio_quality,
            app_id: self.app_id.clone(),
        }
    }
}

/// Law: the identifier of a named device depends on the name alone, so two
/// configurations made with the same name get the same identifier.
pub proof fn lemma_name_uuid_deterministic(c1: DeviceConfig, c2: DeviceConfig, name: Seq<char>, a1: Seq<char>, a2: Seq<char>)
    requires
        is_default_config(c1, name_uuid(name), name, a1),
        is_default_config(c2, name_uuid(name), name, a2),
    ensures
        c1.device_uuid == c2.device_uuid,
{
    assert(c1.device_uuid@ =~= c2.device_uuid@);
}

/// The characters of `s` other than hyphens, in order.
pub open spec fn without_hyphens(s: Seq<char>) -> Seq<char>
    decreases s.len(),
{
    if s.len() == 0 {
        s
    } else if s.last() == '-' {
        without_hyphens(s.drop_last())
    } else {
        without_hyphens(s.drop_last()).push(s.last())
    }
}

proof fn lemma_without_hyphens_concat(a: Seq<char>, b: Seq<char>)
    ensures
        without_hyphens(a + b) == without_hyphens(a) + without_hyphens(b),
    decreases b.len(),
{
    if b.len() == 0 {
        assert(a + b =~= a);
        assert(without_hyphens(a) + without_hyphens(b) =~= without_hyphens(a));
    } else {
        assert((a + b).drop_last() =~= a + b.drop_last());
        lemma_without_hyphens_concat(a, b.drop_last());
        if b.last() == '-' {
        } else {
            assert(without_hyphens(a) + without_hyphens(b.drop_last()).push(b.last())
                =~= (without_hyphens(a) + without_hyphens(b.drop_last())).push(b.last()));
        }
    }
}

proof fn lemma_without_hyphens_of_hex(b: Seq<u8>, lo: int, hi: int)
    requires
        0 <= lo <= hi <= 2 * b.len(),
    ensures
        without_hyphens(hex_lower(b).subrange(lo, hi)) == hex_lower(b).subrange(lo, hi),
    decreases hi - lo,
{
    let h = hex_lower(b);
    if hi > lo {
        let s = h.subrange(lo, hi);
        assert(s.drop_last() =~= h.subrange(lo, hi - 1));
        lemma_without_hyphens_of_hex(b, lo, hi - 1);
        let i = hi - 1;
        assert(s.last() == h[i]);
        assert(0 <= b[i / 2] as int / 16 < 16);
        assert(0 <= b[i / 2] as int % 16 < 16);
        assert(h[i] != '-');
        assert(s =~= h.subrange(lo, hi - 1).push(s.last()));
    } else {
        assert(h.subrange(lo, hi) =~= Seq::<char>::empty());
    }
}

/// Law: the hyphenated form of an identifier is 36 characters long, and
/// taking its hyphens out gives its 32 hexadecimal digits, the form
/// `uuid_hex` gives.
pub proof fn lemma_hyphenated_is_hex_with_hyphens(b: [u8; 16])
    ensures
        uuid_hyphenated(b@).len() == 36,
        without_hyphens(uuid_hyphenated(b@)) == hex_lower(b@),
{
    let h = hex_lower(b@);
    let d = seq!['-'];
    assert(without_hyphens(d) =~= Seq::<char>::empty()) by {
        assert(d.last() == '-');
        assert(d.drop_last() =~= Seq::<char>::empty());
        assert(without_hyphens(d.drop_last()) =~= Seq::<char>::empty());
    }
    let p0 = h.subrange(0, 8);
    let p1 = h.subrange(8, 12);
    let p2 = h.subrange(12, 16);
    let p3 = h.subrange(16, 20);
    let p4 = h.subrange(20, 32);
    lemma_without_hyphens_of_hex(b@, 0, 8);
    lemma_without_hyphens_of_hex(b@, 8, 12);
    lemma_without_hyphens_of_hex(b@, 12, 16);
    lemma_without_hyphens_of_hex(b@, 16, 20);
    lemma_without_hyphens_of_hex(b@, 20, 32);
    lemma_without_hyphens_concat(p0, d);
    lemma_without_hyphens_concat(p0 + d, p1);
    lemma_without_hyphens_concat(p0 + d + p1, d);
    lemma_without_hyphens_concat(p0 + d + p1 + d, p2);
    lemma_without_hyphens_concat(p0 + d + p1 + d + p2, d);
    lemma_without_hyphens_concat(p0 + d + p1 + d + p2 + d, p3);
    lemma_without_hyphens_concat(p0 + d + p1 + d + p2 + d + p3, d);
    lemma_without_hyphens_concat(p0 + d + p1 + d + p2 + d + p3 + d, p4);
    assert(h.len() == 32);
    assert(p0 + p1 + p2 + p3 + p4 =~= h);
    assert(without_hyphens(uuid_hyphenated(b@)) =~= p0 + p1 + p2 + p3 + p4);
}

proof fn lemma_hex_digit_byte(n: int)
    requires
        0 <= n < 16,
    ensures
        (hex_digit(n) as u8) as int == (if n < 10 { 48 + n } else { 87 + n }),
        hex_byte_value(hex_digit(n) as u8) == Some(n),
        hex_digit(n) != '-',
        '\0' <= hex_digit(n) <= '\u{7f}',
{
}

/// Law: the UUID parser reads the hyphenated form of an identifier back as
/// the same identifier.
pub proof fn lemma_hyphenated_parses_back(b: [u8; 16])
    ensures
        uuid_parsed(uuid_hyphenated(b@)) == Some(b@),
{
    let h = hex_lower(b@);
    let u = uuid_hyphenated(b@);
    lemma_hyphenated_is_hex_with_hyphens(b);
    assert(h.len() == 32);
    assert forall|k: int| 0 <= k < 32 implies hex_byte_value(#[trigger] h[k] as u8) == Some(
        if k % 2 == 0 { b@[k / 2] as int / 16 } else { b@[k / 2] as int % 16 },
    ) && '\0' <= h[k] <= '\u{7f}' by {
        lemma_hex_digit_byte(if k % 2 == 0 { b@[k / 2] as int / 16 } else { b@[k / 2] as int % 16 });
    }
    // positions of u: the hex digits, and hyphens at 8, 13, 18, 23
    assert(u[8] == '-' && u[13] == '-' && u[18] == '-' && u[23] == '-');
    assert forall|i: int| 0 <= i < 36 implies '\0' <= #[trigger] u[i] <= '\u{7f}' by {
        if i < 8 {
            assert(u[i] == h[i]);
        } else if i == 8 || i == 13 || i == 18 || i == 23 {
        } else if i < 13 {
            assert(u[i] == h[i - 1]);
        } else if i < 18 {
            assert(u[i] == h[i - 2]);
        } else if i < 23 {
            assert(u[i] == h[i - 3]);
        } else {
            assert(u[i] == h[i - 4]);
        }
    }
    assert(is_ascii_chars(u));
    is_ascii_chars_encode_utf8(u);
    let e = encode_utf8(u);
    assert(e.len() == 36);
    assert(e[8] == 45 && e[13] == 45 && e[18] == 45 && e[23] == 45);
    let c = e.subrange(0, 8) + e.subrange(9, 13) + e.subrange(14, 18) + e.subrange(19, 23) + e.subrange(24, 36);
    assert(c.len() == 32);
    assert forall|k: int| 0 <= k < 32 implies #[trigger] c[k] == h[k] as u8 by {
        if k < 8 {
            assert(c[k] == e[k]);
            assert(u[k] == h[k]);
        } else if k < 12 {
            assert(c[k] == e[k + 1]);
            assert(u[k + 1] == h[k]);
        } else if k < 16 {
            assert(c[k] == e[k + 2]);
            assert(u[k + 2] == h[k]);
        } else if k < 20 {
            assert(c[k] == e[k + 3]);
            assert(u[k + 3] == h[k]);
        } else {
            assert(c[k] == e[k + 4]);
            assert(u[k + 4] == h[k]);
        }
    }
    assert forall|i: int| 0 <= i < 32 implies #[trigger] hex_byte_value(c[i]) is Some by {
        assert(c[i] == h[i] as u8);
    }
    let r = Seq::new(16, |j: int| (hex_byte_value(c[2 * j])->0 * 16 + hex_byte_value(c[2 * j + 1])->0) as u8);
    assert forall|j: int| 0 <= j < 16 implies r[j] == b@[j] by {
        assert(c[2 * j] == h[2 * j] as u8);
        assert(c[2 * j + 1] == h[2 * j + 1] as u8);
        assert((2 * j) / 2 == j);
        assert((2 * j + 1) / 2 == j);
        assert((2 * j) % 2 == 0);
        assert((2 * j + 1) % 2 == 1);
        let x = b@[j] as int;
        assert(x / 16 * 16 + x % 16 == x);
    }
    assert(r =~= b@);
    assert(hex32_bytes(c) == Some(r));
    assert(hyphenated_uuid_bytes(e) == Some(b@));
}

/// Session credentials handed over by a Qobuz controller.
#[derive(Debug, Clone, PartialEq)]
pub struct SessionInfo {
    /// Session UUID.
    pub session_id: String,
    /// WebSocket endpoint URL.
    pub ws_endpoint: String,
    /// JWT for the WebSocket.
    pub ws_jwt: String,
    /// Expiry of the WebSocket JWT.
    pub ws_jwt_exp: u64,
    /// JWT for the API (streaming URLs).
    pub api_jwt: String,
    /// Expiry of the API JWT.
    pub api_jwt_exp: u64,
}

} // verus!
