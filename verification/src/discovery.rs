//! The device registry behind mDNS discovery, and the answers of the HTTP
//! endpoints that Qobuz controllers call on a device.

use vstd::prelude::*;
use crate::config::{AudioQuality, DeviceConfig, SessionInfo};
use crate::error::Error;
use crate::proto::DeviceType;
use crate::wrappers::{uuid_hyphenated, uuid_parse, uuid_parsed};

verus! {

broadcast use vstd::array::group_array_axioms;

/// QConnect SDK version advertised over mDNS (Qobuz apps want 0.9.5 or later).
pub open spec fn sdk_version() -> Seq<char> {
    "0.9.6"@
}

/// The name of a device type in mDNS TXT records and HTTP answers.
pub open spec fn device_type_name(t: DeviceType) -> Seq<char> {
    match t {
        DeviceType::Unknown => "UNKNOWN"@,
        DeviceType::Speaker => "SPEAKER"@,
        DeviceType::Speakerbox => "SPEAKERBOX"@,
        DeviceType::Tv => "TV"@,
        DeviceType::Speakerbox2 => "SPEAKERBOX2"@,
        DeviceType::Laptop => "LAPTOP"@,
        DeviceType::Phone => "PHONE"@,
        DeviceType::GoogleCast => "GOOGLE_CAST"@,
        DeviceType::Headphones => "HEADPHONES"@,
        DeviceType::Tablet => "TABLET"@,
    }
}

/// mDNS string form of a device type.
pub trait DeviceTypeExt {
    /// The string for the mDNS TXT record.
    fn as_str(&self) -> &'static str;
}

impl DeviceTypeExt for DeviceType {
    fn as_str(&self) -> (s: &'static str)
        ensures
            s@ == device_type_name(*self),
    {
        match self {
            DeviceType::Unknown => "UNKNOWN",
            DeviceType::Speaker => "SPEAKER",
            DeviceType::Speakerbox => "SPEAKERBOX",
            DeviceType::Tv => "TV",
            DeviceType::Speakerbox2 => "SPEAKERBOX2",
            DeviceType::Laptop => "LAPTOP",
            DeviceType::Phone => "PHONE",
            DeviceType::GoogleCast => "GOOGLE_CAST",
            DeviceType::Headphones => "HEADPHONES",
            DeviceType::Tablet => "TABLET",
        }
    }
}

/// Law: each device type is named by its own protocol name, spelled out
/// (`TV` for a television, `GOOGLE_CAST` for a Google Cast device, ..).
pub proof fn lemma_device_type_protocol_names()
    ensures
        device_type_name(DeviceType::Unknown) =~= seq!['U', 'N', 'K', 'N', 'O', 'W', 'N'],
        device_type_name(DeviceType::Speaker) =~= seq!['S', 'P', 'E', 'A', 'K', 'E', 'R'],
        device_type_name(DeviceType::Speakerbox) =~= seq!['S', 'P', 'E', 'A', 'K', 'E', 'R', 'B', 'O', 'X'],
        device_type_name(DeviceType::Tv) =~= seq!['T', 'V'],
        device_type_name(DeviceType::Speakerbox2) =~= seq!['S', 'P', 'E', 'A', 'K', 'E', 'R', 'B', 'O', 'X', '2'],
        device_type_name(DeviceType::Laptop) =~= seq!['L', 'A', 'P', 'T', 'O', 'P'],
        device_type_name(DeviceType::Phone) =~= seq!['P', 'H', 'O', 'N', 'E'],
        device_type_name(DeviceType::GoogleCast) =~= seq!['G', 'O', 'O', 'G', 'L', 'E', '_', 'C', 'A', 'S', 'T'],
        device_type_name(DeviceType::Headphones) =~= seq!['H', 'E', 'A', 'D', 'P', 'H', 'O', 'N', 'E', 'S'],
        device_type_name(DeviceType::Tablet) =~= seq!['T', 'A', 'B', 'L', 'E', 'T'],
{
    reveal_strlit("UNKNOWN");
    reveal_strlit("SPEAKER");
    reveal_strlit("SPEAKERBOX");
    reveal_strlit("TV");
    reveal_strlit("SPEAKERBOX2");
    reveal_strlit("LAPTOP");
    reveal_strlit("PHONE");
    reveal_strlit("GOOGLE_CAST");
    reveal_strlit("HEADPHONES");
    reveal_strlit("TABLET");
}

/// Law: no two device types share a name, so the name in a TXT record or
/// an HTTP answer tells the type.
pub proof fn lemma_device_type_names_distinct(a: DeviceType, b: DeviceType)
    requires
        a != b,
    ensures
        device_type_name(a) != device_type_name(b),
{
    lemma_device_type_protocol_names();
    let x = device_type_name(a);
    let y = device_type_name(b);
    assert(x.len() != y.len() || x[0] != y[0]);
}

/// The display name of an audio quality in HTTP answers.
pub open spec fn quality_name(q: AudioQuality) -> Seq<char> {
    match q {
        AudioQuality::Mp3 => "MP3"@,
        AudioQuality::FlacLossless => "LOSSLESS"@,
        AudioQuality::HiRes96 => "HIRES_L2"@,
        AudioQuality::HiRes192 => "HIRES_L3"@,
    }
}

/// Law: each audio quality is shown by its own protocol name, spelled out,
/// and no two share one.
pub proof fn lemma_quality_names(a: AudioQuality, b: AudioQuality)
    ensures
        quality_name(AudioQuality::Mp3) =~= seq!['M', 'P', '3'],
        quality_name(AudioQuality::FlacLossless) =~= seq!['L', 'O', 'S', 'S', 'L', 'E', 'S', 'S'],
        quality_name(AudioQuality::HiRes96) =~= seq!['H', 'I', 'R', 'E', 'S', '_', 'L', '2'],
        quality_name(AudioQuality::HiRes192) =~= seq!['H', 'I', 'R', 'E', 'S', '_', 'L', '3'],
        a != b ==> quality_name(a) != quality_name(b),
{
    reveal_strlit("MP3");
    reveal_strlit("LOSSLESS");
    reveal_strlit("HIRES_L2");
    reveal_strlit("HIRES_L3");
    let x = quality_name(a);
    let y = quality_name(b);
    if a != b {
        assert(x[7] != y[7] || x.len() != y.len() || x[0] != y[0]);
    }
}

/// The display name of an audio quality in HTTP answers.
pub fn audio_quality_display(quality: AudioQuality) -> (s: &'static str)
    ensures
        s@ == quality_name(quality),
{
    match quality {
        AudioQuality::Mp3 => "MP3",
        AudioQuality::FlacLossless => "LOSSLESS",
        AudioQuality::HiRes96 => "HIRES_L2",
        AudioQuality::HiRes192 => "HIRES_L3",
    }
}


// ---------------------------------------------------------------------------
// Device table
// ---------------------------------------------------------------------------

/// A device known to the registry: its configuration and the session a
/// controller last connected it to.
#[derive(Debug)]
pub struct RegisteredDevice {
    /// The device's configuration.
    pub config: DeviceConfig,
    /// The session id of the last connect request, if any.
    pub current_session_id: Option<String>,
}

impl RegisteredDevice {
    /// A copy of this entry.
    pub fn duplicate(&self) -> (d: RegisteredDevice)
        ensures
            d == *self,
    {
        RegisteredDevice {
            config: self.config.duplicate(),
            current_session_id: match &self.current_session_id {
                Some(s) => Some(s.clone()),
                None => None,
            },
        }
    }
}

/// The identifier under which an entry is kept.
pub open spec fn key_of(d: RegisteredDevice) -> Seq<u8> {
    d.config.device_uuid@
}

/// The map that a list of entries describes, keyed by identifier (a later
/// entry of an identifier wins).
pub open spec fn device_map(e: Seq<RegisteredDevice>) -> Map<Seq<u8>, RegisteredDevice>
    decreases e.len(),
{
    if e.len() == 0 {
        Map::empty()
    } else {
        device_map(e.drop_last()).insert(key_of(e.last()), e.last())
    }
}

/// Whether no identifier occurs twice among the entries.
pub open spec fn uuids_distinct(e: Seq<RegisteredDevice>) -> bool {
    forall|i: int, j: int| 0 <= i < j < e.len() ==> key_of(e[i]) != key_of(e[j])
}

proof fn lemma_device_map_at(e: Seq<RegisteredDevice>, i: int)
    requires
        0 <= i < e.len(),
        uuids_distinct(e),
    ensures
        device_map(e).contains_key(key_of(e[i])),
        device_map(e)[key_of(e[i])] == e[i],
    decreases e.len(),
{
    if i < e.len() - 1 {
        lemma_device_map_at(e.drop_last(), i);
    }
}

proof fn lemma_device_map_absent(e: Seq<RegisteredDevice>, k: Seq<u8>)
    requires
        forall|j: int| 0 <= j < e.len() ==> key_of(e[j]) != k,
    ensures
        !device_map(e).contains_key(k),
    decreases e.len(),
{
    if e.len() > 0 {
        lemma_device_map_absent(e.drop_last(), k);
    }
}

proof fn lemma_device_map_keys(e: Seq<RegisteredDevice>, k: Seq<u8>)
    ensures
        device_map(e).contains_key(k) <==> exists|j: int| 0 <= j < e.len() && key_of(#[trigger] e[j]) == k,
    decreases e.len(),
{
    if e.len() > 0 {
        lemma_device_map_keys(e.drop_last(), k);
        if device_map(e.drop_last()).contains_key(k) {
            let j = choose|j: int| 0 <= j < e.drop_last().len() && key_of(#[trigger] e.drop_last()[j]) == k;
            assert(key_of(e[j]) == k);
        }
        if exists|j: int| 0 <= j < e.len() && key_of(#[trigger] e[j]) == k {
            let j = choose|j: int| 0 <= j < e.len() && key_of(#[trigger] e[j]) == k;
            if j < e.len() - 1 {
                assert(key_of(e.drop_last()[j]) == k);
            }
        }
    }
}

proof fn lemma_device_map_update(e: Seq<RegisteredDevice>, i: int, x: RegisteredDevice)
    requires
        0 <= i < e.len(),
        uuids_distinct(e),
        key_of(e[i]) == key_of(x),
    ensures
        device_map(e.update(i, x)) == device_map(e).insert(key_of(x), x),
    decreases e.len(),
{
    let e2 = e.update(i, x);
    if i == e.len() - 1 {
        assert(e2.drop_last() =~= e.drop_last());
        assert(device_map(e2) =~= device_map(e).insert(key_of(x), x));
    } else {
        assert(e2.drop_last() =~= e.drop_last().update(i, x));
        lemma_device_map_update(e.drop_last(), i, x);
        assert(key_of(e.last()) != key_of(x));
        assert(device_map(e2) =~= device_map(e).insert(key_of(x), x));
    }
}

proof fn lemma_device_map_remove(e: Seq<RegisteredDevice>, i: int)
    requires
        0 <= i < e.len(),
        uuids_distinct(e),
    ensures
        device_map(e.remove(i)) == device_map(e).remove(key_of(e[i])),
    decreases e.len(),
{
    let k = key_of(e[i]);
    let e2 = e.remove(i);
    if i == e.len() - 1 {
        assert(e2 =~= e.drop_last());
        lemma_device_map_absent(e.drop_last(), k);
        assert(device_map(e2) =~= device_map(e).remove(k));
    } else {
        assert(e2.drop_last() =~= e.drop_last().remove(i));
        assert(e2.last() == e.last());
        lemma_device_map_remove(e.drop_last(), i);
        assert(key_of(e.last()) != k);
        assert(device_map(e2) =~= device_map(e).remove(k));
    }
}

proof fn lemma_device_map_keyed(e: Seq<RegisteredDevice>, k: Seq<u8>)
    requires
        device_map(e).contains_key(k),
    ensures
        key_of(device_map(e)[k]) == k,
    decreases e.len(),
{
    if e.len() > 0 && k != key_of(e.last()) {
        lemma_device_map_keyed(e.drop_last(), k);
    }
}

proof fn lemma_device_map_len(e: Seq<RegisteredDevice>)
    requires
        uuids_distinct(e),
    ensures
        device_map(e).dom().finite(),
        device_map(e).dom().len() == e.len(),
    decreases e.len(),
{
    if e.len() > 0 {
        lemma_device_map_len(e.drop_last());
        lemma_device_map_absent(e.drop_last(), key_of(e.last()));
    }
}

/// Whether two identifiers are the same.
pub fn same_uuid(a: &[u8; 16], b: &[u8; 16]) -> (r: bool)
    ensures
        r == (a@ == b@),
{
    let mut i: usize = 0;
    while i < 16
        invariant
            i <= 16,
            forall|j: int| 0 <= j < i ==> a@[j] == b@[j],
        decreases 16 - i,
    {
        if a[i] != b[i] {
            assert(a@[i as int] != b@[i as int]);
            return false;
        }
        i += 1;
    }
    assert(a@ =~= b@);
    true
}

/// The devices a registry knows, by identifier.
#[derive(Debug)]
pub struct DeviceTable {
    devices: Vec<RegisteredDevice>,
}

impl View for DeviceTable {
    type V = Map<Seq<u8>, RegisteredDevice>;

    /// The devices held, by identifier.
    closed spec fn view(&self) -> Map<Seq<u8>, RegisteredDevice> {
        device_map(self.devices@)
    }
}

impl DeviceTable {
    #[verifier::type_invariant]
    closed spec fn wf(self) -> bool {
        uuids_distinct(self.devices@)
    }

    /// The empty table.
    pub fn new() -> (t: DeviceTable)
        ensures
            t.view() == Map::<Seq<u8>, RegisteredDevice>::empty(),
    {
        DeviceTable { devices: Vec::new() }
    }

    fn index_of(&self, uuid: &[u8; 16]) -> (r: Option<usize>)
        ensures
            match r {
                Some(i) => i < self.devices@.len() && key_of(self.devices@[i as int]) == uuid@,
                None => forall|j: int| 0 <= j < self.devices@.len() ==> key_of(self.devices@[j]) != uuid@,
            },
    {
        let mut i: usize = 0;
        while i < self.devices.len()
            invariant
                i <= self.devices@.len(),
                forall|j: int| 0 <= j < i ==> key_of(self.devices@[j]) != uuid@,
            decreases self.devices@.len() - i,
        {
            if same_uuid(&self.devices[i].config.device_uuid, uuid) {
                return Some(i);
            }
            i += 1;
        }
        None
    }

    /// Puts `device` under its identifier, replacing the entry that was
    /// there.
    pub fn put(&mut self, device: RegisteredDevice)
        ensures
            final(self).view() == old(self).view().insert(key_of(device), device),
    {
        proof { use_type_invariant(&*self); }
        let found = self.index_of(&device.config.device_uuid);
        let ghost e = self.devices@;
        let mut devices: Vec<RegisteredDevice> = Vec::new();
        std::mem::swap(&mut devices, &mut self.devices);
        match found {
            Some(i) => {
                proof { lemma_device_map_update(e, i as int, device); }
                devices.set(i, device);
                assert(devices@ == e.update(i as int, device));
                assert(uuids_distinct(devices@));
            },
            None => {
                devices.push(device);
                assert(devices@.drop_last() =~= e);
                assert(uuids_distinct(devices@));
            },
        }
        self.devices = devices;
    }

    /// Registers a device: its configuration, with no session yet. A device
    /// registered again under the same identifier replaces the earlier one.
    pub fn insert(&mut self, config: DeviceConfig)
        ensures
            final(self).view() == old(self).view().insert(
                config.device_uuid@,
                RegisteredDevice { config, current_session_id: None },
            ),
    {
        self.put(RegisteredDevice { config, current_session_id: None });
    }

    /// Unregisters the device with identifier `uuid`, handing back its
    /// entry; `None` where there was none.
    pub fn remove(&mut self, uuid: &[u8; 16]) -> (r: Option<RegisteredDevice>)
        ensures
            final(self).view() == old(self).view().remove(uuid@),
            match r {
                Some(d) => old(self).view().contains_key(uuid@) && d == old(self).view()[uuid@],
                None => !old(self).view().contains_key(uuid@),
            },
    {
        proof { use_type_invariant(&*self); }
        let found = self.index_of(uuid);
        let ghost e = self.devices@;
        match found {
            Some(i) => {
                proof {
                    lemma_device_map_remove(e, i as int);
                    lemma_device_map_at(e, i as int);
                }
                let mut devices: Vec<RegisteredDevice> = Vec::new();
                std::mem::swap(&mut devices, &mut self.devices);
                let d = devices.remove(i);
                assert(uuids_distinct(devices@)) by {
                    assert forall|a: int, b: int| 0 <= a < b < devices@.len() implies key_of(devices@[a]) != key_of(devices@[b]) by {
                        let a0 = if a < i { a } else { a + 1 };
                        let b0 = if b < i { b } else { b + 1 };
                        assert(devices@[a] == e[a0]);
                        assert(devices@[b] == e[b0]);
                    }
                }
                self.devices = devices;
                Some(d)
            },
            None => {
                proof {
                    lemma_device_map_absent(e, uuid@);
                    assert(device_map(e).remove(uuid@) =~= device_map(e));
                }
                None
            },
        }
    }

    /// The entry of the device with identifier `uuid`.
    pub fn get(&self, uuid: &[u8; 16]) -> (r: Option<&RegisteredDevice>)
        ensures
            match r {
                Some(d) => self.view().contains_key(uuid@) && *d == self.view()[uuid@],
                None => !self.view().contains_key(uuid@),
            },
    {
        proof { use_type_invariant(self); }
        match self.index_of(uuid) {
            Some(i) => {
                proof { lemma_device_map_at(self.devices@, i as int); }
                Some(&self.devices[i])
            },
            None => {
                proof { lemma_device_map_absent(self.devices@, uuid@); }
                None
            },
        }
    }

    /// The configuration of the device with identifier `uuid`.
    pub fn get_device(&self, uuid: &[u8; 16]) -> (r: Option<DeviceConfig>)
        ensures
            match r {
                Some(c) => self.view().contains_key(uuid@) && c == self.view()[uuid@].config,
                None => !self.view().contains_key(uuid@),
            },
    {
        match self.get(uuid) {
            Some(d) => Some(d.config.duplicate()),
            None => None,
        }
    }

    /// Records `session_id` as the current session of the device with
    /// identifier `uuid`; `false`, and nothing changed, where there is no
    /// such device.
    pub fn set_session(&mut self, uuid: &[u8; 16], session_id: String) -> (found: bool)
        ensures
            found == old(self).view().contains_key(uuid@),
            found ==> final(self).view() == old(self).view().insert(
                uuid@,
                RegisteredDevice {
                    config: old(self).view()[uuid@].config,
                    current_session_id: Some(session_id),
                },
            ),
            !found ==> final(self).view() == old(self).view(),
    {
        proof {
            if self.view().contains_key(uuid@) {
                lemma_device_map_keyed(self.devices@, uuid@);
            }
        }
        let updated = match self.get(uuid) {
            Some(d) => Some(RegisteredDevice { config: d.config.duplicate(), current_session_id: Some(session_id) }),
            None => None,
        };
        match updated {
            Some(d) => {
                self.put(d);
                true
            },
            None => false,
        }
    }

    /// The configurations of all registered devices, one per device.
    pub fn devices(&self) -> (r: Vec<DeviceConfig>)
        ensures
            r@.len() == self.view().dom().len(),
            forall|i: int| 0 <= i < r@.len() ==> self.view().contains_key(#[trigger] r@[i].device_uuid@)
                && self.view()[r@[i].device_uuid@].config == r@[i],
            forall|k: Seq<u8>| #[trigger] self.view().contains_key(k)
                ==> exists|i: int| 0 <= i < r@.len() && r@[i].device_uuid@ == k,
    {
        proof {
            use_type_invariant(self);
            lemma_device_map_len(self.devices@);
        }
        let mut r: Vec<DeviceConfig> = Vec::new();
        let mut i: usize = 0;
        while i < self.devices.len()
            invariant
                i <= self.devices@.len(),
                uuids_distinct(self.devices@),
                r@.len() == i,
                forall|j: int| 0 <= j < i ==> #[trigger] r@[j] == self.devices@[j].config,
            decreases self.devices@.len() - i,
        {
            r.push(self.devices[i].config.duplicate());
            i += 1;
        }
        proof {
            assert forall|j: int| 0 <= j < r@.len() implies self.view().contains_key(#[trigger] r@[j].device_uuid@)
                && self.view()[r@[j].device_uuid@].config == r@[j] by {
                lemma_device_map_at(self.devices@, j);
            }
            assert forall|k: Seq<u8>| #[trigger] self.view().contains_key(k)
                implies exists|j: int| 0 <= j < r@.len() && r@[j].device_uuid@ == k by {
                lemma_device_map_keys(self.devices@, k);
                let j = choose|j: int| 0 <= j < self.devices@.len() && key_of(#[trigger] self.devices@[j]) == k;
                assert(r@[j].device_uuid@ == k);
            }
        }
        r
    }
}

// ---------------------------------------------------------------------------
// mDNS advertisement
// ---------------------------------------------------------------------------

/// The path a device advertises: `/devices/` and its hyphenated identifier.
pub open spec fn advertised_path(c: DeviceConfig) -> Seq<char> {
    "/devices/"@ + uuid_hyphenated(c.device_uuid@)
}

/// The TXT records of a device's mDNS announcement, in order: `path`,
/// `type`, `Name`, `device_uuid` and `sdk_version`. The identifier is
/// written in hyphenated form, which the HTTP endpoints read back as the
/// same identifier.
pub fn mdns_txt_records(config: &DeviceConfig) -> (r: Vec<(String, String)>)
    ensures
        r@.len() == 5,
        r@[0].0@ == "path"@,
        r@[0].1@ == advertised_path(*config),
        r@[1].0@ == "type"@,
        r@[1].1@ == device_type_name(config.device_type),
        r@[2].0@ == "Name"@,
        r@[2].1@ == config.friendly_name@,
        r@[3].0@ == "device_uuid"@,
        r@[3].1@ == uuid_hyphenated(config.device_uuid@),
        r@[4].0@ == "sdk_version"@,
        r@[4].1@ == sdk_version(),
        uuid_parsed(uuid_hyphenated(config.device_uuid@)) == Some(config.device_uuid@),
{
    let uuid_text = config.uuid_formatted();
    let mut path = "/devices/".to_owned();
    path.append(uuid_text.as_str());
    let mut r: Vec<(String, String)> = Vec::new();
    r.push(("path".to_owned(), path));
    r.push(("type".to_owned(), config.device_type.as_str().to_owned()));
    r.push(("Name".to_owned(), config.friendly_name.clone()));
    r.push(("device_uuid".to_owned(), uuid_text));
    r.push(("sdk_version".to_owned(), "0.9.6".to_owned()));
    proof {
        reveal_strlit("0.9.6");
    }
    r
}

// ---------------------------------------------------------------------------
// HTTP endpoints
// ---------------------------------------------------------------------------

/// The refusals of the HTTP endpoints.
#[derive(Debug, Clone, Copy, PartialEq, Eq, Structural)]
pub enum HttpStatus {
    /// The identifier in the path is not a UUID.
    BadRequest,
    /// No device is registered under the identifier.
    NotFound,
}

impl HttpStatus {
    /// The HTTP status code.
    pub fn code(&self) -> (c: u16)
        ensures
            c == (match self {
                HttpStatus::BadRequest => 400u16,
                HttpStatus::NotFound => 404u16,
            }),
    {
        match self {
            HttpStatus::BadRequest => 400,
            HttpStatus::NotFound => 404,
        }
    }
}

/// Answer of `GET /devices/{uuid}/get-display-info`.
#[derive(Debug, Clone, PartialEq)]
pub struct DisplayInfoResponse {
    /// Device type name (`type` in JSON).
    pub device_type: String,
    /// Human-readable device name.
    pub friendly_name: String,
    /// Model name.
    pub model_display_name: String,
    /// Brand name.
    pub brand_display_name: String,
    /// Hyphenated device identifier.
    pub serial_number: String,
    /// Name of the highest audio quality.
    pub max_audio_quality: String,
}

/// Answer of `GET /devices/{uuid}/get-connect-info`.
#[derive(Debug, Clone, PartialEq)]
pub struct ConnectInfoResponse {
    /// The current session id, empty where there is none.
    pub current_session_id: String,
    /// The Qobuz app id.
    pub app_id: String,
}

/// A token handed over in a connect request.
#[derive(Debug, Clone, PartialEq)]
pub struct JwtInfo {
    /// Endpoint the token is for, if given.
    pub endpoint: Option<String>,
    /// The token.
    pub jwt: String,
    /// Its expiry.
    pub exp: u64,
}

/// Body of `POST /devices/{uuid}/connect-to-qconnect`.
#[derive(Debug, Clone, PartialEq)]
pub struct ConnectRequest {
    /// The session to join.
    pub session_id: String,
    /// Token for the QConnect WebSocket.
    pub jwt_qconnect: JwtInfo,
    /// Token for the API.
    pub jwt_api: JwtInfo,
}

/// Answer of `POST /devices/{uuid}/connect-to-qconnect`.
#[derive(Debug, Clone, PartialEq)]
pub struct ConnectResponse {
    /// Whether the selection was passed on.
    pub success: bool,
    /// What went wrong, where something did.
    pub error: Option<String>,
}

/// A device selected in a Qobuz app, with the session it is to join.
#[derive(Debug, Clone, PartialEq)]
pub struct DeviceSelected {
    /// The device that was selected.
    pub device_uuid: [u8; 16],
    /// Session credentials from Qobuz.
    pub session_info: SessionInfo,
}

/// The identifier of the registered device that a path's identifier text
/// names: `BadRequest` where the text is no UUID, `NotFound` where no
/// device is registered under it.
pub open spec fn lookup(t: Map<Seq<u8>, RegisteredDevice>, text: Seq<char>) -> Result<Seq<u8>, HttpStatus> {
    match uuid_parsed(text) {
        None => Err(HttpStatus::BadRequest),
        Some(b) => if t.contains_key(b) {
            Ok(b)
        } else {
            Err(HttpStatus::NotFound)
        },
    }
}

/// Whether `r` describes the device `c`.
pub open spec fn is_display_info(r: DisplayInfoResponse, c: DeviceConfig) -> bool {
    &&& r.device_type@ == device_type_name(c.device_type)
    &&& r.friendly_name@ == c.friendly_name@
    &&& r.model_display_name@ == c.model@
    &&& r.brand_display_name@ == c.brand@
    &&& r.serial_number@ == uuid_hyphenated(c.device_uuid@)
    &&& r.max_audio_quality@ == quality_name(c.max_audio_quality)
}

/// The session id a device reports: its current one, or empty.
pub open spec fn reported_session(d: RegisteredDevice) -> Seq<char> {
    match d.current_session_id {
        Some(s) => s@,
        None => Seq::empty(),
    }
}

/// The table after a connect request for the device `k` with session `sid`.
pub open spec fn after_connect(t: Map<Seq<u8>, RegisteredDevice>, k: Seq<u8>, sid: String) -> Map<Seq<u8>, RegisteredDevice> {
    t.insert(k, RegisteredDevice { config: t[k].config, current_session_id: Some(sid) })
}

/// The WebSocket endpoint used where a connect request names none.
pub open spec fn default_ws_endpoint() -> Seq<char> {
    "wss://play.qobuz.com/ws"@
}

/// Whether `i` holds the credentials of the connect request `req`.
pub open spec fn is_session_of(i: SessionInfo, req: ConnectRequest) -> bool {
    &&& i.session_id == req.session_id
    &&& i.ws_endpoint@ == (match req.jwt_qconnect.endpoint {
        Some(e) => e@,
        None => default_ws_endpoint(),
    })
    &&& i.ws_jwt == req.jwt_qconnect.jwt
    &&& i.ws_jwt_exp == req.jwt_qconnect.exp
    &&& i.api_jwt == req.jwt_api.jwt
    &&& i.api_jwt_exp == req.jwt_api.exp
}

fn find_device(table: &DeviceTable, uuid_text: &str) -> (r: Result<[u8; 16], HttpStatus>)
    ensures
        match lookup(table@, uuid_text@) {
            Ok(k) => r matches Ok(u) && u@ == k,
            Err(e) => r == Err::<[u8; 16], HttpStatus>(e),
        },
{
    match uuid_parse(uuid_text) {
        None => Err(HttpStatus::BadRequest),
        Some(u) => {
            if table.get(&u).is_some() {
                Ok(u)
            } else {
                Err(HttpStatus::NotFound)
            }
        },
    }
}

/// Answers `GET /devices/{uuid}/get-display-info`: what the device is.
pub fn display_info(table: &DeviceTable, uuid_text: &str) -> (r: Result<DisplayInfoResponse, HttpStatus>)
    ensures
        match lookup(table@, uuid_text@) {
            Ok(k) => r matches Ok(x) && is_display_info(x, table@[k].config),
            Err(e) => r == Err::<DisplayInfoResponse, HttpStatus>(e),
        },
{
    let u = match find_device(table, uuid_text) {
        Ok(u) => u,
        Err(e) => return Err(e),
    };
    match table.get(&u) {
        Some(d) => {
            let c = &d.config;
            Ok(DisplayInfoResponse {
                device_type: c.device_type.as_str().to_owned(),
                friendly_name: c.friendly_name.clone(),
                model_display_name: c.model.clone(),
                brand_display_name: c.brand.clone(),
                serial_number: c.uuid_formatted(),
                max_audio_quality: audio_quality_display(c.max_audio_quality).to_owned(),
            })
        },
        None => Err(HttpStatus::NotFound),
    }
}

/// Answers `GET /devices/{uuid}/get-connect-info`: the device's current
/// session (empty where none) and its app id.
pub fn connect_info(table: &DeviceTable, uuid_text: &str) -> (r: Result<ConnectInfoResponse, HttpStatus>)
    ensures
        match lookup(table@, uuid_text@) {
            Ok(k) => r matches Ok(x) && x.current_session_id@ == reported_session(table@[k])
                && x.app_id@ == table@[k].config.app_id@,
            Err(e) => r == Err::<ConnectInfoResponse, HttpStatus>(e),
        },
{
    let u = match find_device(table, uuid_text) {
        Ok(u) => u,
        Err(e) => return Err(e),
    };
    match table.get(&u) {
        Some(d) => {
            let current_session_id = match &d.current_session_id {
                Some(s) => s.clone(),
                None => String::new(),
            };
            Ok(ConnectInfoResponse { current_session_id, app_id: d.config.app_id.clone() })
        },
        None => Err(HttpStatus::NotFound),
    }
}

/// Handles `POST /devices/{uuid}/connect-to-qconnect`: records the session
/// as the device's current one and gives the selection to pass on, with the
/// WebSocket endpoint defaulting to Qobuz's. A refused request changes
/// nothing.
pub fn connect_to_qconnect(table: &mut DeviceTable, uuid_text: &str, req: ConnectRequest) -> (r: Result<DeviceSelected, HttpStatus>)
    ensures
        match lookup(old(table)@, uuid_text@) {
            Ok(k) => r matches Ok(sel) && sel.device_uuid@ == k && is_session_of(sel.session_info, req)
                && final(table)@ == after_connect(old(table)@, k, req.session_id),
            Err(e) => r == Err::<DeviceSelected, HttpStatus>(e) && final(table)@ == old(table)@,
        },
{
    let u = match find_device(table, uuid_text) {
        Ok(u) => u,
        Err(e) => return Err(e),
    };
    let ghost t0 = table@;
    let found = table.set_session(&u, req.session_id.clone());
    assert(found);
    let ws_endpoint = match req.jwt_qconnect.endpoint {
        Some(e) => e,
        None => "wss://play.qobuz.com/ws".to_owned(),
    };
    let session_info = SessionInfo {
        session_id: req.session_id,
        ws_endpoint,
        ws_jwt: req.jwt_qconnect.jwt,
        ws_jwt_exp: req.jwt_qconnect.exp,
        api_jwt: req.jwt_api.jwt,
        api_jwt_exp: req.jwt_api.exp,
    };
    Ok(DeviceSelected { device_uuid: u, session_info })
}

/// The answer to a connect request once the selection was, or could not
/// be, passed on.
pub fn connect_response(passed_on: bool) -> (r: ConnectResponse)
    ensures
        r.success == passed_on,
        passed_on ==> r.error is None,
        !passed_on ==> (r.error matches Some(e) && e@ == "Internal error"@),
{
    if passed_on {
        ConnectResponse { success: true, error: None }
    } else {
        ConnectResponse { success: false, error: Some("Internal error".to_owned()) }
    }
}

/// The configuration of a selected device, for the session to be started;
/// `Error::Discovery("Device not found")` where it is no longer registered.
pub fn select_device(table: &DeviceTable, selected: &DeviceSelected) -> (r: Result<DeviceConfig, Error>)
    ensures
        table@.contains_key(selected.device_uuid@) ==> r == Ok::<DeviceConfig, Error>(table@[selected.device_uuid@].config),
        !table@.contains_key(selected.device_uuid@) ==> (r matches Err(Error::Discovery(m)) && m@ == "Device not found"@),
{
    match table.get_device(&selected.device_uuid) {
        Some(c) => Ok(c),
        None => Err(Error::Discovery("Device not found".to_owned())),
    }
}

// ---------------------------------------------------------------------------
// Laws
// ---------------------------------------------------------------------------

/// Law: once a device is registered, a request whose path names its
/// identifier (in any form the UUID parser reads) is answered about that
/// device, with no current session yet.
pub proof fn lemma_registered_device_found(t: Map<Seq<u8>, RegisteredDevice>, c: DeviceConfig, text: Seq<char>)
    requires
        uuid_parsed(text) == Some(c.device_uuid@),
    ensures
        ({
            let t2 = t.insert(c.device_uuid@, RegisteredDevice { config: c, current_session_id: None });
            &&& lookup(t2, text) == Ok::<Seq<u8>, HttpStatus>(c.device_uuid@)
            &&& t2[c.device_uuid@].config == c
            &&& reported_session(t2[c.device_uuid@]) == Seq::<char>::empty()
        }),
{
}

/// Law: after a connect request for a device, the device's connect info
/// reports the session of that request, and its configuration is unchanged.
pub proof fn lemma_connect_then_connect_info(t: Map<Seq<u8>, RegisteredDevice>, text: Seq<char>, sid: String)
    requires
        lookup(t, text) is Ok,
    ensures
        ({
            let k = lookup(t, text)->Ok_0;
            let t2 = after_connect(t, k, sid);
            &&& lookup(t2, text) == Ok::<Seq<u8>, HttpStatus>(k)
            &&& reported_session(t2[k]) == sid@
            &&& t2[k].config == t[k].config
        }),
{
}

/// Law: once a device is unregistered, requests naming its identifier are
/// answered `NotFound`.
pub proof fn lemma_removed_device_not_found(t: Map<Seq<u8>, RegisteredDevice>, uuid: Seq<u8>, text: Seq<char>)
    requires
        uuid_parsed(text) == Some(uuid),
    ensures
        lookup(t.remove(uuid), text) == Err::<Seq<u8>, HttpStatus>(HttpStatus::NotFound),
{
}

} // verus!
