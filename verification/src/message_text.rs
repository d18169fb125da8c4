//! The text that shows a message in logs and in the inspection tool, in
//! the layout of Rust's `Debug` for these types: `Some(..)` or `None`
//! around each optional field, `Name { field: value, .. }` for a message,
//! `[a, b]` for a list, and protocol enumerations by the name of their
//! value (the number, where it names none). Strings are quoted, with `"`,
//! backslash, newline, carriage return and tab escaped.

use vstd::prelude::*;
use crate::proto::{QueueVersion, Position, DeviceCapabilities, DeviceInfo, QueueTrackRef, QueueRendererState, RendererState, RndrSrvrStateUpdated, RndrSrvrVolumeChanged, RndrSrvrFileAudioQualityChanged, RndrSrvrMaxAudioQualityChanged, RndrSrvrVolumeMuted, SrvrRndrSetState, SrvrRndrSetActive, CtrlSrvrJoinSession, CtrlSrvrSetActiveRenderer, CtrlSrvrAskForQueueState, CtrlSrvrAskForRendererState, SrvrCtrlSessionState, SrvrCtrlRendererStateUpdated, SrvrCtrlAddRenderer, SrvrCtrlRemoveRenderer, SrvrCtrlActiveRendererChanged, SrvrCtrlVolumeChanged, SrvrCtrlQueueState, SrvrCtrlShuffleModeSet, SrvrCtrlLoopModeSet, SrvrCtrlVolumeMuted, SrvrCtrlMaxAudioQualityChanged, SrvrCtrlFileAudioQualityChanged, QConnectMessage};
use crate::text::chars_of;
use crate::wrappers::push_char;

verus! {

// ---------------------------------------------------------------------------
// Texts of values
// ---------------------------------------------------------------------------

/// The decimal digit of a number below 10.
pub open spec fn digit_char(d: nat) -> char {
    if d == 0 { '0' } else if d == 1 { '1' } else if d == 2 { '2' } else if d == 3 { '3' }
    else if d == 4 { '4' } else if d == 5 { '5' } else if d == 6 { '6' } else if d == 7 { '7' }
    else if d == 8 { '8' } else { '9' }
}

/// The decimal text of a natural number.
pub open spec fn nat_text(n: nat) -> Seq<char>
    decreases n,
{
    if n < 10 {
        seq![digit_char(n)]
    } else {
        nat_text(n / 10) + seq![digit_char(n % 10)]
    }
}

/// The decimal text of an integer, with `-` before a negative one.
pub open spec fn int_text(n: int) -> Seq<char> {
    if n < 0 { seq!['-'] + nat_text((-n) as nat) } else { nat_text(n as nat) }
}

/// `true` or `false`.
pub open spec fn bool_text(b: bool) -> Seq<char> {
    if b { "true"@ } else { "false"@ }
}

/// A character inside a quoted string.
pub open spec fn escaped_char(c: char) -> Seq<char> {
    if c == '"' {
        seq!['\\', '"']
    } else if c == '\\' {
        seq!['\\', '\\']
    } else if c == '\n' {
        seq!['\\', 'n']
    } else if c == '\r' {
        seq!['\\', 'r']
    } else if c == '\t' {
        seq!['\\', 't']
    } else {
        seq![c]
    }
}

/// The characters of a string as written inside quotes.
pub open spec fn escaped(s: Seq<char>) -> Seq<char>
    decreases s.len(),
{
    if s.len() == 0 {
        Seq::empty()
    } else {
        escaped(s.drop_last()) + escaped_char(s.last())
    }
}

/// A quoted string.
pub open spec fn quoted_text(s: Seq<char>) -> Seq<char> {
    seq!['"'] + escaped(s) + seq!['"']
}

/// `Some(..)` around a text.
pub open spec fn some_text(inner: Seq<char>) -> Seq<char> {
    "Some("@ + inner + ")"@
}

/// Texts separated by `, `.
pub open spec fn joined(items: Seq<Seq<char>>) -> Seq<char>
    decreases items.len(),
{
    if items.len() == 0 {
        Seq::empty()
    } else if items.len() == 1 {
        items[0]
    } else {
        joined(items.drop_last()) + ", "@ + items.last()
    }
}

/// A list: its items' texts in brackets, separated by `, `.
pub open spec fn list_text(items: Seq<Seq<char>>) -> Seq<char> {
    "["@ + joined(items) + "]"@
}

/// The texts of bytes, as decimal numbers.
pub open spec fn byte_texts(b: Seq<u8>) -> Seq<Seq<char>> {
    Seq::new(b.len(), |i: int| nat_text(b[i] as nat))
}

/// The name of a playing state number.
pub open spec fn playing_state_name(n: i32) -> Seq<char> {
    if n == 0 { "Unknown"@ } else if n == 1 { "Stopped"@ } else if n == 2 { "Playing"@ }
    else if n == 3 { "Paused"@ } else { int_text(n as int) }
}

/// The name of a buffer state number (the protocol calls the ready state `Ok`).
pub open spec fn buffer_state_name(n: i32) -> Seq<char> {
    if n == 0 { "Unknown"@ } else if n == 1 { "Buffering"@ } else if n == 2 { "Ok"@ }
    else { int_text(n as int) }
}

/// The name of a loop mode number.
pub open spec fn loop_mode_name(n: i32) -> Seq<char> {
    if n == 0 { "Unknown"@ } else if n == 1 { "Off"@ } else if n == 2 { "RepeatOne"@ }
    else if n == 3 { "RepeatAll"@ } else { int_text(n as int) }
}

/// The name of a device type number.
pub open spec fn device_type_name_of(n: i32) -> Seq<char> {
    if n == 0 { "Unknown"@ } else if n == 1 { "Speaker"@ } else if n == 2 { "Speakerbox"@ }
    else if n == 3 { "Tv"@ } else if n == 4 { "Speakerbox2"@ } else if n == 5 { "Laptop"@ }
    else if n == 6 { "Phone"@ } else if n == 7 { "GoogleCast"@ } else if n == 8 { "Headphones"@ }
    else if n == 9 { "Tablet"@ } else { int_text(n as int) }
}

/// An optional 32-bit unsigned number.
pub open spec fn opt_u32_text(o: Option<u32>) -> Seq<char> {
    match o { Some(v) => some_text(nat_text(v as nat)), None => "None"@ }
}

/// An optional 64-bit unsigned number.
pub open spec fn opt_u64_text(o: Option<u64>) -> Seq<char> {
    match o { Some(v) => some_text(nat_text(v as nat)), None => "None"@ }
}

/// An optional 32-bit signed number.
pub open spec fn opt_i32_text(o: Option<i32>) -> Seq<char> {
    match o { Some(v) => some_text(int_text(v as int)), None => "None"@ }
}

/// An optional truth value.
pub open spec fn opt_bool_text(o: Option<bool>) -> Seq<char> {
    match o { Some(v) => some_text(bool_text(v)), None => "None"@ }
}

/// An optional string.
pub open spec fn opt_string_text(o: Option<String>) -> Seq<char> {
    match o { Some(v) => some_text(quoted_text(v@)), None => "None"@ }
}

/// An optional byte string, as a list of numbers.
pub open spec fn opt_bytes_text(o: Option<Vec<u8>>) -> Seq<char> {
    match o { Some(v) => some_text(list_text(byte_texts(v@))), None => "None"@ }
}

/// An optional playing state number, by name.
pub open spec fn opt_playing_state_text(o: Option<i32>) -> Seq<char> {
    match o { Some(v) => some_text(playing_state_name(v)), None => "None"@ }
}

/// An optional buffer state number, by name.
pub open spec fn opt_buffer_state_text(o: Option<i32>) -> Seq<char> {
    match o { Some(v) => some_text(buffer_state_name(v)), None => "None"@ }
}

/// An optional loop mode number, by name.
pub open spec fn opt_loop_mode_text(o: Option<i32>) -> Seq<char> {
    match o { Some(v) => some_text(loop_mode_name(v)), None => "None"@ }
}

/// An optional device type number, by name.
pub open spec fn opt_device_type_text(o: Option<i32>) -> Seq<char> {
    match o { Some(v) => some_text(device_type_name_of(v)), None => "None"@ }
}

/// The text of a `QueueVersion`.
pub open spec fn queue_version_text(x: QueueVersion) -> Seq<char> {
    "QueueVersion { major: "@
        + opt_u64_text(x.major)
        + ", minor: "@
        + opt_i32_text(x.minor)
        + " }"@
}

/// The text of an optional `QueueVersion`.
pub open spec fn opt_queue_version_text(o: Option<QueueVersion>) -> Seq<char> {
    match o { Some(v) => some_text(queue_version_text(v)), None => "None"@ }
}

/// The text of a `Position`.
pub open spec fn position_text(x: Position) -> Seq<char> {
    "Position { timestamp: "@
        + opt_u64_text(x.timestamp)
        + ", value: "@
        + opt_u32_text(x.value)
        + " }"@
}

/// The text of an optional `Position`.
pub open spec fn opt_position_text(o: Option<Position>) -> Seq<char> {
    match o { Some(v) => some_text(position_text(v)), None => "None"@ }
}

/// The text of a `DeviceCapabilities`.
pub open spec fn device_capabilities_text(x: DeviceCapabilities) -> Seq<char> {
    "DeviceCapabilities { min_audio_quality: "@
        + opt_i32_text(x.min_audio_quality)
        + ", max_audio_quality: "@
        + opt_i32_text(x.max_audio_quality)
        + ", volume_remote_control: "@
        + opt_i32_text(x.volume_remote_control)
        + " }"@
}

/// The text of an optional `DeviceCapabilities`.
pub open spec fn opt_device_capabilities_text(o: Option<DeviceCapabilities>) -> Seq<char> {
    match o { Some(v) => some_text(device_capabilities_text(v)), None => "None"@ }
}

/// The text of a `DeviceInfo`.
pub open spec fn device_info_text(x: DeviceInfo) -> Seq<char> {
    "DeviceInfo { device_uuid: "@
        + opt_bytes_text(x.device_uuid)
        + ", friendly_name: "@
        + opt_string_text(x.friendly_name)
        + ", brand: "@
        + opt_string_text(x.brand)
        + ", model: "@
        + opt_string_text(x.model)
        + ", serial_number: "@
        + opt_string_text(x.serial_number)
        + ", type: "@
        + opt_device_type_text(x.device_type)
        + ", capabilities: "@
        + opt_device_capabilities_text(x.capabilities)
        + ", software_version: "@
        + opt_string_text(x.software_version)
        + " }"@
}

/// The text of an optional `DeviceInfo`.
pub open spec fn opt_device_info_text(o: Option<DeviceInfo>) -> Seq<char> {
    match o { Some(v) => some_text(device_info_text(v)), None => "None"@ }
}

/// The text of a `QueueTrackRef`.
pub open spec fn queue_track_ref_text(x: QueueTrackRef) -> Seq<char> {
    "QueueTrackRef { track_id: "@
        + opt_u32_text(x.track_id)
        + ", queue_item_id: "@
        + opt_u64_text(x.queue_item_id)
        + " }"@
}

/// The text of an optional `QueueTrackRef`.
pub open spec fn opt_queue_track_ref_text(o: Option<QueueTrackRef>) -> Seq<char> {
    match o { Some(v) => some_text(queue_track_ref_text(v)), None => "None"@ }
}

/// The texts of a list of `QueueTrackRef`.
pub open spec fn queue_track_ref_texts(v: Seq<QueueTrackRef>) -> Seq<Seq<char>> {
    Seq::new(v.len(), |i: int| queue_track_ref_text(v[i]))
}

/// The text of a `QueueRendererState`.
pub open spec fn queue_renderer_state_text(x: QueueRendererState) -> Seq<char> {
    "QueueRendererState { playing_state: "@
        + opt_playing_state_text(x.playing_state)
        + ", buffer_state: "@
        + opt_buffer_state_text(x.buffer_state)
        + ", current_position: "@
        + opt_position_text(x.current_position)
        + ", duration: "@
        + opt_u32_text(x.duration)
        + ", queue_version: "@
        + opt_queue_version_text(x.queue_version)
        + ", current_queue_item_id: "@
        + opt_i32_text(x.current_queue_item_id)
        + ", next_queue_item_id: "@
        + opt_i32_text(x.next_queue_item_id)
        + " }"@
}

/// The text of an optional `QueueRendererState`.
pub open spec fn opt_queue_renderer_state_text(o: Option<QueueRendererState>) -> Seq<char> {
    match o { Some(v) => some_text(queue_renderer_state_text(v)), None => "None"@ }
}

/// The text of a `RendererState`.
pub open spec fn renderer_state_text(x: RendererState) -> Seq<char> {
    "RendererState { playing_state: "@
        + opt_playing_state_text(x.playing_state)
        + ", current_position: "@
        + opt_position_text(x.current_position)
        + ", duration: "@
        + opt_u32_text(x.duration)
        + ", current_queue_index: "@
        + opt_u32_text(x.current_queue_index)
        + " }"@
}

/// The text of an optional `RendererState`.
pub open spec fn opt_renderer_state_text(o: Option<RendererState>) -> Seq<char> {
    match o { Some(v) => some_text(renderer_state_text(v)), None => "None"@ }
}

/// The text of a `RndrSrvrStateUpdated`.
pub open spec fn rndr_srvr_state_updated_text(x: RndrSrvrStateUpdated) -> Seq<char> {
    "RndrSrvrStateUpdated { state: "@
        + opt_queue_renderer_state_text(x.state)
        + " }"@
}

/// The text of an optional `RndrSrvrStateUpdated`.
pub open spec fn opt_rndr_srvr_state_updated_text(o: Option<RndrSrvrStateUpdated>) -> Seq<char> {
    match o { Some(v) => some_text(rndr_srvr_state_updated_text(v)), None => "None"@ }
}

/// The text of a `RndrSrvrVolumeChanged`.
pub open spec fn rndr_srvr_volume_changed_text(x: RndrSrvrVolumeChanged) -> Seq<char> {
    "RndrSrvrVolumeChanged { volume: "@
        + opt_u32_text(x.volume)
        + " }"@
}

/// The text of an optional `RndrSrvrVolumeChanged`.
pub open spec fn opt_rndr_srvr_volume_changed_text(o: Option<RndrSrvrVolumeChanged>) -> Seq<char> {
    match o { Some(v) => some_text(rndr_srvr_volume_changed_text(v)), None => "None"@ }
}

/// The text of a `RndrSrvrFileAudioQualityChanged`.
pub open spec fn rndr_srvr_file_audio_quality_changed_text(x: RndrSrvrFileAudioQualityChanged) -> Seq<char> {
    "RndrSrvrFileAudioQualityChanged { value: "@
        + opt_i32_text(x.value)
        + " }"@
}

/// The text of an optional `RndrSrvrFileAudioQualityChanged`.
pub open spec fn opt_rndr_srvr_file_audio_quality_changed_text(o: Option<RndrSrvrFileAudioQualityChanged>) -> Seq<char> {
    match o { Some(v) => some_text(rndr_srvr_file_audio_quality_changed_text(v)), None => "None"@ }
}

/// The text of a `RndrSrvrMaxAudioQualityChanged`.
pub open spec fn rndr_srvr_max_audio_quality_changed_text(x: RndrSrvrMaxAudioQualityChanged) -> Seq<char> {
    "RndrSrvrMaxAudioQualityChanged { value: "@
        + opt_i32_text(x.value)
        + " }"@
}

/// The text of an optional `RndrSrvrMaxAudioQualityChanged`.
pub open spec fn opt_rndr_srvr_max_audio_quality_changed_text(o: Option<RndrSrvrMaxAudioQualityChanged>) -> Seq<char> {
    match o { Some(v) => some_text(rndr_srvr_max_audio_quality_changed_text(v)), None => "None"@ }
}

/// The text of a `RndrSrvrVolumeMuted`.
pub open spec fn rndr_srvr_volume_muted_text(x: RndrSrvrVolumeMuted) -> Seq<char> {
    "RndrSrvrVolumeMuted { value: "@
        + opt_bool_text(x.value)
        + " }"@
}

/// The text of an optional `RndrSrvrVolumeMuted`.
pub open spec fn opt_rndr_srvr_volume_muted_text(o: Option<RndrSrvrVolumeMuted>) -> Seq<char> {
    match o { Some(v) => some_text(rndr_srvr_volume_muted_text(v)), None => "None"@ }
}

/// The text of a `SrvrRndrSetState`.
pub open spec fn srvr_rndr_set_state_text(x: SrvrRndrSetState) -> Seq<char> {
    "SrvrRndrSetState { playing_state: "@
        + opt_playing_state_text(x.playing_state)
        + ", current_position: "@
        + opt_u32_text(x.current_position)
        + ", queue_version: "@
        + opt_queue_version_text(x.queue_version)
        + ", current_queue_item: "@
        + opt_queue_track_ref_text(x.current_queue_item)
        + ", next_queue_item: "@
        + opt_queue_track_ref_text(x.next_queue_item)
        + " }"@
}

/// The text of an optional `SrvrRndrSetState`.
pub open spec fn opt_srvr_rndr_set_state_text(o: Option<SrvrRndrSetState>) -> Seq<char> {
    match o { Some(v) => some_text(srvr_rndr_set_state_text(v)), None => "None"@ }
}

/// The text of a `SrvrRndrSetActive`.
pub open spec fn srvr_rndr_set_active_text(x: SrvrRndrSetActive) -> Seq<char> {
    "SrvrRndrSetActive { active: "@
        + opt_bool_text(x.active)
        + " }"@
}

/// The text of an optional `SrvrRndrSetActive`.
pub open spec fn opt_srvr_rndr_set_active_text(o: Option<SrvrRndrSetActive>) -> Seq<char> {
    match o { Some(v) => some_text(srvr_rndr_set_active_text(v)), None => "None"@ }
}

/// The text of a `CtrlSrvrJoinSession`.
pub open spec fn ctrl_srvr_join_session_text(x: CtrlSrvrJoinSession) -> Seq<char> {
    "CtrlSrvrJoinSession { session_uuid: "@
        + opt_bytes_text(x.session_uuid)
        + ", device_info: "@
        + opt_device_info_text(x.device_info)
        + " }"@
}

/// The text of an optional `CtrlSrvrJoinSession`.
pub open spec fn opt_ctrl_srvr_join_session_text(o: Option<CtrlSrvrJoinSession>) -> Seq<char> {
    match o { Some(v) => some_text(ctrl_srvr_join_session_text(v)), None => "None"@ }
}

/// The text of a `CtrlSrvrSetActiveRenderer`.
pub open spec fn ctrl_srvr_set_active_renderer_text(x: CtrlSrvrSetActiveRenderer) -> Seq<char> {
    "CtrlSrvrSetActiveRenderer { renderer_id: "@
        + opt_i32_text(x.renderer_id)
        + " }"@
}

/// The text of an optional `CtrlSrvrSetActiveRenderer`.
pub open spec fn opt_ctrl_srvr_set_active_renderer_text(o: Option<CtrlSrvrSetActiveRenderer>) -> Seq<char> {
    match o { Some(v) => some_text(ctrl_srvr_set_active_renderer_text(v)), None => "None"@ }
}

/// The text of a `CtrlSrvrAskForQueueState`.
pub open spec fn ctrl_srvr_ask_for_queue_state_text(x: CtrlSrvrAskForQueueState) -> Seq<char> {
    "CtrlSrvrAskForQueueState { queue_version: "@
        + opt_queue_version_text(x.queue_version)
        + ", queue_uuid: "@
        + opt_bytes_text(x.queue_uuid)
        + " }"@
}

/// The text of an optional `CtrlSrvrAskForQueueState`.
pub open spec fn opt_ctrl_srvr_ask_for_queue_state_text(o: Option<CtrlSrvrAskForQueueState>) -> Seq<char> {
    match o { Some(v) => some_text(ctrl_srvr_ask_for_queue_state_text(v)), None => "None"@ }
}

/// The text of a `CtrlSrvrAskForRendererState`.
pub open spec fn ctrl_srvr_ask_for_renderer_state_text(x: CtrlSrvrAskForRendererState) -> Seq<char> {
    "CtrlSrvrAskForRendererState { session_id: "@
        + opt_u64_text(x.session_id)
        + " }"@
}

/// The text of an optional `CtrlSrvrAskForRendererState`.
pub open spec fn opt_ctrl_srvr_ask_for_renderer_state_text(o: Option<CtrlSrvrAskForRendererState>) -> Seq<char> {
    match o { Some(v) => some_text(ctrl_srvr_ask_for_renderer_state_text(v)), None => "None"@ }
}

/// The text of a `SrvrCtrlSessionState`.
pub open spec fn srvr_ctrl_session_state_text(x: SrvrCtrlSessionState) -> Seq<char> {
    "SrvrCtrlSessionState { session_id: "@
        + opt_u64_text(x.session_id)
        + ", session_uuid: "@
        + opt_bytes_text(x.session_uuid)
        + ", queue_version: "@
        + opt_queue_version_text(x.queue_version)
        + " }"@
}

/// The text of an optional `SrvrCtrlSessionState`.
pub open spec fn opt_srvr_ctrl_session_state_text(o: Option<SrvrCtrlSessionState>) -> Seq<char> {
    match o { Some(v) => some_text(srvr_ctrl_session_state_text(v)), None => "None"@ }
}

/// The text of a `SrvrCtrlRendererStateUpdated`.
pub open spec fn srvr_ctrl_renderer_state_updated_text(x: SrvrCtrlRendererStateUpdated) -> Seq<char> {
    "SrvrCtrlRendererStateUpdated { renderer_id: "@
        + opt_u64_text(x.renderer_id)
        + ", state: "@
        + opt_renderer_state_text(x.state)
        + " }"@
}

/// The text of an optional `SrvrCtrlRendererStateUpdated`.
pub open spec fn opt_srvr_ctrl_renderer_state_updated_text(o: Option<SrvrCtrlRendererStateUpdated>) -> Seq<char> {
    match o { Some(v) => some_text(srvr_ctrl_renderer_state_updated_text(v)), None => "None"@ }
}

/// The text of a `SrvrCtrlAddRenderer`.
pub open spec fn srvr_ctrl_add_renderer_text(x: SrvrCtrlAddRenderer) -> Seq<char> {
    "SrvrCtrlAddRenderer { renderer_id: "@
        + opt_u64_text(x.renderer_id)
        + ", renderer: "@
        + opt_device_info_text(x.renderer)
        + " }"@
}

/// The text of an optional `SrvrCtrlAddRenderer`.
pub open spec fn opt_srvr_ctrl_add_renderer_text(o: Option<SrvrCtrlAddRenderer>) -> Seq<char> {
    match o { Some(v) => some_text(srvr_ctrl_add_renderer_text(v)), None => "None"@ }
}

/// The text of a `SrvrCtrlRemoveRenderer`.
pub open spec fn srvr_ctrl_remove_renderer_text(x: SrvrCtrlRemoveRenderer) -> Seq<char> {
    "SrvrCtrlRemoveRenderer { renderer_id: "@
        + opt_u64_text(x.renderer_id)
        + " }"@
}

/// The text of an optional `SrvrCtrlRemoveRenderer`.
pub open spec fn opt_srvr_ctrl_remove_renderer_text(o: Option<SrvrCtrlRemoveRenderer>) -> Seq<char> {
    match o { Some(v) => some_text(srvr_ctrl_remove_renderer_text(v)), None => "None"@ }
}

/// The text of a `SrvrCtrlActiveRendererChanged`.
pub open spec fn srvr_ctrl_active_renderer_changed_text(x: SrvrCtrlActiveRendererChanged) -> Seq<char> {
    "SrvrCtrlActiveRendererChanged { renderer_id: "@
        + opt_u64_text(x.renderer_id)
        + " }"@
}

/// The text of an optional `SrvrCtrlActiveRendererChanged`.
pub open spec fn opt_srvr_ctrl_active_renderer_changed_text(o: Option<SrvrCtrlActiveRendererChanged>) -> Seq<char> {
    match o { Some(v) => some_text(srvr_ctrl_active_renderer_changed_text(v)), None => "None"@ }
}

/// The text of a `SrvrCtrlVolumeChanged`.
pub open spec fn srvr_ctrl_volume_changed_text(x: SrvrCtrlVolumeChanged) -> Seq<char> {
    "SrvrCtrlVolumeChanged { renderer_id: "@
        + opt_u64_text(x.renderer_id)
        + ", volume: "@
        + opt_u32_text(x.volume)
        + " }"@
}

/// The text of an optional `SrvrCtrlVolumeChanged`.
pub open spec fn opt_srvr_ctrl_volume_changed_text(o: Option<SrvrCtrlVolumeChanged>) -> Seq<char> {
    match o { Some(v) => some_text(srvr_ctrl_volume_changed_text(v)), None => "None"@ }
}

/// The text of a `SrvrCtrlQueueState`.
pub open spec fn srvr_ctrl_queue_state_text(x: SrvrCtrlQueueState) -> Seq<char> {
    "SrvrCtrlQueueState { queue_version: "@
        + opt_queue_version_text(x.queue_version)
        + ", tracks: "@
        + list_text(queue_track_ref_texts(x.tracks@))
        + " }"@
}

/// The text of an optional `SrvrCtrlQueueState`.
pub open spec fn opt_srvr_ctrl_queue_state_text(o: Option<SrvrCtrlQueueState>) -> Seq<char> {
    match o { Some(v) => some_text(srvr_ctrl_queue_state_text(v)), None => "None"@ }
}

/// The text of a `SrvrCtrlShuffleModeSet`.
pub open spec fn srvr_ctrl_shuffle_mode_set_text(x: SrvrCtrlShuffleModeSet) -> Seq<char> {
    "SrvrCtrlShuffleModeSet { shuffle_on: "@
        + opt_bool_text(x.shuffle_on)
        + " }"@
}

/// The text of an optional `SrvrCtrlShuffleModeSet`.
pub open spec fn opt_srvr_ctrl_shuffle_mode_set_text(o: Option<SrvrCtrlShuffleModeSet>) -> Seq<char> {
    match o { Some(v) => some_text(srvr_ctrl_shuffle_mode_set_text(v)), None => "None"@ }
}

/// The text of a `SrvrCtrlLoopModeSet`.
pub open spec fn srvr_ctrl_loop_mode_set_text(x: SrvrCtrlLoopModeSet) -> Seq<char> {
    "SrvrCtrlLoopModeSet { mode: "@
        + opt_loop_mode_text(x.mode)
        + " }"@
}

/// The text of an optional `SrvrCtrlLoopModeSet`.
pub open spec fn opt_srvr_ctrl_loop_mode_set_text(o: Option<SrvrCtrlLoopModeSet>) -> Seq<char> {
    match o { Some(v) => some_text(srvr_ctrl_loop_mode_set_text(v)), None => "None"@ }
}

/// The text of a `SrvrCtrlVolumeMuted`.
pub open spec fn srvr_ctrl_volume_muted_text(x: SrvrCtrlVolumeMuted) -> Seq<char> {
    "SrvrCtrlVolumeMuted { renderer_id: "@
        + opt_u64_text(x.renderer_id)
        + ", value: "@
        + opt_bool_text(x.value)
        + " }"@
}

/// The text of an optional `SrvrCtrlVolumeMuted`.
pub open spec fn opt_srvr_ctrl_volume_muted_text(o: Option<SrvrCtrlVolumeMuted>) -> Seq<char> {
    match o { Some(v) => some_text(srvr_ctrl_volume_muted_text(v)), None => "None"@ }
}

/// The text of a `SrvrCtrlMaxAudioQualityChanged`.
pub open spec fn srvr_ctrl_max_audio_quality_changed_text(x: SrvrCtrlMaxAudioQualityChanged) -> Seq<char> {
    "SrvrCtrlMaxAudioQualityChanged { max_audio_quality: "@
        + opt_i32_text(x.max_audio_quality)
        + " }"@
}

/// The text of an optional `SrvrCtrlMaxAudioQualityChanged`.
pub open spec fn opt_srvr_ctrl_max_audio_quality_changed_text(o: Option<SrvrCtrlMaxAudioQualityChanged>) -> Seq<char> {
    match o { Some(v) => some_text(srvr_ctrl_max_audio_quality_changed_text(v)), None => "None"@ }
}

/// The text of a `SrvrCtrlFileAudioQualityChanged`.
pub open spec fn srvr_ctrl_file_audio_quality_changed_text(x: SrvrCtrlFileAudioQualityChanged) -> Seq<char> {
    "SrvrCtrlFileAudioQualityChanged { file_audio_quality: "@
        + opt_i32_text(x.file_audio_quality)
        + " }"@
}

/// The text of an optional `SrvrCtrlFileAudioQualityChanged`.
pub open spec fn opt_srvr_ctrl_file_audio_quality_changed_text(o: Option<SrvrCtrlFileAudioQualityChanged>) -> Seq<char> {
    match o { Some(v) => some_text(srvr_ctrl_file_audio_quality_changed_text(v)), None => "None"@ }
}

/// The text that shows a message: the text of the body that its type
/// selects (a missing type counts as 0), or `None` for a type whose body
/// this library does not model.
pub open spec fn message_text(msg: QConnectMessage) -> Seq<char> {
    let t = match msg.message_type {
        Some(t) => t,
        None => 0,
    };
    if t == 23 {
        opt_rndr_srvr_state_updated_text(msg.rndr_srvr_state_updated)
    } else if t == 25 {
        opt_rndr_srvr_volume_changed_text(msg.rndr_srvr_volume_changed)
    } else if t == 26 {
        opt_rndr_srvr_file_audio_quality_changed_text(msg.rndr_srvr_file_audio_quality_changed)
    } else if t == 28 {
        opt_rndr_srvr_max_audio_quality_changed_text(msg.rndr_srvr_max_audio_quality_changed)
    } else if t == 29 {
        opt_rndr_srvr_volume_muted_text(msg.rndr_srvr_volume_muted)
    } else if t == 41 {
        opt_srvr_rndr_set_state_text(msg.srvr_rndr_set_state)
    } else if t == 43 {
        opt_srvr_rndr_set_active_text(msg.srvr_rndr_set_active)
    } else if t == 61 {
        opt_ctrl_srvr_join_session_text(msg.ctrl_srvr_join_session)
    } else if t == 63 {
        opt_ctrl_srvr_set_active_renderer_text(msg.ctrl_srvr_set_active_renderer)
    } else if t == 76 {
        opt_ctrl_srvr_ask_for_queue_state_text(msg.ctrl_srvr_ask_for_queue_state)
    } else if t == 77 {
        opt_ctrl_srvr_ask_for_renderer_state_text(msg.ctrl_srvr_ask_for_renderer_state)
    } else if t == 81 {
        opt_srvr_ctrl_session_state_text(msg.srvr_ctrl_session_state)
    } else if t == 82 {
        opt_srvr_ctrl_renderer_state_updated_text(msg.srvr_ctrl_renderer_state_updated)
    } else if t == 83 {
        opt_srvr_ctrl_add_renderer_text(msg.srvr_ctrl_add_renderer)
    } else if t == 85 {
        opt_srvr_ctrl_remove_renderer_text(msg.srvr_ctrl_remove_renderer)
    } else if t == 86 {
        opt_srvr_ctrl_active_renderer_changed_text(msg.srvr_ctrl_active_renderer_changed)
    } else if t == 87 {
        opt_srvr_ctrl_volume_changed_text(msg.srvr_ctrl_volume_changed)
    } else if t == 90 {
        opt_srvr_ctrl_queue_state_text(msg.srvr_ctrl_queue_state)
    } else if t == 96 {
        opt_srvr_ctrl_shuffle_mode_set_text(msg.srvr_ctrl_shuffle_mode_set)
    } else if t == 97 {
        opt_srvr_ctrl_loop_mode_set_text(msg.srvr_ctrl_loop_mode_set)
    } else if t == 98 {
        opt_srvr_ctrl_volume_muted_text(msg.srvr_ctrl_volume_muted)
    } else if t == 99 {
        opt_srvr_ctrl_max_audio_quality_changed_text(msg.srvr_ctrl_max_audio_quality_changed)
    } else if t == 100 {
        opt_srvr_ctrl_file_audio_quality_changed_text(msg.srvr_ctrl_file_audio_quality_changed)
    } else {
        "None"@
    }
}

// ---------------------------------------------------------------------------
// Writing texts
// ---------------------------------------------------------------------------

proof fn lemma_joined_step(items: Seq<Seq<char>>, i: int)
    requires
        0 <= i < items.len(),
    ensures
        joined(items.take(i + 1)) == (if i == 0 { items[0] } else { joined(items.take(i)) + ", "@ + items[i] }),
{
    let t = items.take(i + 1);
    assert(t.drop_last() =~= items.take(i));
    assert(t.last() == items[i]);
    if i == 0 {
        assert(t.len() == 1);
    }
}

fn digit_exec(d: u64) -> (c: char)
    requires
        d < 10,
    ensures
        c == digit_char(d as nat),
{
    if d == 0 { '0' } else if d == 1 { '1' } else if d == 2 { '2' } else if d == 3 { '3' }
    else if d == 4 { '4' } else if d == 5 { '5' } else if d == 6 { '6' } else if d == 7 { '7' }
    else if d == 8 { '8' } else { '9' }
}

/// Appends the decimal text of `n`.
pub fn write_nat(out: &mut String, n: u64)
    ensures
        final(out)@ == old(out)@ + nat_text(n as nat),
    decreases n,
{
    if n >= 10 {
        write_nat(out, n / 10);
    }
    let ghost mid = out@;
    push_char(out, digit_exec(n % 10));
    if n >= 10 {
        assert(out@ =~= old(out)@ + nat_text(n as nat));
    } else {
        assert(out@ =~= old(out)@ + nat_text(n as nat));
    }
}

/// Appends the decimal text of `n`, with `-` before a negative one.
pub fn write_int(out: &mut String, n: i32)
    ensures
        final(out)@ == old(out)@ + int_text(n as int),
{
    if n < 0 {
        push_char(out, '-');
        let m: u64 = (0i64 - (n as i64)) as u64;
        write_nat(out, m);
        assert(out@ =~= old(out)@ + int_text(n as int));
    } else {
        write_nat(out, n as u64);
    }
}

fn write_bool(out: &mut String, b: bool)
    ensures
        final(out)@ == old(out)@ + bool_text(b),
{
    if b {
        out.append("true");
    } else {
        out.append("false");
    }
}

fn write_escaped_char(out: &mut String, c: char)
    ensures
        final(out)@ == old(out)@ + escaped_char(c),
{
    if c == '"' {
        push_char(out, '\\');
        push_char(out, '"');
    } else if c == '\\' {
        push_char(out, '\\');
        push_char(out, '\\');
    } else if c == '\n' {
        push_char(out, '\\');
        push_char(out, 'n');
    } else if c == '\r' {
        push_char(out, '\\');
        push_char(out, 'r');
    } else if c == '\t' {
        push_char(out, '\\');
        push_char(out, 't');
    } else {
        push_char(out, c);
    }
    assert(out@ =~= old(out)@ + escaped_char(c));
}

/// Appends a string in quotes, with `"`, backslash, newline, carriage return and
/// tab escaped.
pub fn write_quoted(out: &mut String, s: &str)
    ensures
        final(out)@ == old(out)@ + quoted_text(s@),
{
    let cs = chars_of(s);
    push_char(out, '"');
    let ghost base = out@;
    let mut i: usize = 0;
    while i < cs.len()
        invariant
            i <= cs@.len(),
            out@ == base + escaped(cs@.take(i as int)),
        decreases cs@.len() - i,
    {
        assert(cs@.take(i + 1).drop_last() =~= cs@.take(i as int));
        write_escaped_char(out, cs[i]);
        i += 1;
    }
    assert(cs@.take(cs@.len() as int) =~= cs@);
    push_char(out, '"');
    assert(out@ =~= old(out)@ + quoted_text(s@));
}

fn write_bytes(out: &mut String, b: &Vec<u8>)
    ensures
        final(out)@ == old(out)@ + list_text(byte_texts(b@)),
{
    out.append("[");
    let ghost base = out@;
    let ghost items = byte_texts(b@);
    let mut i: usize = 0;
    while i < b.len()
        invariant
            i <= b@.len(),
            items == byte_texts(b@),
            out@ == base + joined(items.take(i as int)),
        decreases b@.len() - i,
    {
        proof { lemma_joined_step(items, i as int); }
        let ghost before = out@;
        if i > 0 {
            out.append(", ");
        }
        write_nat(out, b[i] as u64);
        assert(out@ =~= base + joined(items.take(i + 1)));
        i += 1;
    }
    assert(items.take(b@.len() as int) =~= items);
    out.append("]");
    assert(out@ =~= old(out)@ + list_text(byte_texts(b@)));
}

fn write_opt_u32(out: &mut String, o: Option<u32>)
    ensures
        final(out)@ == old(out)@ + opt_u32_text(o),
{
    match o {
        Some(v) => {
            out.append("Some(");
            write_nat(out, v as u64);
            out.append(")");
        },
        None => out.append("None"),
    }
    assert(out@ =~= old(out)@ + opt_u32_text(o));
}

fn write_opt_u64(out: &mut String, o: Option<u64>)
    ensures
        final(out)@ == old(out)@ + opt_u64_text(o),
{
    match o {
        Some(v) => {
            out.append("Some(");
            write_nat(out, v);
            out.append(")");
        },
        None => out.append("None"),
    }
    assert(out@ =~= old(out)@ + opt_u64_text(o));
}

fn write_opt_i32(out: &mut String, o: Option<i32>)
    ensures
        final(out)@ == old(out)@ + opt_i32_text(o),
{
    match o {
        Some(v) => {
            out.append("Some(");
            write_int(out, v);
            out.append(")");
        },
        None => out.append("None"),
    }
    assert(out@ =~= old(out)@ + opt_i32_text(o));
}

fn write_opt_bool(out: &mut String, o: Option<bool>)
    ensures
        final(out)@ == old(out)@ + opt_bool_text(o),
{
    match o {
        Some(v) => {
            out.append("Some(");
            write_bool(out, v);
            out.append(")");
        },
        None => out.append("None"),
    }
    assert(out@ =~= old(out)@ + opt_bool_text(o));
}

fn write_opt_string(out: &mut String, o: &Option<String>)
    ensures
        final(out)@ == old(out)@ + opt_string_text(*o),
{
    match o {
        Some(v) => {
            out.append("Some(");
            write_quoted(out, v.as_str());
            out.append(")");
        },
        None => out.append("None"),
    }
    assert(out@ =~= old(out)@ + opt_string_text(*o));
}

fn write_opt_bytes(out: &mut String, o: &Option<Vec<u8>>)
    ensures
        final(out)@ == old(out)@ + opt_bytes_text(*o),
{
    match o {
        Some(v) => {
            out.append("Some(");
            write_bytes(out, v);
            out.append(")");
        },
        None => out.append("None"),
    }
    assert(out@ =~= old(out)@ + opt_bytes_text(*o));
}

fn write_playing_state(out: &mut String, n: i32)
    ensures
        final(out)@ == old(out)@ + playing_state_name(n),
{
    if n == 0 {
        out.append("Unknown");
    } else if n == 1 {
        out.append("Stopped");
    } else if n == 2 {
        out.append("Playing");
    } else if n == 3 {
        out.append("Paused");
    } else {
        write_int(out, n);
    }
}

fn write_opt_playing_state(out: &mut String, o: Option<i32>)
    ensures
        final(out)@ == old(out)@ + opt_playing_state_text(o),
{
    match o {
        Some(v) => {
            out.append("Some(");
            write_playing_state(out, v);
            out.append(")");
        },
        None => out.append("None"),
    }
    assert(out@ =~= old(out)@ + opt_playing_state_text(o));
}

fn write_buffer_state(out: &mut String, n: i32)
    ensures
        final(out)@ == old(out)@ + buffer_state_name(n),
{
    if n == 0 {
        out.append("Unknown");
    } else if n == 1 {
        out.append("Buffering");
    } else if n == 2 {
        out.append("Ok");
    } else {
        write_int(out, n);
    }
}

fn write_opt_buffer_state(out: &mut String, o: Option<i32>)
    ensures
        final(out)@ == old(out)@ + opt_buffer_state_text(o),
{
    match o {
        Some(v) => {
            out.append("Some(");
            write_buffer_state(out, v);
            out.append(")");
        },
        None => out.append("None"),
    }
    assert(out@ =~= old(out)@ + opt_buffer_state_text(o));
}

fn write_loop_mode(out: &mut String, n: i32)
    ensures
        final(out)@ == old(out)@ + loop_mode_name(n),
{
    if n == 0 {
        out.append("Unknown");
    } else if n == 1 {
        out.append("Off");
    } else if n == 2 {
        out.append("RepeatOne");
    } else if n == 3 {
        out.append("RepeatAll");
    } else {
        write_int(out, n);
    }
}

fn write_opt_loop_mode(out: &mut String, o: Option<i32>)
    ensures
        final(out)@ == old(out)@ + opt_loop_mode_text(o),
{
    match o {
        Some(v) => {
            out.append("Some(");
            write_loop_mode(out, v);
            out.append(")");
        },
        None => out.append("None"),
    }
    assert(out@ =~= old(out)@ + opt_loop_mode_text(o));
}

fn write_device_type(out: &mut String, n: i32)
    ensures
        final(out)@ == old(out)@ + device_type_name_of(n),
{
    if n == 0 {
        out.append("Unknown");
    } else if n == 1 {
        out.append("Speaker");
    } else if n == 2 {
        out.append("Speakerbox");
    } else if n == 3 {
        out.append("Tv");
    } else if n == 4 {
        out.append("Speakerbox2");
    } else if n == 5 {
        out.append("Laptop");
    } else if n == 6 {
        out.append("Phone");
    } else if n == 7 {
        out.append("GoogleCast");
    } else if n == 8 {
        out.append("Headphones");
    } else if n == 9 {
        out.append("Tablet");
    } else {
        write_int(out, n);
    }
}

fn write_opt_device_type(out: &mut String, o: Option<i32>)
    ensures
        final(out)@ == old(out)@ + opt_device_type_text(o),
{
    match o {
        Some(v) => {
            out.append("Some(");
            write_device_type(out, v);
            out.append(")");
        },
        None => out.append("None"),
    }
    assert(out@ =~= old(out)@ + opt_device_type_text(o));
}

fn write_queue_version(out: &mut String, x: &QueueVersion)
    ensures
        final(out)@ == old(out)@ + queue_version_text(*x),
{
    out.append("QueueVersion { major: ");
    write_opt_u64(out, x.major);
    out.append(", minor: ");
    write_opt_i32(out, x.minor);
    out.append(" }");
    assert(out@ =~= old(out)@ + queue_version_text(*x));
}

fn write_opt_queue_version(out: &mut String, o: &Option<QueueVersion>)
    ensures
        final(out)@ == old(out)@ + opt_queue_version_text(*o),
{
    match o {
        Some(v) => {
            out.append("Some(");
            write_queue_version(out, v);
            out.append(")");
        },
        None => out.append("None"),
    }
    assert(out@ =~= old(out)@ + opt_queue_version_text(*o));
}

fn write_position(out: &mut String, x: &Position)
    ensures
        final(out)@ == old(out)@ + position_text(*x),
{
    out.append("Position { timestamp: ");
    write_opt_u64(out, x.timestamp);
    out.append(", value: ");
    write_opt_u32(out, x.value);
    out.append(" }");
    assert(out@ =~= old(out)@ + position_text(*x));
}

fn write_opt_position(out: &mut String, o: &Option<Position>)
    ensures
        final(out)@ == old(out)@ + opt_position_text(*o),
{
    match o {
        Some(v) => {
            out.append("Some(");
            write_position(out, v);
            out.append(")");
        },
        None => out.append("None"),
    }
    assert(out@ =~= old(out)@ + opt_position_text(*o));
}

fn write_device_capabilities(out: &mut String, x: &DeviceCapabilities)
    ensures
        final(out)@ == old(out)@ + device_capabilities_text(*x),
{
    out.append("DeviceCapabilities { min_audio_quality: ");
    write_opt_i32(out, x.min_audio_quality);
    out.append(", max_audio_quality: ");
    write_opt_i32(out, x.max_audio_quality);
    out.append(", volume_remote_control: ");
    write_opt_i32(out, x.volume_remote_control);
    out.append(" }");
    assert(out@ =~= old(out)@ + device_capabilities_text(*x));
}

fn write_opt_device_capabilities(out: &mut String, o: &Option<DeviceCapabilities>)
    ensures
        final(out)@ == old(out)@ + opt_device_capabilities_text(*o),
{
    match o {
        Some(v) => {
            out.append("Some(");
            write_device_capabilities(out, v);
            out.append(")");
        },
        None => out.append("None"),
    }
    assert(out@ =~= old(out)@ + opt_device_capabilities_text(*o));
}

#[verifier::spinoff_prover]
#[verifier::rlimit(60)]
fn write_device_info(out: &mut String, x: &DeviceInfo)
    ensures
        final(out)@ == old(out)@ + device_info_text(*x),
{
    out.append("DeviceInfo { device_uuid: ");
    write_opt_bytes(out, &x.device_uuid);
    assert(out@ =~= old(out)@ + ("DeviceInfo { device_uuid: "@ + opt_bytes_text(x.device_uuid)));
    out.append(", friendly_name: ");
    write_opt_string(out, &x.friendly_name);
    assert(out@ =~= old(out)@ + ("DeviceInfo { device_uuid: "@ + opt_bytes_text(x.device_uuid) + ", friendly_name: "@ + opt_string_text(x.friendly_name)));
    out.append(", brand: ");
    write_opt_string(out, &x.brand);
    assert(out@ =~= old(out)@ + ("DeviceInfo { device_uuid: "@ + opt_bytes_text(x.device_uuid) + ", friendly_name: "@ + opt_string_text(x.friendly_name) + ", brand: "@ + opt_string_text(x.brand)));
    out.append(", model: ");
    write_opt_string(out, &x.model);
    assert(out@ =~= old(out)@ + ("DeviceInfo { device_uuid: "@ + opt_bytes_text(x.device_uuid) + ", friendly_name: "@ + opt_string_text(x.friendly_name) + ", brand: "@ + opt_string_text(x.brand) + ", model: "@ + opt_string_text(x.model)));
    out.append(", serial_number: ");
    write_opt_string(out, &x.serial_number);
    assert(out@ =~= old(out)@ + ("DeviceInfo { device_uuid: "@ + opt_bytes_text(x.device_uuid) + ", friendly_name: "@ + opt_string_text(x.friendly_name) + ", brand: "@ + opt_string_text(x.brand) + ", model: "@ + opt_string_text(x.model) + ", serial_number: "@ + opt_string_text(x.serial_number)));
    out.append(", type: ");
    write_opt_device_type(out, x.device_type);
    assert(out@ =~= old(out)@ + ("DeviceInfo { device_uuid: "@ + opt_bytes_text(x.device_uuid) + ", friendly_name: "@ + opt_string_text(x.friendly_name) + ", brand: "@ + opt_string_text(x.brand) + ", model: "@ + opt_string_text(x.model) + ", serial_number: "@ + opt_string_text(x.serial_number) + ", type: "@ + opt_device_type_text(x.device_type)));
    out.append(", capabilities: ");
    write_opt_device_capabilities(out, &x.capabilities);
    assert(out@ =~= old(out)@ + ("DeviceInfo { device_uuid: "@ + opt_bytes_text(x.device_uuid) + ", friendly_name: "@ + opt_string_text(x.friendly_name) + ", brand: "@ + opt_string_text(x.brand) + ", model: "@ + opt_string_text(x.model) + ", serial_number: "@ + opt_string_text(x.serial_number) + ", type: "@ + opt_device_type_text(x.device_type) + ", capabilities: "@ + opt_device_capabilities_text(x.capabilities)));
    out.append(", software_version: ");
    write_opt_string(out, &x.software_version);
    assert(out@ =~= old(out)@ + ("DeviceInfo { device_uuid: "@ + opt_bytes_text(x.device_uuid) + ", friendly_name: "@ + opt_string_text(x.friendly_name) + ", brand: "@ + opt_string_text(x.brand) + ", model: "@ + opt_string_text(x.model) + ", serial_number: "@ + opt_string_text(x.serial_number) + ", type: "@ + opt_device_type_text(x.device_type) + ", capabilities: "@ + opt_device_capabilities_text(x.capabilities) + ", software_version: "@ + opt_string_text(x.software_version)));
    out.append(" }");
    assert(out@ =~= old(out)@ + device_info_text(*x));
}

fn write_opt_device_info(out: &mut String, o: &Option<DeviceInfo>)
    ensures
        final(out)@ == old(out)@ + opt_device_info_text(*o),
{
    match o {
        Some(v) => {
            out.append("Some(");
            write_device_info(out, v);
            out.append(")");
        },
        None => out.append("None"),
    }
    assert(out@ =~= old(out)@ + opt_device_info_text(*o));
}

fn write_queue_track_ref(out: &mut String, x: &QueueTrackRef)
    ensures
        final(out)@ == old(out)@ + queue_track_ref_text(*x),
{
    out.append("QueueTrackRef { track_id: ");
    write_opt_u32(out, x.track_id);
    out.append(", queue_item_id: ");
    write_opt_u64(out, x.queue_item_id);
    out.append(" }");
    assert(out@ =~= old(out)@ + queue_track_ref_text(*x));
}

fn write_opt_queue_track_ref(out: &mut String, o: &Option<QueueTrackRef>)
    ensures
        final(out)@ == old(out)@ + opt_queue_track_ref_text(*o),
{
    match o {
        Some(v) => {
            out.append("Some(");
            write_queue_track_ref(out, v);
            out.append(")");
        },
        None => out.append("None"),
    }
    assert(out@ =~= old(out)@ + opt_queue_track_ref_text(*o));
}

fn write_queue_track_ref_list(out: &mut String, v: &Vec<QueueTrackRef>)
    ensures
        final(out)@ == old(out)@ + list_text(queue_track_ref_texts(v@)),
{
    out.append("[");
    let ghost base = out@;
    let ghost items = queue_track_ref_texts(v@);
    let mut i: usize = 0;
    while i < v.len()
        invariant
            i <= v@.len(),
            items == queue_track_ref_texts(v@),
            out@ == base + joined(items.take(i as int)),
        decreases v@.len() - i,
    {
        proof { lemma_joined_step(items, i as int); }
        if i > 0 {
            out.append(", ");
        }
        write_queue_track_ref(out, &v[i]);
        assert(out@ =~= base + joined(items.take(i + 1)));
        i += 1;
    }
    assert(items.take(v@.len() as int) =~= items);
    out.append("]");
    assert(out@ =~= old(out)@ + list_text(queue_track_ref_texts(v@)));
}

#[verifier::spinoff_prover]
#[verifier::rlimit(60)]
fn write_queue_renderer_state(out: &mut String, x: &QueueRendererState)
    ensures
        final(out)@ == old(out)@ + queue_renderer_state_text(*x),
{
    out.append("QueueRendererState { playing_state: ");
    write_opt_playing_state(out, x.playing_state);
    assert(out@ =~= old(out)@ + ("QueueRendererState { playing_state: "@ + opt_playing_state_text(x.playing_state)));
    out.append(", buffer_state: ");
    write_opt_buffer_state(out, x.buffer_state);
    assert(out@ =~= old(out)@ + ("QueueRendererState { playing_state: "@ + opt_playing_state_text(x.playing_state) + ", buffer_state: "@ + opt_buffer_state_text(x.buffer_state)));
    out.append(", current_position: ");
    write_opt_position(out, &x.current_position);
    assert(out@ =~= old(out)@ + ("QueueRendererState { playing_state: "@ + opt_playing_state_text(x.playing_state) + ", buffer_state: "@ + opt_buffer_state_text(x.buffer_state) + ", current_position: "@ + opt_position_text(x.current_position)));
    out.append(", duration: ");
    write_opt_u32(out, x.duration);
    assert(out@ =~= old(out)@ + ("QueueRendererState { playing_state: "@ + opt_playing_state_text(x.playing_state) + ", buffer_state: "@ + opt_buffer_state_text(x.buffer_state) + ", current_position: "@ + opt_position_text(x.current_position) + ", duration: "@ + opt_u32_text(x.duration)));
    out.append(", queue_version: ");
    write_opt_queue_version(out, &x.queue_version);
    assert(out@ =~= old(out)@ + ("QueueRendererState { playing_state: "@ + opt_playing_state_text(x.playing_state) + ", buffer_state: "@ + opt_buffer_state_text(x.buffer_state) + ", current_position: "@ + opt_position_text(x.current_position) + ", duration: "@ + opt_u32_text(x.duration) + ", queue_version: "@ + opt_queue_version_text(x.queue_version)));
    out.append(", current_queue_item_id: ");
    write_opt_i32(out, x.current_queue_item_id);
    assert(out@ =~= old(out)@ + ("QueueRendererState { playing_state: "@ + opt_playing_state_text(x.playing_state) + ", buffer_state: "@ + opt_buffer_state_text(x.buffer_state) + ", current_position: "@ + opt_position_text(x.current_position) + ", duration: "@ + opt_u32_text(x.duration) + ", queue_version: "@ + opt_queue_version_text(x.queue_version) + ", current_queue_item_id: "@ + opt_i32_text(x.current_queue_item_id)));
    out.append(", next_queue_item_id: ");
    write_opt_i32(out, x.next_queue_item_id);
    assert(out@ =~= old(out)@ + ("QueueRendererState { playing_state: "@ + opt_playing_state_text(x.playing_state) + ", buffer_state: "@ + opt_buffer_state_text(x.buffer_state) + ", current_position: "@ + opt_position_text(x.current_position) + ", duration: "@ + opt_u32_text(x.duration) + ", queue_version: "@ + opt_queue_version_text(x.queue_version) + ", current_queue_item_id: "@ + opt_i32_text(x.current_queue_item_id) + ", next_queue_item_id: "@ + opt_i32_text(x.next_queue_item_id)));
    out.append(" }");
    assert(out@ =~= old(out)@ + queue_renderer_state_text(*x));
}

fn write_opt_queue_renderer_state(out: &mut String, o: &Option<QueueRendererState>)
    ensures
        final(out)@ == old(out)@ + opt_queue_renderer_state_text(*o),
{
    match o {
        Some(v) => {
            out.append("Some(");
            write_queue_renderer_state(out, v);
            out.append(")");
        },
        None => out.append("None"),
    }
    assert(out@ =~= old(out)@ + opt_queue_renderer_state_text(*o));
}

fn write_renderer_state(out: &mut String, x: &RendererState)
    ensures
        final(out)@ == old(out)@ + renderer_state_text(*x),
{
    out.append("RendererState { playing_state: ");
    write_opt_playing_state(out, x.playing_state);
    out.append(", current_position: ");
    write_opt_position(out, &x.current_position);
    out.append(", duration: ");
    write_opt_u32(out, x.duration);
    out.append(", current_queue_index: ");
    write_opt_u32(out, x.current_queue_index);
    out.append(" }");
    assert(out@ =~= old(out)@ + renderer_state_text(*x));
}

fn write_opt_renderer_state(out: &mut String, o: &Option<RendererState>)
    ensures
        final(out)@ == old(out)@ + opt_renderer_state_text(*o),
{
    match o {
        Some(v) => {
            out.append("Some(");
            write_renderer_state(out, v);
            out.append(")");
        },
        None => out.append("None"),
    }
    assert(out@ =~= old(out)@ + opt_renderer_state_text(*o));
}

fn write_rndr_srvr_state_updated(out: &mut String, x: &RndrSrvrStateUpdated)
    ensures
        final(out)@ == old(out)@ + rndr_srvr_state_updated_text(*x),
{
    out.append("RndrSrvrStateUpdated { state: ");
    write_opt_queue_renderer_state(out, &x.state);
    out.append(" }");
    assert(out@ =~= old(out)@ + rndr_srvr_state_updated_text(*x));
}

fn write_opt_rndr_srvr_state_updated(out: &mut String, o: &Option<RndrSrvrStateUpdated>)
    ensures
        final(out)@ == old(out)@ + opt_rndr_srvr_state_updated_text(*o),
{
    match o {
        Some(v) => {
            out.append("Some(");
            write_rndr_srvr_state_updated(out, v);
            out.append(")");
        },
        None => out.append("None"),
    }
    assert(out@ =~= old(out)@ + opt_rndr_srvr_state_updated_text(*o));
}

fn write_rndr_srvr_volume_changed(out: &mut String, x: &RndrSrvrVolumeChanged)
    ensures
        final(out)@ == old(out)@ + rndr_srvr_volume_changed_text(*x),
{
    out.append("RndrSrvrVolumeChanged { volume: ");
    write_opt_u32(out, x.volume);
    out.append(" }");
    assert(out@ =~= old(out)@ + rndr_srvr_volume_changed_text(*x));
}

fn write_opt_rndr_srvr_volume_changed(out: &mut String, o: &Option<RndrSrvrVolumeChanged>)
    ensures
        final(out)@ == old(out)@ + opt_rndr_srvr_volume_changed_text(*o),
{
    match o {
        Some(v) => {
            out.append("Some(");
            write_rndr_srvr_volume_changed(out, v);
            out.append(")");
        },
        None => out.append("None"),
    }
    assert(out@ =~= old(out)@ + opt_rndr_srvr_volume_changed_text(*o));
}

fn write_rndr_srvr_file_audio_quality_changed(out: &mut String, x: &RndrSrvrFileAudioQualityChanged)
    ensures
        final(out)@ == old(out)@ + rndr_srvr_file_audio_quality_changed_text(*x),
{
    out.append("RndrSrvrFileAudioQualityChanged { value: ");
    write_opt_i32(out, x.value);
    out.append(" }");
    assert(out@ =~= old(out)@ + rndr_srvr_file_audio_quality_changed_text(*x));
}

fn write_opt_rndr_srvr_file_audio_quality_changed(out: &mut String, o: &Option<RndrSrvrFileAudioQualityChanged>)
    ensures
        final(out)@ == old(out)@ + opt_rndr_srvr_file_audio_quality_changed_text(*o),
{
    match o {
        Some(v) => {
            out.append("Some(");
            write_rndr_srvr_file_audio_quality_changed(out, v);
            out.append(")");
        },
        None => out.append("None"),
    }
    assert(out@ =~= old(out)@ + opt_rndr_srvr_file_audio_quality_changed_text(*o));
}

fn write_rndr_srvr_max_audio_quality_changed(out: &mut String, x: &RndrSrvrMaxAudioQualityChanged)
    ensures
        final(out)@ == old(out)@ + rndr_srvr_max_audio_quality_changed_text(*x),
{
    out.append("RndrSrvrMaxAudioQualityChanged { value: ");
    write_opt_i32(out, x.value);
    out.append(" }");
    assert(out@ =~= old(out)@ + rndr_srvr_max_audio_quality_changed_text(*x));
}

fn write_opt_rndr_srvr_max_audio_quality_changed(out: &mut String, o: &Option<RndrSrvrMaxAudioQualityChanged>)
    ensures
        final(out)@ == old(out)@ + opt_rndr_srvr_max_audio_quality_changed_text(*o),
{
    match o {
        Some(v) => {
            out.append("Some(");
            write_rndr_srvr_max_audio_quality_changed(out, v);
            out.append(")");
        },
        None => out.append("None"),
    }
    assert(out@ =~= old(out)@ + opt_rndr_srvr_max_audio_quality_changed_text(*o));
}

fn write_rndr_srvr_volume_muted(out: &mut String, x: &RndrSrvrVolumeMuted)
    ensures
        final(out)@ == old(out)@ + rndr_srvr_volume_muted_text(*x),
{
    out.append("RndrSrvrVolumeMuted { value: ");
    write_opt_bool(out, x.value);
    out.append(" }");
    assert(out@ =~= old(out)@ + rndr_srvr_volume_muted_text(*x));
}

fn write_opt_rndr_srvr_volume_muted(out: &mut String, o: &Option<RndrSrvrVolumeMuted>)
    ensures
        final(out)@ == old(out)@ + opt_rndr_srvr_volume_muted_text(*o),
{
    match o {
        Some(v) => {
            out.append("Some(");
            write_rndr_srvr_volume_muted(out, v);
            out.append(")");
        },
        None => out.append("None"),
    }
    assert(out@ =~= old(out)@ + opt_rndr_srvr_volume_muted_text(*o));
}

#[verifier::spinoff_prover]
#[verifier::rlimit(60)]
fn write_srvr_rndr_set_state(out: &mut String, x: &SrvrRndrSetState)
    ensures
        final(out)@ == old(out)@ + srvr_rndr_set_state_text(*x),
{
    out.append("SrvrRndrSetState { playing_state: ");
    write_opt_playing_state(out, x.playing_state);
    assert(out@ =~= old(out)@ + ("SrvrRndrSetState { playing_state: "@ + opt_playing_state_text(x.playing_state)));
    out.append(", current_position: ");
    write_opt_u32(out, x.current_position);
    assert(out@ =~= old(out)@ + ("SrvrRndrSetState { playing_state: "@ + opt_playing_state_text(x.playing_state) + ", current_position: "@ + opt_u32_text(x.current_position)));
    out.append(", queue_version: ");
    write_opt_queue_version(out, &x.queue_version);
    assert(out@ =~= old(out)@ + ("SrvrRndrSetState { playing_state: "@ + opt_playing_state_text(x.playing_state) + ", current_position: "@ + opt_u32_text(x.current_position) + ", queue_version: "@ + opt_queue_version_text(x.queue_version)));
    out.append(", current_queue_item: ");
    write_opt_queue_track_ref(out, &x.current_queue_item);
    assert(out@ =~= old(out)@ + ("SrvrRndrSetState { playing_state: "@ + opt_playing_state_text(x.playing_state) + ", current_position: "@ + opt_u32_text(x.current_position) + ", queue_version: "@ + opt_queue_version_text(x.queue_version) + ", current_queue_item: "@ + opt_queue_track_ref_text(x.current_queue_item)));
    out.append(", next_queue_item: ");
    write_opt_queue_track_ref(out, &x.next_queue_item);
    assert(out@ =~= old(out)@ + ("SrvrRndrSetState { playing_state: "@ + opt_playing_state_text(x.playing_state) + ", current_position: "@ + opt_u32_text(x.current_position) + ", queue_version: "@ + opt_queue_version_text(x.queue_version) + ", current_queue_item: "@ + opt_queue_track_ref_text(x.current_queue_item) + ", next_queue_item: "@ + opt_queue_track_ref_text(x.next_queue_item)));
    out.append(" }");
    assert(out@ =~= old(out)@ + srvr_rndr_set_state_text(*x));
}

fn write_opt_srvr_rndr_set_state(out: &mut String, o: &Option<SrvrRndrSetState>)
    ensures
        final(out)@ == old(out)@ + opt_srvr_rndr_set_state_text(*o),
{
    match o {
        Some(v) => {
            out.append("Some(");
            write_srvr_rndr_set_state(out, v);
            out.append(")");
        },
        None => out.append("None"),
    }
    assert(out@ =~= old(out)@ + opt_srvr_rndr_set_state_text(*o));
}

fn write_srvr_rndr_set_active(out: &mut String, x: &SrvrRndrSetActive)
    ensures
        final(out)@ == old(out)@ + srvr_rndr_set_active_text(*x),
{
    out.append("SrvrRndrSetActive { active: ");
    write_opt_bool(out, x.active);
    out.append(" }");
    assert(out@ =~= old(out)@ + srvr_rndr_set_active_text(*x));
}

fn write_opt_srvr_rndr_set_active(out: &mut String, o: &Option<SrvrRndrSetActive>)
    ensures
        final(out)@ == old(out)@ + opt_srvr_rndr_set_active_text(*o),
{
    match o {
        Some(v) => {
            out.append("Some(");
            write_srvr_rndr_set_active(out, v);
            out.append(")");
        },
        None => out.append("None"),
    }
    assert(out@ =~= old(out)@ + opt_srvr_rndr_set_active_text(*o));
}

fn write_ctrl_srvr_join_session(out: &mut String, x: &CtrlSrvrJoinSession)
    ensures
        final(out)@ == old(out)@ + ctrl_srvr_join_session_text(*x),
{
    out.append("CtrlSrvrJoinSession { session_uuid: ");
    write_opt_bytes(out, &x.session_uuid);
    out.append(", device_info: ");
    write_opt_device_info(out, &x.device_info);
    out.append(" }");
    assert(out@ =~= old(out)@ + ctrl_srvr_join_session_text(*x));
}

fn write_opt_ctrl_srvr_join_session(out: &mut String, o: &Option<CtrlSrvrJoinSession>)
    ensures
        final(out)@ == old(out)@ + opt_ctrl_srvr_join_session_text(*o),
{
    match o {
        Some(v) => {
            out.append("Some(");
            write_ctrl_srvr_join_session(out, v);
            out.append(")");
        },
        None => out.append("None"),
    }
    assert(out@ =~= old(out)@ + opt_ctrl_srvr_join_session_text(*o));
}

fn write_ctrl_srvr_set_active_renderer(out: &mut String, x: &CtrlSrvrSetActiveRenderer)
    ensures
        final(out)@ == old(out)@ + ctrl_srvr_set_active_renderer_text(*x),
{
    out.append("CtrlSrvrSetActiveRenderer { renderer_id: ");
    write_opt_i32(out, x.renderer_id);
    out.append(" }");
    assert(out@ =~= old(out)@ + ctrl_srvr_set_active_renderer_text(*x));
}

fn write_opt_ctrl_srvr_set_active_renderer(out: &mut String, o: &Option<CtrlSrvrSetActiveRenderer>)
    ensures
        final(out)@ == old(out)@ + opt_ctrl_srvr_set_active_renderer_text(*o),
{
    match o {
        Some(v) => {
            out.append("Some(");
            write_ctrl_srvr_set_active_renderer(out, v);
            out.append(")");
        },
        None => out.append("None"),
    }
    assert(out@ =~= old(out)@ + opt_ctrl_srvr_set_active_renderer_text(*o));
}

fn write_ctrl_srvr_ask_for_queue_state(out: &mut String, x: &CtrlSrvrAskForQueueState)
    ensures
        final(out)@ == old(out)@ + ctrl_srvr_ask_for_queue_state_text(*x),
{
    out.append("CtrlSrvrAskForQueueState { queue_version: ");
    write_opt_queue_version(out, &x.queue_version);
    out.append(", queue_uuid: ");
    write_opt_bytes(out, &x.queue_uuid);
    out.append(" }");
    assert(out@ =~= old(out)@ + ctrl_srvr_ask_for_queue_state_text(*x));
}

fn write_opt_ctrl_srvr_ask_for_queue_state(out: &mut String, o: &Option<CtrlSrvrAskForQueueState>)
    ensures
        final(out)@ == old(out)@ + opt_ctrl_srvr_ask_for_queue_state_text(*o),
{
    match o {
        Some(v) => {
            out.append("Some(");
            write_ctrl_srvr_ask_for_queue_state(out, v);
            out.append(")");
        },
        None => out.append("None"),
    }
    assert(out@ =~= old(out)@ + opt_ctrl_srvr_ask_for_queue_state_text(*o));
}

fn write_ctrl_srvr_ask_for_renderer_state(out: &mut String, x: &CtrlSrvrAskForRendererState)
    ensures
        final(out)@ == old(out)@ + ctrl_srvr_ask_for_renderer_state_text(*x),
{
    out.append("CtrlSrvrAskForRendererState { session_id: ");
    write_opt_u64(out, x.session_id);
    out.append(" }");
    assert(out@ =~= old(out)@ + ctrl_srvr_ask_for_renderer_state_text(*x));
}

fn write_opt_ctrl_srvr_ask_for_renderer_state(out: &mut String, o: &Option<CtrlSrvrAskForRendererState>)
    ensures
        final(out)@ == old(out)@ + opt_ctrl_srvr_ask_for_renderer_state_text(*o),
{
    match o {
        Some(v) => {
            out.append("Some(");
            write_ctrl_srvr_ask_for_renderer_state(out, v);
            out.append(")");
        },
        None => out.append("None"),
    }
    assert(out@ =~= old(out)@ + opt_ctrl_srvr_ask_for_renderer_state_text(*o));
}

fn write_srvr_ctrl_session_state(out: &mut String, x: &SrvrCtrlSessionState)
    ensures
        final(out)@ == old(out)@ + srvr_ctrl_session_state_text(*x),
{
    out.append("SrvrCtrlSessionState { session_id: ");
    write_opt_u64(out, x.session_id);
    out.append(", session_uuid: ");
    write_opt_bytes(out, &x.session_uuid);
    out.append(", queue_version: ");
    write_opt_queue_version(out, &x.queue_version);
    out.append(" }");
    assert(out@ =~= old(out)@ + srvr_ctrl_session_state_text(*x));
}

fn write_opt_srvr_ctrl_session_state(out: &mut String, o: &Option<SrvrCtrlSessionState>)
    ensures
        final(out)@ == old(out)@ + opt_srvr_ctrl_session_state_text(*o),
{
    match o {
        Some(v) => {
            out.append("Some(");
            write_srvr_ctrl_session_state(out, v);
            out.append(")");
        },
        None => out.append("None"),
    }
    assert(out@ =~= old(out)@ + opt_srvr_ctrl_session_state_text(*o));
}

fn write_srvr_ctrl_renderer_state_updated(out: &mut String, x: &SrvrCtrlRendererStateUpdated)
    ensures
        final(out)@ == old(out)@ + srvr_ctrl_renderer_state_updated_text(*x),
{
    out.append("SrvrCtrlRendererStateUpdated { renderer_id: ");
    write_opt_u64(out, x.renderer_id);
    out.append(", state: ");
    write_opt_renderer_state(out, &x.state);
    out.append(" }");
    assert(out@ =~= old(out)@ + srvr_ctrl_renderer_state_updated_text(*x));
}

fn write_opt_srvr_ctrl_renderer_state_updated(out: &mut String, o: &Option<SrvrCtrlRendererStateUpdated>)
    ensures
        final(out)@ == old(out)@ + opt_srvr_ctrl_renderer_state_updated_text(*o),
{
    match o {
        Some(v) => {
            out.append("Some(");
            write_srvr_ctrl_renderer_state_updated(out, v);
            out.append(")");
        },
        None => out.append("None"),
    }
    assert(out@ =~= old(out)@ + opt_srvr_ctrl_renderer_state_updated_text(*o));
}

fn write_srvr_ctrl_add_renderer(out: &mut String, x: &SrvrCtrlAddRenderer)
    ensures
        final(out)@ == old(out)@ + srvr_ctrl_add_renderer_text(*x),
{
    out.append("SrvrCtrlAddRenderer { renderer_id: ");
    write_opt_u64(out, x.renderer_id);
    out.append(", renderer: ");
    write_opt_device_info(out, &x.renderer);
    out.append(" }");
    assert(out@ =~= old(out)@ + srvr_ctrl_add_renderer_text(*x));
}

fn write_opt_srvr_ctrl_add_renderer(out: &mut String, o: &Option<SrvrCtrlAddRenderer>)
    ensures
        final(out)@ == old(out)@ + opt_srvr_ctrl_add_renderer_text(*o),
{
    match o {
        Some(v) => {
            out.append("Some(");
            write_srvr_ctrl_add_renderer(out, v);
            out.append(")");
        },
        None => out.append("None"),
    }
    assert(out@ =~= old(out)@ + opt_srvr_ctrl_add_renderer_text(*o));
}

fn write_srvr_ctrl_remove_renderer(out: &mut String, x: &SrvrCtrlRemoveRenderer)
    ensures
        final(out)@ == old(out)@ + srvr_ctrl_remove_renderer_text(*x),
{
    out.append("SrvrCtrlRemoveRenderer { renderer_id: ");
    write_opt_u64(out, x.renderer_id);
    out.append(" }");
    assert(out@ =~= old(out)@ + srvr_ctrl_remove_renderer_text(*x));
}

fn write_opt_srvr_ctrl_remove_renderer(out: &mut String, o: &Option<SrvrCtrlRemoveRenderer>)
    ensures
        final(out)@ == old(out)@ + opt_srvr_ctrl_remove_renderer_text(*o),
{
    match o {
        Some(v) => {
            out.append("Some(");
            write_srvr_ctrl_remove_renderer(out, v);
            out.append(")");
        },
        None => out.append("None"),
    }
    assert(out@ =~= old(out)@ + opt_srvr_ctrl_remove_renderer_text(*o));
}

fn write_srvr_ctrl_active_renderer_changed(out: &mut String, x: &SrvrCtrlActiveRendererChanged)
    ensures
        final(out)@ == old(out)@ + srvr_ctrl_active_renderer_changed_text(*x),
{
    out.append("SrvrCtrlActiveRendererChanged { renderer_id: ");
    write_opt_u64(out, x.renderer_id);
    out.append(" }");
    assert(out@ =~= old(out)@ + srvr_ctrl_active_renderer_changed_text(*x));
}

fn write_opt_srvr_ctrl_active_renderer_changed(out: &mut String, o: &Option<SrvrCtrlActiveRendererChanged>)
    ensures
        final(out)@ == old(out)@ + opt_srvr_ctrl_active_renderer_changed_text(*o),
{
    match o {
        Some(v) => {
            out.append("Some(");
            write_srvr_ctrl_active_renderer_changed(out, v);
            out.append(")");
        },
        None => out.append("None"),
    }
    assert(out@ =~= old(out)@ + opt_srvr_ctrl_active_renderer_changed_text(*o));
}

fn write_srvr_ctrl_volume_changed(out: &mut String, x: &SrvrCtrlVolumeChanged)
    ensures
        final(out)@ == old(out)@ + srvr_ctrl_volume_changed_text(*x),
{
    out.append("SrvrCtrlVolumeChanged { renderer_id: ");
    write_opt_u64(out, x.renderer_id);
    out.append(", volume: ");
    write_opt_u32(out, x.volume);
    out.append(" }");
    assert(out@ =~= old(out)@ + srvr_ctrl_volume_changed_text(*x));
}

fn write_opt_srvr_ctrl_volume_changed(out: &mut String, o: &Option<SrvrCtrlVolumeChanged>)
    ensures
        final(out)@ == old(out)@ + opt_srvr_ctrl_volume_changed_text(*o),
{
    match o {
        Some(v) => {
            out.append("Some(");
            write_srvr_ctrl_volume_changed(out, v);
            out.append(")");
        },
        None => out.append("None"),
    }
    assert(out@ =~= old(out)@ + opt_srvr_ctrl_volume_changed_text(*o));
}

fn write_srvr_ctrl_queue_state(out: &mut String, x: &SrvrCtrlQueueState)
    ensures
        final(out)@ == old(out)@ + srvr_ctrl_queue_state_text(*x),
{
    out.append("SrvrCtrlQueueState { queue_version: ");
    write_opt_queue_version(out, &x.queue_version);
    out.append(", tracks: ");
    write_queue_track_ref_list(out, &x.tracks);
    out.append(" }");
    assert(out@ =~= old(out)@ + srvr_ctrl_queue_state_text(*x));
}

fn write_opt_srvr_ctrl_queue_state(out: &mut String, o: &Option<SrvrCtrlQueueState>)
    ensures
        final(out)@ == old(out)@ + opt_srvr_ctrl_queue_state_text(*o),
{
    match o {
        Some(v) => {
            out.append("Some(");
            write_srvr_ctrl_queue_state(out, v);
            out.append(")");
        },
        None => out.append("None"),
    }
    assert(out@ =~= old(out)@ + opt_srvr_ctrl_queue_state_text(*o));
}

fn write_srvr_ctrl_shuffle_mode_set(out: &mut String, x: &SrvrCtrlShuffleModeSet)
    ensures
        final(out)@ == old(out)@ + srvr_ctrl_shuffle_mode_set_text(*x),
{
    out.append("SrvrCtrlShuffleModeSet { shuffle_on: ");
    write_opt_bool(out, x.shuffle_on);
    out.append(" }");
    assert(out@ =~= old(out)@ + srvr_ctrl_shuffle_mode_set_text(*x));
}

fn write_opt_srvr_ctrl_shuffle_mode_set(out: &mut String, o: &Option<SrvrCtrlShuffleModeSet>)
    ensures
        final(out)@ == old(out)@ + opt_srvr_ctrl_shuffle_mode_set_text(*o),
{
    match o {
        Some(v) => {
            out.append("Some(");
            write_srvr_ctrl_shuffle_mode_set(out, v);
            out.append(")");
        },
        None => out.append("None"),
    }
    assert(out@ =~= old(out)@ + opt_srvr_ctrl_shuffle_mode_set_text(*o));
}

fn write_srvr_ctrl_loop_mode_set(out: &mut String, x: &SrvrCtrlLoopModeSet)
    ensures
        final(out)@ == old(out)@ + srvr_ctrl_loop_mode_set_text(*x),
{
    out.append("SrvrCtrlLoopModeSet { mode: ");
    write_opt_loop_mode(out, x.mode);
    out.append(" }");
    assert(out@ =~= old(out)@ + srvr_ctrl_loop_mode_set_text(*x));
}

fn write_opt_srvr_ctrl_loop_mode_set(out: &mut String, o: &Option<SrvrCtrlLoopModeSet>)
    ensures
        final(out)@ == old(out)@ + opt_srvr_ctrl_loop_mode_set_text(*o),
{
    match o {
        Some(v) => {
            out.append("Some(");
            write_srvr_ctrl_loop_mode_set(out, v);
            out.append(")");
        },
        None => out.append("None"),
    }
    assert(out@ =~= old(out)@ + opt_srvr_ctrl_loop_mode_set_text(*o));
}

fn write_srvr_ctrl_volume_muted(out: &mut String, x: &SrvrCtrlVolumeMuted)
    ensures
        final(out)@ == old(out)@ + srvr_ctrl_volume_muted_text(*x),
{
    out.append("SrvrCtrlVolumeMuted { renderer_id: ");
    write_opt_u64(out, x.renderer_id);
    out.append(", value: ");
    write_opt_bool(out, x.value);
    out.append(" }");
    assert(out@ =~= old(out)@ + srvr_ctrl_volume_muted_text(*x));
}

fn write_opt_srvr_ctrl_volume_muted(out: &mut String, o: &Option<SrvrCtrlVolumeMuted>)
    ensures
        final(out)@ == old(out)@ + opt_srvr_ctrl_volume_muted_text(*o),
{
    match o {
        Some(v) => {
            out.append("Some(");
            write_srvr_ctrl_volume_muted(out, v);
            out.append(")");
        },
        None => out.append("None"),
    }
    assert(out@ =~= old(out)@ + opt_srvr_ctrl_volume_muted_text(*o));
}

fn write_srvr_ctrl_max_audio_quality_changed(out: &mut String, x: &SrvrCtrlMaxAudioQualityChanged)
    ensures
        final(out)@ == old(out)@ + srvr_ctrl_max_audio_quality_changed_text(*x),
{
    out.append("SrvrCtrlMaxAudioQualityChanged { max_audio_quality: ");
    write_opt_i32(out, x.max_audio_quality);
    out.append(" }");
    assert(out@ =~= old(out)@ + srvr_ctrl_max_audio_quality_changed_text(*x));
}

fn write_opt_srvr_ctrl_max_audio_quality_changed(out: &mut String, o: &Option<SrvrCtrlMaxAudioQualityChanged>)
    ensures
        final(out)@ == old(out)@ + opt_srvr_ctrl_max_audio_quality_changed_text(*o),
{
    match o {
        Some(v) => {
            out.append("Some(");
            write_srvr_ctrl_max_audio_quality_changed(out, v);
            out.append(")");
        },
        None => out.append("None"),
    }
    assert(out@ =~= old(out)@ + opt_srvr_ctrl_max_audio_quality_changed_text(*o));
}

fn write_srvr_ctrl_file_audio_quality_changed(out: &mut String, x: &SrvrCtrlFileAudioQualityChanged)
    ensures
        final(out)@ == old(out)@ + srvr_ctrl_file_audio_quality_changed_text(*x),
{
    out.append("SrvrCtrlFileAudioQualityChanged { file_audio_quality: ");
    write_opt_i32(out, x.file_audio_quality);
    out.append(" }");
    assert(out@ =~= old(out)@ + srvr_ctrl_file_audio_quality_changed_text(*x));
}

fn write_opt_srvr_ctrl_file_audio_quality_changed(out: &mut String, o: &Option<SrvrCtrlFileAudioQualityChanged>)
    ensures
        final(out)@ == old(out)@ + opt_srvr_ctrl_file_audio_quality_changed_text(*o),
{
    match o {
        Some(v) => {
            out.append("Some(");
            write_srvr_ctrl_file_audio_quality_changed(out, v);
            out.append(")");
        },
        None => out.append("None"),
    }
    assert(out@ =~= old(out)@ + opt_srvr_ctrl_file_audio_quality_changed_text(*o));
}

/// Writes the text that shows a message (see `message_text`).
pub(crate) fn write_message(msg: &QConnectMessage) -> (s: String)
    ensures
        s@ == message_text(*msg),
{
    let t = match msg.message_type {
        Some(t) => t,
        None => 0,
    };
    let mut s = String::new();
    if t == 23 {
        write_opt_rndr_srvr_state_updated(&mut s, &msg.rndr_srvr_state_updated);
    } else if t == 25 {
        write_opt_rndr_srvr_volume_changed(&mut s, &msg.rndr_srvr_volume_changed);
    } else if t == 26 {
        write_opt_rndr_srvr_file_audio_quality_changed(&mut s, &msg.rndr_srvr_file_audio_quality_changed);
    } else if t == 28 {
        write_opt_rndr_srvr_max_audio_quality_changed(&mut s, &msg.rndr_srvr_max_audio_quality_changed);
    } else if t == 29 {
        write_opt_rndr_srvr_volume_muted(&mut s, &msg.rndr_srvr_volume_muted);
    } else if t == 41 {
        write_opt_srvr_rndr_set_state(&mut s, &msg.srvr_rndr_set_state);
    } else if t == 43 {
        write_opt_srvr_rndr_set_active(&mut s, &msg.srvr_rndr_set_active);
    } else if t == 61 {
        write_opt_ctrl_srvr_join_session(&mut s, &msg.ctrl_srvr_join_session);
    } else if t == 63 {
        write_opt_ctrl_srvr_set_active_renderer(&mut s, &msg.ctrl_srvr_set_active_renderer);
    } else if t == 76 {
        write_opt_ctrl_srvr_ask_for_queue_state(&mut s, &msg.ctrl_srvr_ask_for_queue_state);
    } else if t == 77 {
        write_opt_ctrl_srvr_ask_for_renderer_state(&mut s, &msg.ctrl_srvr_ask_for_renderer_state);
    } else if t == 81 {
        write_opt_srvr_ctrl_session_state(&mut s, &msg.srvr_ctrl_session_state);
    } else if t == 82 {
        write_opt_srvr_ctrl_renderer_state_updated(&mut s, &msg.srvr_ctrl_renderer_state_updated);
    } else if t == 83 {
        write_opt_srvr_ctrl_add_renderer(&mut s, &msg.srvr_ctrl_add_renderer);
    } else if t == 85 {
        write_opt_srvr_ctrl_remove_renderer(&mut s, &msg.srvr_ctrl_remove_renderer);
    } else if t == 86 {
        write_opt_srvr_ctrl_active_renderer_changed(&mut s, &msg.srvr_ctrl_active_renderer_changed);
    } else if t == 87 {
        write_opt_srvr_ctrl_volume_changed(&mut s, &msg.srvr_ctrl_volume_changed);
    } else if t == 90 {
        write_opt_srvr_ctrl_queue_state(&mut s, &msg.srvr_ctrl_queue_state);
    } else if t == 96 {
        write_opt_srvr_ctrl_shuffle_mode_set(&mut s, &msg.srvr_ctrl_shuffle_mode_set);
    } else if t == 97 {
        write_opt_srvr_ctrl_loop_mode_set(&mut s, &msg.srvr_ctrl_loop_mode_set);
    } else if t == 98 {
        write_opt_srvr_ctrl_volume_muted(&mut s, &msg.srvr_ctrl_volume_muted);
    } else if t == 99 {
        write_opt_srvr_ctrl_max_audio_quality_changed(&mut s, &msg.srvr_ctrl_max_audio_quality_changed);
    } else if t == 100 {
        write_opt_srvr_ctrl_file_audio_quality_changed(&mut s, &msg.srvr_ctrl_file_audio_quality_changed);
    } else {
        s.append("None");
    }
    assert(s@ =~= message_text(*msg));
    s
}

} // verus!
