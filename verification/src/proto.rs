//! The QConnect protocol messages that this library reads and writes, held
//! as plain values. Turning them into protobuf bytes and back is left to the
//! code around the library.

use vstd::prelude::*;

verus! {

// Message type numbers of the QConnect messages this library handles.
/// Renderer reports its playback state.
pub const MT_RNDR_SRVR_STATE_UPDATED: i32 = 23;
/// Renderer reports its volume.
pub const MT_RNDR_SRVR_VOLUME_CHANGED: i32 = 25;
/// Renderer reports the sample rate of the current file.
pub const MT_RNDR_SRVR_FILE_AUDIO_QUALITY_CHANGED: i32 = 26;
/// Renderer reports its maximum audio quality.
pub const MT_RNDR_SRVR_MAX_AUDIO_QUALITY_CHANGED: i32 = 28;
/// Renderer reports its mute state.
pub const MT_RNDR_SRVR_VOLUME_MUTED: i32 = 29;
/// Server commands a playback state.
pub const MT_SRVR_RNDR_SET_STATE: i32 = 41;
/// Server activates or deactivates a renderer.
pub const MT_SRVR_RNDR_SET_ACTIVE: i32 = 43;
/// Device joins a session.
pub const MT_CTRL_SRVR_JOIN_SESSION: i32 = 61;
/// Controller declares the active renderer.
pub const MT_CTRL_SRVR_SET_ACTIVE_RENDERER: i32 = 63;
/// Controller asks for the queue state.
pub const MT_CTRL_SRVR_ASK_FOR_QUEUE_STATE: i32 = 76;
/// Controller asks for the renderer state.
pub const MT_CTRL_SRVR_ASK_FOR_RENDERER_STATE: i32 = 77;
/// Session information.
pub const MT_SRVR_CTRL_SESSION_STATE: i32 = 81;
/// Broadcast of a renderer's state.
pub const MT_SRVR_CTRL_RENDERER_STATE_UPDATED: i32 = 82;
/// A renderer joined the session.
pub const MT_SRVR_CTRL_ADD_RENDERER: i32 = 83;
/// A renderer left the session.
pub const MT_SRVR_CTRL_REMOVE_RENDERER: i32 = 85;
/// The active renderer changed.
pub const MT_SRVR_CTRL_ACTIVE_RENDERER_CHANGED: i32 = 86;
/// Broadcast of a volume change.
pub const MT_SRVR_CTRL_VOLUME_CHANGED: i32 = 87;
/// Full queue snapshot.
pub const MT_SRVR_CTRL_QUEUE_STATE: i32 = 90;
/// Shuffle mode changed.
pub const MT_SRVR_CTRL_SHUFFLE_MODE_SET: i32 = 96;
/// Loop mode changed.
pub const MT_SRVR_CTRL_LOOP_MODE_SET: i32 = 97;
/// Broadcast of a mute change.
pub const MT_SRVR_CTRL_VOLUME_MUTED: i32 = 98;
/// Broadcast of a maximum audio quality change.
pub const MT_SRVR_CTRL_MAX_AUDIO_QUALITY_CHANGED: i32 = 99;
/// Broadcast of a file audio quality change.
pub const MT_SRVR_CTRL_FILE_AUDIO_QUALITY_CHANGED: i32 = 100;

/// Playback state of a renderer.
#[derive(Debug, Clone, Copy, PartialEq, Eq, Structural, Hash)]
pub enum PlayingState {
    Unknown,
    Stopped,
    Playing,
    Paused,
}

impl PlayingState {
    /// The wire number of this state.
    pub open spec fn spec_number(self) -> i32 {
        match self {
            PlayingState::Unknown => 0,
            PlayingState::Stopped => 1,
            PlayingState::Playing => 2,
            PlayingState::Paused => 3,
        }
    }

    /// The wire number of this state.
    pub fn number(self) -> (n: i32)
        ensures
            n == self.spec_number(),
    {
        match self {
            PlayingState::Unknown => 0,
            PlayingState::Stopped => 1,
            PlayingState::Playing => 2,
            PlayingState::Paused => 3,
        }
    }

    /// The state with wire number `n`, if there is one.
    pub open spec fn spec_from_number(n: i32) -> Option<PlayingState> {
        if n == 0 {
            Some(PlayingState::Unknown)
        } else if n == 1 {
            Some(PlayingState::Stopped)
        } else if n == 2 {
            Some(PlayingState::Playing)
        } else if n == 3 {
            Some(PlayingState::Paused)
        } else {
            None
        }
    }

    /// The state with wire number `n`, if there is one.
    pub fn from_number(n: i32) -> (s: Option<PlayingState>)
        ensures
            s == PlayingState::spec_from_number(n),
            s matches Some(st) ==> st.spec_number() == n,
            s is None <==> !(0 <= n <= 3),
    {
        if n == 0 {
            Some(PlayingState::Unknown)
        } else if n == 1 {
            Some(PlayingState::Stopped)
        } else if n == 2 {
            Some(PlayingState::Playing)
        } else if n == 3 {
            Some(PlayingState::Paused)
        } else {
            None
        }
    }
}

/// Buffering state of a renderer.
#[derive(Debug, Clone, Copy, PartialEq, Eq, Structural, Hash)]
pub enum BufferState {
    Unknown,
    Buffering,
    Ready,
}

impl BufferState {
    /// The wire number of this state.
    pub open spec fn spec_number(self) -> i32 {
        match self {
            BufferState::Unknown => 0,
            BufferState::Buffering => 1,
            BufferState::Ready => 2,
        }
    }

    /// The wire number of this state.
    pub fn number(self) -> (n: i32)
        ensures
            n == self.spec_number(),
    {
        match self {
            BufferState::Unknown => 0,
            BufferState::Buffering => 1,
            BufferState::Ready => 2,
        }
    }
}

/// Loop mode of the queue.
#[derive(Debug, Clone, Copy, PartialEq, Eq, Structural, Hash)]
pub enum LoopMode {
    Unknown,
    Off,
    RepeatOne,
    RepeatAll,
}

impl LoopMode {
    /// The wire number of this mode.
    pub open spec fn spec_number(self) -> i32 {
        match self {
            LoopMode::Unknown => 0,
            LoopMode::Off => 1,
            LoopMode::RepeatOne => 2,
            LoopMode::RepeatAll => 3,
        }
    }

    /// The mode with wire number `n`, if there is one.
    pub open spec fn spec_from_number(n: i32) -> Option<LoopMode> {
        if n == 0 {
            Some(LoopMode::Unknown)
        } else if n == 1 {
            Some(LoopMode::Off)
        } else if n == 2 {
            Some(LoopMode::RepeatOne)
        } else if n == 3 {
            Some(LoopMode::RepeatAll)
        } else {
            None
        }
    }

    /// The mode with wire number `n`, if there is one.
    pub fn from_number(n: i32) -> (m: Option<LoopMode>)
        ensures
            m == LoopMode::spec_from_number(n),
            m matches Some(mode) ==> mode.spec_number() == n,
            m is None <==> !(0 <= n <= 3),
    {
        if n == 0 {
            Some(LoopMode::Unknown)
        } else if n == 1 {
            Some(LoopMode::Off)
        } else if n == 2 {
            Some(LoopMode::RepeatOne)
        } else if n == 3 {
            Some(LoopMode::RepeatAll)
        } else {
            None
        }
    }
}

/// Kind of a Qobuz Connect device.
#[derive(Debug, Clone, Copy, PartialEq, Eq, Structural, Hash)]
pub enum DeviceType {
    Unknown,
    Speaker,
    Speakerbox,
    Tv,
    Speakerbox2,
    Laptop,
    Phone,
    GoogleCast,
    Headphones,
    Tablet,
}

impl DeviceType {
    /// The wire number of this device type.
    pub open spec fn spec_number(self) -> i32 {
        match self {
            DeviceType::Unknown => 0,
            DeviceType::Speaker => 1,
            DeviceType::Speakerbox => 2,
            DeviceType::Tv => 3,
            DeviceType::Speakerbox2 => 4,
            DeviceType::Laptop => 5,
            DeviceType::Phone => 6,
            DeviceType::GoogleCast => 7,
            DeviceType::Headphones => 8,
            DeviceType::Tablet => 9,
        }
    }

    /// The wire number of this device type.
    pub fn number(self) -> (n: i32)
        ensures
            n == self.spec_number(),
    {
        match self {
            DeviceType::Unknown => 0,
            DeviceType::Speaker => 1,
            DeviceType::Speakerbox => 2,
            DeviceType::Tv => 3,
            DeviceType::Speakerbox2 => 4,
            DeviceType::Laptop => 5,
            DeviceType::Phone => 6,
            DeviceType::GoogleCast => 7,
            DeviceType::Headphones => 8,
            DeviceType::Tablet => 9,
        }
    }
}

/// Envelope message authenticating the connection.
#[derive(Debug, Clone, PartialEq)]
pub struct Authenticate {
    pub msg_id: Option<u32>,
    pub msg_date: Option<u64>,
    pub jwt: Option<String>,
}

/// Envelope message subscribing to channels.
#[derive(Debug, Clone, PartialEq)]
pub struct Subscribe {
    pub msg_id: Option<u32>,
    pub msg_date: Option<u64>,
    pub proto: Option<i32>,
    pub channels: Vec<Vec<u8>>,
}

/// Envelope message carrying an encoded QConnect batch.
#[derive(Debug, Clone, PartialEq)]
pub struct Payload {
    pub msg_id: Option<u32>,
    pub msg_date: Option<u64>,
    pub proto: Option<i32>,
    pub src: Option<Vec<u8>>,
    pub dests: Vec<Vec<u8>>,
    pub payload: Option<Vec<u8>>,
}

/// A batch of QConnect messages.
#[derive(Debug, Clone, PartialEq)]
pub struct QConnectBatch {
    pub messages_time: Option<u64>,
    pub messages_id: Option<i32>,
    pub messages: Vec<QConnectMessage>,
}

/// Queue version (major, minor).
#[derive(Debug, Clone, Copy, PartialEq, Eq, Structural)]
pub struct QueueVersion {
    pub major: Option<u64>,
    pub minor: Option<i32>,
}

/// Playback position at a point in time.
#[derive(Debug, Clone, Copy, PartialEq, Eq, Structural)]
pub struct Position {
    pub timestamp: Option<u64>,
    pub value: Option<u32>,
}

/// Capabilities advertised by a device.
#[derive(Debug, Clone, Copy, PartialEq, Eq, Structural)]
pub struct DeviceCapabilities {
    pub min_audio_quality: Option<i32>,
    pub max_audio_quality: Option<i32>,
    pub volume_remote_control: Option<i32>,
}

/// Description of a device.
#[derive(Debug, Clone, PartialEq)]
pub struct DeviceInfo {
    pub device_uuid: Option<Vec<u8>>,
    pub friendly_name: Option<String>,
    pub brand: Option<String>,
    pub model: Option<String>,
    pub serial_number: Option<String>,
    pub device_type: Option<i32>,
    pub capabilities: Option<DeviceCapabilities>,
    pub software_version: Option<String>,
}

/// A reference to a track in the queue.
#[derive(Debug, Clone, Copy, PartialEq, Eq, Structural)]
pub struct QueueTrackRef {
    pub track_id: Option<u32>,
    pub queue_item_id: Option<u64>,
}

/// Playback state reported by a renderer.
#[derive(Debug, Clone, Copy, PartialEq, Eq, Structural)]
pub struct QueueRendererState {
    pub playing_state: Option<i32>,
    pub buffer_state: Option<i32>,
    pub current_position: Option<Position>,
    pub duration: Option<u32>,
    pub queue_version: Option<QueueVersion>,
    pub current_queue_item_id: Option<i32>,
    pub next_queue_item_id: Option<i32>,
}

/// Playback state of a renderer as broadcast by the server.
#[derive(Debug, Clone, Copy, PartialEq, Eq, Structural)]
pub struct RendererState {
    pub playing_state: Option<i32>,
    pub current_position: Option<Position>,
    pub duration: Option<u32>,
    pub current_queue_index: Option<u32>,
}

/// Renderer: playback state report.
#[derive(Debug, Clone, Copy, PartialEq, Eq, Structural)]
pub struct RndrSrvrStateUpdated {
    pub state: Option<QueueRendererState>,
}

/// Renderer: volume report.
#[derive(Debug, Clone, Copy, PartialEq, Eq, Structural)]
pub struct RndrSrvrVolumeChanged {
    pub volume: Option<u32>,
}

/// Renderer: file audio quality report (sample rate in Hz).
#[derive(Debug, Clone, Copy, PartialEq, Eq, Structural)]
pub struct RndrSrvrFileAudioQualityChanged {
    pub value: Option<i32>,
}

/// Renderer: maximum audio quality report (capability level).
#[derive(Debug, Clone, Copy, PartialEq, Eq, Structural)]
pub struct RndrSrvrMaxAudioQualityChanged {
    pub value: Option<i32>,
}

/// Renderer: mute report; absent value means not muted.
#[derive(Debug, Clone, Copy, PartialEq, Eq, Structural)]
pub struct RndrSrvrVolumeMuted {
    pub value: Option<bool>,
}

/// Server: playback state command.
#[derive(Debug, Clone, Copy, PartialEq, Eq, Structural)]
pub struct SrvrRndrSetState {
    pub playing_state: Option<i32>,
    pub current_position: Option<u32>,
    pub queue_version: Option<QueueVersion>,
    pub current_queue_item: Option<QueueTrackRef>,
    pub next_queue_item: Option<QueueTrackRef>,
}

/// Server: activation command.
#[derive(Debug, Clone, Copy, PartialEq, Eq, Structural)]
pub struct SrvrRndrSetActive {
    pub active: Option<bool>,
}

/// Device: join session request.
#[derive(Debug, Clone, PartialEq)]
pub struct CtrlSrvrJoinSession {
    pub session_uuid: Option<Vec<u8>>,
    pub device_info: Option<DeviceInfo>,
}

/// Controller: declare the active renderer.
#[derive(Debug, Clone, Copy, PartialEq, Eq, Structural)]
pub struct CtrlSrvrSetActiveRenderer {
    pub renderer_id: Option<i32>,
}

/// Controller: ask for the queue state.
#[derive(Debug, Clone, PartialEq)]
pub struct CtrlSrvrAskForQueueState {
    pub queue_version: Option<QueueVersion>,
    pub queue_uuid: Option<Vec<u8>>,
}

/// Controller: ask for the renderer state.
#[derive(Debug, Clone, Copy, PartialEq, Eq, Structural)]
pub struct CtrlSrvrAskForRendererState {
    pub session_id: Option<u64>,
}

/// Server: session information.
#[derive(Debug, Clone, PartialEq)]
pub struct SrvrCtrlSessionState {
    pub session_id: Option<u64>,
    pub session_uuid: Option<Vec<u8>>,
    pub queue_version: Option<QueueVersion>,
}

/// Server: renderer state broadcast.
#[derive(Debug, Clone, Copy, PartialEq, Eq, Structural)]
pub struct SrvrCtrlRendererStateUpdated {
    pub renderer_id: Option<u64>,
    pub state: Option<RendererState>,
}

/// Server: a renderer joined.
#[derive(Debug, Clone, PartialEq)]
pub struct SrvrCtrlAddRenderer {
    pub renderer_id: Option<u64>,
    pub renderer: Option<DeviceInfo>,
}

/// Server: a renderer left.
#[derive(Debug, Clone, Copy, PartialEq, Eq, Structural)]
pub struct SrvrCtrlRemoveRenderer {
    pub renderer_id: Option<u64>,
}

/// Server: the active renderer changed.
#[derive(Debug, Clone, Copy, PartialEq, Eq, Structural)]
pub struct SrvrCtrlActiveRendererChanged {
    pub renderer_id: Option<u64>,
}

/// Server: volume broadcast.
#[derive(Debug, Clone, Copy, PartialEq, Eq, Structural)]
pub struct SrvrCtrlVolumeChanged {
    pub renderer_id: Option<u64>,
    pub volume: Option<u32>,
}

/// Server: queue snapshot.
#[derive(Debug, Clone, PartialEq)]
pub struct SrvrCtrlQueueState {
    pub queue_version: Option<QueueVersion>,
    pub tracks: Vec<QueueTrackRef>,
}

/// Server: shuffle mode broadcast.
#[derive(Debug, Clone, Copy, PartialEq, Eq, Structural)]
pub struct SrvrCtrlShuffleModeSet {
    pub shuffle_on: Option<bool>,
}

/// Server: loop mode broadcast.
#[derive(Debug, Clone, Copy, PartialEq, Eq, Structural)]
pub struct SrvrCtrlLoopModeSet {
    pub mode: Option<i32>,
}

/// Server: mute broadcast.
#[derive(Debug, Clone, Copy, PartialEq, Eq, Structural)]
pub struct SrvrCtrlVolumeMuted {
    pub renderer_id: Option<u64>,
    pub value: Option<bool>,
}

/// Server: maximum audio quality broadcast.
#[derive(Debug, Clone, Copy, PartialEq, Eq, Structural)]
pub struct SrvrCtrlMaxAudioQualityChanged {
    pub max_audio_quality: Option<i32>,
}

/// Server: file audio quality broadcast.
#[derive(Debug, Clone, Copy, PartialEq, Eq, Structural)]
pub struct SrvrCtrlFileAudioQualityChanged {
    pub file_audio_quality: Option<i32>,
}

/// A QConnect message: its type and the body that goes with that type.
#[derive(Debug, Clone, PartialEq)]
pub struct QConnectMessage {
    pub message_type: Option<i32>,
    pub rndr_srvr_state_updated: Option<RndrSrvrStateUpdated>,
    pub rndr_srvr_volume_changed: Option<RndrSrvrVolumeChanged>,
    pub rndr_srvr_file_audio_quality_changed: Option<RndrSrvrFileAudioQualityChanged>,
    pub rndr_srvr_max_audio_quality_changed: Option<RndrSrvrMaxAudioQualityChanged>,
    pub rndr_srvr_volume_muted: Option<RndrSrvrVolumeMuted>,
    pub srvr_rndr_set_state: Option<SrvrRndrSetState>,
    pub srvr_rndr_set_active: Option<SrvrRndrSetActive>,
    pub ctrl_srvr_join_session: Option<CtrlSrvrJoinSession>,
    pub ctrl_srvr_set_active_renderer: Option<CtrlSrvrSetActiveRenderer>,
    pub ctrl_srvr_ask_for_queue_state: Option<CtrlSrvrAskForQueueState>,
    pub ctrl_srvr_ask_for_renderer_state: Option<CtrlSrvrAskForRendererState>,
    pub srvr_ctrl_session_state: Option<SrvrCtrlSessionState>,
    pub srvr_ctrl_renderer_state_updated: Option<SrvrCtrlRendererStateUpdated>,
    pub srvr_ctrl_add_renderer: Option<SrvrCtrlAddRenderer>,
    pub srvr_ctrl_remove_renderer: Option<SrvrCtrlRemoveRenderer>,
    pub srvr_ctrl_active_renderer_changed: Option<SrvrCtrlActiveRendererChanged>,
    pub srvr_ctrl_volume_changed: Option<SrvrCtrlVolumeChanged>,
    pub srvr_ctrl_queue_state: Option<SrvrCtrlQueueState>,
    pub srvr_ctrl_shuffle_mode_set: Option<SrvrCtrlShuffleModeSet>,
    pub srvr_ctrl_loop_mode_set: Option<SrvrCtrlLoopModeSet>,
    pub srvr_ctrl_volume_muted: Option<SrvrCtrlVolumeMuted>,
    pub srvr_ctrl_max_audio_quality_changed: Option<SrvrCtrlMaxAudioQualityChanged>,
    pub srvr_ctrl_file_audio_quality_changed: Option<SrvrCtrlFileAudioQualityChanged>,
}

/// The value held by `o`, or `d` where it holds none.
pub open spec fn or_else<T>(o: Option<T>, d: T) -> T {
    match o {
        Some(v) => v,
        None => d,
    }
}

/// A message of the given type with no body.
pub open spec fn spec_blank_message(message_type: Option<i32>) -> QConnectMessage {
    QConnectMessage {
        message_type,
        rndr_srvr_state_updated: None,
        rndr_srvr_volume_changed: None,
        rndr_srvr_file_audio_quality_changed: None,
        rndr_srvr_max_audio_quality_changed: None,
        rndr_srvr_volume_muted: None,
        srvr_rndr_set_state: None,
        srvr_rndr_set_active: None,
        ctrl_srvr_join_session: None,
        ctrl_srvr_set_active_renderer: None,
        ctrl_srvr_ask_for_queue_state: None,
        ctrl_srvr_ask_for_renderer_state: None,
        srvr_ctrl_session_state: None,
        srvr_ctrl_renderer_state_updated: None,
        srvr_ctrl_add_renderer: None,
        srvr_ctrl_remove_renderer: None,
        srvr_ctrl_active_renderer_changed: None,
        srvr_ctrl_volume_changed: None,
        srvr_ctrl_queue_state: None,
        srvr_ctrl_shuffle_mode_set: None,
        srvr_ctrl_loop_mode_set: None,
        srvr_ctrl_volume_muted: None,
        srvr_ctrl_max_audio_quality_changed: None,
        srvr_ctrl_file_audio_quality_changed: None,
    }
}

impl QConnectMessage {
    /// A message of the given type with no body.
    pub fn blank(message_type: Option<i32>) -> (m: QConnectMessage)
        ensures
            m == spec_blank_message(message_type),
    {
        QConnectMessage {
            message_type,
            rndr_srvr_state_updated: None,
            rndr_srvr_volume_changed: None,
            rndr_srvr_file_audio_quality_changed: None,
            rndr_srvr_max_audio_quality_changed: None,
            rndr_srvr_volume_muted: None,
            srvr_rndr_set_state: None,
            srvr_rndr_set_active: None,
            ctrl_srvr_join_session: None,
            ctrl_srvr_set_active_renderer: None,
            ctrl_srvr_ask_for_queue_state: None,
            ctrl_srvr_ask_for_renderer_state: None,
            srvr_ctrl_session_state: None,
            srvr_ctrl_renderer_state_updated: None,
            srvr_ctrl_add_renderer: None,
            srvr_ctrl_remove_renderer: None,
            srvr_ctrl_active_renderer_changed: None,
            srvr_ctrl_volume_changed: None,
            srvr_ctrl_queue_state: None,
            srvr_ctrl_shuffle_mode_set: None,
            srvr_ctrl_loop_mode_set: None,
            srvr_ctrl_volume_muted: None,
            srvr_ctrl_max_audio_quality_changed: None,
            srvr_ctrl_file_audio_quality_changed: None,
        }
    }
}

} // verus!
