//! The decisions of a QConnect session: how the renderer reacts to each
//! message from the server, what it reports back, and when it sends a
//! heartbeat. The code around the library performs the effects.

use vstd::prelude::*;
use crate::proto::{
    BufferState, LoopMode, PlayingState, Position, QConnectMessage, QueueRendererState,
    QueueTrackRef, RndrSrvrFileAudioQualityChanged, RndrSrvrMaxAudioQualityChanged,
    RndrSrvrStateUpdated, RndrSrvrVolumeChanged, RndrSrvrVolumeMuted, spec_blank_message,
    MT_RNDR_SRVR_FILE_AUDIO_QUALITY_CHANGED, MT_RNDR_SRVR_MAX_AUDIO_QUALITY_CHANGED,
    MT_RNDR_SRVR_STATE_UPDATED, MT_RNDR_SRVR_VOLUME_CHANGED, MT_RNDR_SRVR_VOLUME_MUTED,
    MT_SRVR_CTRL_ACTIVE_RENDERER_CHANGED, MT_SRVR_CTRL_ADD_RENDERER,
    MT_SRVR_CTRL_FILE_AUDIO_QUALITY_CHANGED, MT_SRVR_CTRL_LOOP_MODE_SET,
    MT_SRVR_CTRL_MAX_AUDIO_QUALITY_CHANGED, MT_SRVR_CTRL_QUEUE_STATE,
    MT_SRVR_CTRL_REMOVE_RENDERER, MT_SRVR_CTRL_RENDERER_STATE_UPDATED,
    MT_SRVR_CTRL_SESSION_STATE, MT_SRVR_CTRL_SHUFFLE_MODE_SET, MT_SRVR_CTRL_VOLUME_CHANGED,
    MT_SRVR_CTRL_VOLUME_MUTED, MT_SRVR_RNDR_SET_ACTIVE, MT_SRVR_RNDR_SET_STATE,
};
use crate::proto::{or_else, DeviceInfo};
use crate::transport::{
    ask_for_queue_state_message, ask_for_renderer_state_message, is_queue_state_request_message,
    set_active_renderer_message, spec_ask_for_renderer_state, spec_queue_version,
    spec_set_active_renderer,
};
use crate::wire::copy_range;

verus! {

broadcast use vstd::array::group_array_axioms;

/// Playback state reported to the server after a command or a heartbeat.
#[derive(Debug, Clone, Copy, PartialEq, Eq, Structural)]
pub struct PlaybackResponse {
    /// Current playback state.
    pub state: PlayingState,
    /// Buffer state.
    pub buffer_state: BufferState,
    /// Current position in milliseconds.
    pub position_ms: u32,
    /// Track duration in milliseconds, if known.
    pub duration_ms: Option<u32>,
    /// Current queue item, if playing from the queue.
    pub queue_item_id: Option<i32>,
    /// Next queue item (for gapless playback).
    pub next_queue_item_id: Option<i32>,
}

/// Playback command from the server.
#[derive(Debug, Clone, Copy, PartialEq, Eq, Structural)]
pub struct PlaybackCommand {
    /// Requested playback state, or `None` where the server named none (a
    /// seek) or a number this library does not know.
    pub state: Option<PlayingState>,
    /// Requested position (seek), if any.
    pub position_ms: Option<u32>,
    /// Queue item to play, if any.
    pub queue_item_id: Option<u64>,
}

/// State reported when the device becomes the active renderer.
#[derive(Debug, Clone, Copy, PartialEq, Eq, Structural)]
pub struct ActivationState {
    /// Whether audio is muted.
    pub muted: bool,
    /// Current volume (0-100).
    pub volume: u32,
    /// Maximum audio quality capability level (1-4).
    pub max_quality: i32,
    /// Current playback state.
    pub playback: PlaybackResponse,
}

/// A track in the queue.
#[derive(Debug, Clone, Copy, PartialEq, Eq, Structural)]
pub struct QueueTrack {
    pub track_id: u64,
    pub queue_item_id: u64,
}

/// Events of a session that need no response.
#[derive(Debug, PartialEq)]
pub enum SessionNotice {
    /// The device was deactivated.
    Deactivated { renderer_id: u64 },
    /// The queue changed.
    QueueUpdated { tracks: Vec<QueueTrack>, version: (u64, i32) },
    /// Loop mode changed.
    LoopModeChanged { mode: LoopMode },
    /// Shuffle mode changed.
    ShuffleModeChanged { enabled: bool },
    /// Position of another renderer, to continue from before becoming active.
    RestoreState { position_ms: u32, queue_index: Option<u32> },
    /// The WebSocket connected.
    Connected,
    /// The WebSocket disconnected.
    Disconnected { session_id: String, reason: Option<String> },
    /// This device was registered with the server.
    DeviceRegistered { device_uuid: [u8; 16], renderer_id: u64 },
    /// Another renderer joined the session.
    RendererAdded { renderer_id: u64, name: String },
    /// A renderer left the session.
    RendererRemoved { renderer_id: u64 },
    /// The active renderer changed.
    ActiveRendererChanged { renderer_id: u64 },
    /// A renderer's state, as broadcast by the server.
    RendererStateUpdated {
        renderer_id: u64,
        state: PlayingState,
        position_ms: u32,
        duration_ms: u32,
        queue_index: u32,
    },
    /// Volume broadcast.
    VolumeBroadcast { renderer_id: u64, volume: u32 },
    /// Mute broadcast.
    VolumeMutedBroadcast { renderer_id: u64, muted: bool },
    /// Maximum audio quality broadcast.
    MaxAudioQualityBroadcast { renderer_id: u64, quality: i32 },
    /// File audio quality broadcast.
    FileAudioQualityBroadcast { renderer_id: u64, sample_rate_hz: u32 },
    /// The session ended.
    SessionClosed { device_uuid: [u8; 16] },
}

/// What the session asks the code around it to do, in order.
#[derive(Debug, PartialEq)]
pub enum Effect {
    /// Hand a notice to the user.
    Notify(SessionNotice),
    /// Send a message to the server.
    Send(QConnectMessage),
    /// Hand the command to the user, wait for the playback response and
    /// send it with `SessionCore::playback_report`.
    AskPlayback { renderer_id: u64, cmd: PlaybackCommand },
    /// Tell the user the device is active, wait for its state and send
    /// `SessionCore::activation_reports` of it.
    AskActivation { renderer_id: u64 },
    /// Close the WebSocket.
    Close,
}

/// State of one session of one device.
#[derive(Debug, Clone, PartialEq)]
pub struct SessionCore {
    /// Session identifier handed over by the controller.
    pub session_id: String,
    /// The device this session belongs to.
    pub device_uuid: [u8; 16],
    /// Renderer number the server gave this device (0 while unknown).
    pub renderer_id: u64,
    /// Whether this device is the active renderer.
    pub is_active: bool,
    /// Session number from the server.
    pub server_session_id: Option<u64>,
    /// Session UUID (also the queue's).
    pub session_uuid: Option<[u8; 16]>,
    /// Current queue version (major, minor).
    pub queue_version: Option<(u64, i32)>,
}

/// The type number of a message (0 where it has none).
pub open spec fn type_of(msg: QConnectMessage) -> i32 {
    match msg.message_type {
        Some(t) => t,
        None => 0,
    }
}

/// The tracks of a queue snapshot that have both a track and a queue item
/// number, in order.
pub open spec fn queue_tracks(refs: Seq<QueueTrackRef>) -> Seq<QueueTrack>
    decreases refs.len(),
{
    if refs.len() == 0 {
        seq![]
    } else {
        let rest = queue_tracks(refs.drop_last());
        let t = refs.last();
        match (t.track_id, t.queue_item_id) {
            (Some(a), Some(b)) => rest.push(QueueTrack { track_id: a as u64, queue_item_id: b }),
            _ => rest,
        }
    }
}

/// Version pair of an optional queue version (absent parts are 0).
pub open spec fn version_pair(v: Option<crate::proto::QueueVersion>) -> (u64, i32) {
    match v {
        Some(qv) => (
            match qv.major { Some(x) => x, None => 0 },
            match qv.minor { Some(x) => x, None => 0 },
        ),
        None => (0, 0),
    }
}

/// The 16 bytes of `b`, where it has exactly 16.
pub open spec fn uuid_of(b: Seq<u8>) -> Option<Seq<u8>> {
    if b.len() == 16 { Some(b) } else { None }
}

/// The message that reports a playback response, with the given queue version.
pub open spec fn spec_playback_report(resp: PlaybackResponse, queue_version: Option<(u64, i32)>, now_ms: u64) -> QConnectMessage {
    QConnectMessage {
        rndr_srvr_state_updated: Some(RndrSrvrStateUpdated {
            state: Some(QueueRendererState {
                playing_state: Some(resp.state.spec_number()),
                buffer_state: Some(resp.buffer_state.spec_number()),
                current_position: Some(Position { timestamp: Some(now_ms), value: Some(resp.position_ms) }),
                duration: resp.duration_ms,
                queue_version: spec_queue_version(queue_version),
                current_queue_item_id: resp.queue_item_id,
                next_queue_item_id: resp.next_queue_item_id,
            }),
        }),
        ..spec_blank_message(Some(MT_RNDR_SRVR_STATE_UPDATED))
    }
}

/// The volume report.
pub open spec fn spec_volume_report(volume: u32) -> QConnectMessage {
    QConnectMessage {
        rndr_srvr_volume_changed: Some(RndrSrvrVolumeChanged { volume: Some(volume) }),
        ..spec_blank_message(Some(MT_RNDR_SRVR_VOLUME_CHANGED))
    }
}

/// The mute report: `Some(true)` when muted, no value otherwise.
pub open spec fn spec_muted_report(muted: bool) -> QConnectMessage {
    QConnectMessage {
        rndr_srvr_volume_muted: Some(RndrSrvrVolumeMuted { value: if muted { Some(true) } else { None } }),
        ..spec_blank_message(Some(MT_RNDR_SRVR_VOLUME_MUTED))
    }
}

/// The maximum audio quality report.
pub open spec fn spec_max_quality_report(quality: i32) -> QConnectMessage {
    QConnectMessage {
        rndr_srvr_max_audio_quality_changed: Some(RndrSrvrMaxAudioQualityChanged { value: Some(quality) }),
        ..spec_blank_message(Some(MT_RNDR_SRVR_MAX_AUDIO_QUALITY_CHANGED))
    }
}

/// The file audio quality report (sample rate in Hz, sent as a signed 32-bit number).
pub open spec fn spec_file_quality_report(sample_rate_hz: u32) -> QConnectMessage {
    QConnectMessage {
        rndr_srvr_file_audio_quality_changed: Some(RndrSrvrFileAudioQualityChanged { value: Some(sample_rate_hz as i32) }),
        ..spec_blank_message(Some(MT_RNDR_SRVR_FILE_AUDIO_QUALITY_CHANGED))
    }
}

/// The renderer a session sends heartbeats for: its own, while it is
/// active and has a renderer number.
pub open spec fn heartbeat_renderer(s: SessionCore) -> Option<u64> {
    if s.is_active && s.renderer_id != 0 {
        Some(s.renderer_id)
    } else {
        None
    }
}

impl SessionCore {
    /// A session that has just connected: no renderer number, not active,
    /// nothing known of the server's session.
    pub fn new(session_id: String, device_uuid: [u8; 16]) -> (s: SessionCore)
        ensures
            s.session_id == session_id,
            s.device_uuid == device_uuid,
            s.renderer_id == 0,
            !s.is_active,
            s.server_session_id is None,
            s.session_uuid is None,
            s.queue_version is None,
    {
        SessionCore {
            session_id,
            device_uuid,
            renderer_id: 0,
            is_active: false,
            server_session_id: None,
            session_uuid: None,
            queue_version: None,
        }
    }

    /// The renderer to send a heartbeat for: there is one only while this
    /// device is active and has a renderer number.
    pub fn heartbeat_due(&self) -> (r: Option<u64>)
        ensures
            r == heartbeat_renderer(*self),
    {
        if self.is_active && self.renderer_id != 0 {
            Some(self.renderer_id)
        } else {
            None
        }
    }

    /// The state report for a playback response, with the current queue version.
    pub fn playback_report(&self, resp: &PlaybackResponse, now_ms: u64) -> (m: QConnectMessage)
        ensures
            m == spec_playback_report(*resp, self.queue_version, now_ms),
    {
        let qv = match self.queue_version {
            Some((major, minor)) => Some(crate::proto::QueueVersion { major: Some(major), minor: Some(minor) }),
            None => None,
        };
        let mut m = QConnectMessage::blank(Some(MT_RNDR_SRVR_STATE_UPDATED));
        m.rndr_srvr_state_updated = Some(RndrSrvrStateUpdated {
            state: Some(QueueRendererState {
                playing_state: Some(resp.state.number()),
                buffer_state: Some(resp.buffer_state.number()),
                current_position: Some(Position { timestamp: Some(now_ms), value: Some(resp.position_ms) }),
                duration: resp.duration_ms,
                queue_version: qv,
                current_queue_item_id: resp.queue_item_id,
                next_queue_item_id: resp.next_queue_item_id,
            }),
        });
        m
    }

    /// The reports that make the activation handshake: mute state, volume,
    /// maximum audio quality, in this order. The playback state is not part
    /// of it.
    pub fn activation_reports(&self, st: &ActivationState) -> (ms: Vec<QConnectMessage>)
        ensures
            ms@ == seq![
                spec_muted_report(st.muted),
                spec_volume_report(st.volume),
                spec_max_quality_report(st.max_quality),
            ],
    {
        let mut ms: Vec<QConnectMessage> = Vec::new();
        ms.push(muted_report(st.muted));
        ms.push(volume_report(st.volume));
        ms.push(max_quality_report(st.max_quality));
        ms
    }

    /// The notice that the WebSocket went away, with its reason if known.
    pub fn disconnected(&self, reason: Option<String>) -> (n: SessionNotice)
        ensures
            n matches SessionNotice::Disconnected { session_id, reason: r } && session_id@ == self.session_id@
                && r == reason,
    {
        SessionNotice::Disconnected { session_id: self.session_id.clone(), reason }
    }

    /// The notice that the session ended.
    pub fn closed(&self) -> (n: SessionNotice)
        ensures
            n == (SessionNotice::SessionClosed { device_uuid: self.device_uuid }),
    {
        SessionNotice::SessionClosed { device_uuid: self.device_uuid }
    }

    /// What to do when the stream of messages from the server ends: tell
    /// the user the WebSocket went away (with the failure, if it failed),
    /// then that the session ended; the session ends.
    pub fn on_stream_end(&self, end: StreamEnd) -> (r: (Vec<Effect>, bool))
        ensures
            r.1,
            r.0@.len() == 2,
            r.0@[0] matches Effect::Notify(SessionNotice::Disconnected { session_id, reason })
                && session_id@ == self.session_id@
                && reason == (match end {
                    StreamEnd::Closed => None,
                    StreamEnd::Failed(m) => Some(m),
                }),
            r.0@[1] == Effect::Notify(SessionNotice::SessionClosed { device_uuid: self.device_uuid }),
    {
        let reason = match end {
            StreamEnd::Closed => None,
            StreamEnd::Failed(m) => Some(m),
        };
        let mut e: Vec<Effect> = Vec::new();
        e.push(Effect::Notify(self.disconnected(reason)));
        e.push(Effect::Notify(self.closed()));
        (e, true)
    }

    /// What to do once a message has ended the session: tell the user that
    /// the session ended.
    pub fn on_exit(&self) -> (e: Vec<Effect>)
        ensures
            e@ == seq![Effect::Notify(SessionNotice::SessionClosed { device_uuid: self.device_uuid })],
    {
        let mut e: Vec<Effect> = Vec::new();
        e.push(Effect::Notify(self.closed()));
        e
    }
}

/// Seconds between two heartbeats while the device is active.
pub const HEARTBEAT_INTERVAL_SECS: u64 = 10;

/// How the stream of messages from the server ended.
#[derive(Debug, Clone, PartialEq)]
pub enum StreamEnd {
    /// The WebSocket closed.
    Closed,
    /// Reading failed, with the failure's text.
    Failed(String),
}

/// Whether an effect tells the user that the session ended.
pub open spec fn is_session_closed(e: Effect) -> bool {
    e matches Effect::Notify(SessionNotice::SessionClosed { .. })
}

/// The volume report.
pub fn volume_report(volume: u32) -> (m: QConnectMessage)
    ensures
        m == spec_volume_report(volume),
{
    let mut m = QConnectMessage::blank(Some(MT_RNDR_SRVR_VOLUME_CHANGED));
    m.rndr_srvr_volume_changed = Some(RndrSrvrVolumeChanged { volume: Some(volume) });
    m
}

/// The mute report: `Some(true)` when muted, no value otherwise.
pub fn muted_report(muted: bool) -> (m: QConnectMessage)
    ensures
        m == spec_muted_report(muted),
{
    let mut m = QConnectMessage::blank(Some(MT_RNDR_SRVR_VOLUME_MUTED));
    m.rndr_srvr_volume_muted = Some(RndrSrvrVolumeMuted { value: if muted { Some(true) } else { None } });
    m
}

/// The maximum audio quality report (capability level 1-4).
pub fn max_quality_report(quality: i32) -> (m: QConnectMessage)
    ensures
        m == spec_max_quality_report(quality),
{
    let mut m = QConnectMessage::blank(Some(MT_RNDR_SRVR_MAX_AUDIO_QUALITY_CHANGED));
    m.rndr_srvr_max_audio_quality_changed = Some(RndrSrvrMaxAudioQualityChanged { value: Some(quality) });
    m
}

/// The file audio quality report (sample rate in Hz).
pub fn file_quality_report(sample_rate_hz: u32) -> (m: QConnectMessage)
    ensures
        m == spec_file_quality_report(sample_rate_hz),
{
    let v: i32 = #[verifier::truncate] (sample_rate_hz as i32);
    let mut m = QConnectMessage::blank(Some(MT_RNDR_SRVR_FILE_AUDIO_QUALITY_CHANGED));
    m.rndr_srvr_file_audio_quality_changed = Some(RndrSrvrFileAudioQualityChanged { value: Some(v) });
    m
}

/// The tracks of a queue snapshot that carry both numbers, in order.
pub fn collect_queue_tracks(refs: &Vec<QueueTrackRef>) -> (tracks: Vec<QueueTrack>)
    ensures
        tracks@ == queue_tracks(refs@),
{
    let mut tracks: Vec<QueueTrack> = Vec::new();
    let mut i: usize = 0;
    while i < refs.len()
        invariant
            i <= refs@.len(),
            tracks@ == queue_tracks(refs@.take(i as int)),
        decreases refs@.len() - i,
    {
        let t = refs[i];
        assert(refs@.take(i + 1).drop_last() =~= refs@.take(i as int));
        match (t.track_id, t.queue_item_id) {
            (Some(a), Some(b)) => {
                tracks.push(QueueTrack { track_id: a as u64, queue_item_id: b });
            },
            _ => {},
        }
        i += 1;
    }
    assert(refs@.take(i as int) =~= refs@);
    tracks
}


/// The reason given when the server deactivates this device.
pub open spec fn inactive_reason() -> Seq<char> {
    seq!['S', 'e', 'r', 'v', 'e', 'r', ' ', 's', 'e', 't', ' ', 'i', 'n', 'a', 'c', 't', 'i', 'v', 'e']
}

/// The name a renderer announces (empty where it announces none).
pub open spec fn announced_name(r: DeviceInfo) -> Seq<char> {
    match r.friendly_name {
        Some(n) => n@,
        None => Seq::<char>::empty(),
    }
}

/// Whether a renderer description names this device.
pub open spec fn is_this_device(r: DeviceInfo, device_uuid: [u8; 16]) -> bool {
    r.device_uuid matches Some(u) && u@ == device_uuid@
}

/// The command the server gives in a state message.
pub open spec fn spec_command(ss: crate::proto::SrvrRndrSetState) -> PlaybackCommand {
    PlaybackCommand {
        state: match ss.playing_state {
            Some(n) => PlayingState::spec_from_number(n),
            None => None,
        },
        position_ms: ss.current_position,
        queue_item_id: match ss.current_queue_item {
            Some(q) => q.queue_item_id,
            None => None,
        },
    }
}

/// How the session handles one message from the server: `s` is the state
/// before, `s2` after, `e` the effects in order and `exit` whether the
/// session ends.
pub open spec fn handled(s: SessionCore, msg: QConnectMessage, s2: SessionCore, e: Seq<Effect>, exit: bool) -> bool {
    let t = type_of(msg);
    if t == MT_SRVR_CTRL_ADD_RENDERER && msg.srvr_ctrl_add_renderer is Some
        && msg.srvr_ctrl_add_renderer->0.renderer is Some {
        let add = msg.srvr_ctrl_add_renderer->0;
        let r = add.renderer->0;
        let rid = or_else(add.renderer_id, 0u64);
        &&& !exit
        &&& if is_this_device(r, s.device_uuid) {
            &&& s2 == (SessionCore { renderer_id: rid, ..s })
            &&& e =~= seq![
                Effect::Notify(SessionNotice::DeviceRegistered { device_uuid: s.device_uuid, renderer_id: rid }),
                Effect::Send(spec_set_active_renderer(rid)),
            ]
        } else {
            &&& s2 == s
            &&& e.len() == 1
            &&& e[0] matches Effect::Notify(SessionNotice::RendererAdded { renderer_id, name })
                && renderer_id == rid && name@ == announced_name(r)
        }
    } else if t == MT_SRVR_CTRL_REMOVE_RENDERER && msg.srvr_ctrl_remove_renderer is Some {
        let rid = or_else(msg.srvr_ctrl_remove_renderer->0.renderer_id, 0u64);
        &&& !exit
        &&& s2 == (SessionCore { renderer_id: if s.renderer_id == rid { 0 } else { s.renderer_id }, ..s })
        &&& e =~= seq![Effect::Notify(SessionNotice::RendererRemoved { renderer_id: rid })]
    } else if t == MT_SRVR_CTRL_SESSION_STATE && msg.srvr_ctrl_session_state is Some {
        let ss = msg.srvr_ctrl_session_state->0;
        let sid = or_else(ss.session_id, 0u64);
        &&& !exit
        &&& s2.session_id == s.session_id
        &&& s2.device_uuid == s.device_uuid
        &&& s2.renderer_id == s.renderer_id
        &&& s2.is_active == s.is_active
        &&& s2.server_session_id == Some(sid)
        &&& s2.queue_version == (if ss.queue_version is Some {
            Some(version_pair(ss.queue_version))
        } else {
            s.queue_version
        })
        &&& match ss.session_uuid {
            Some(b) => if b@.len() == 16 {
                (s2.session_uuid matches Some(a) && a@ == b@)
            } else {
                s2.session_uuid == s.session_uuid
            },
            None => s2.session_uuid == s.session_uuid,
        }
        &&& e =~= seq![Effect::Send(spec_ask_for_renderer_state(sid))]
    } else if t == MT_SRVR_CTRL_ACTIVE_RENDERER_CHANGED && msg.srvr_ctrl_active_renderer_changed is Some {
        let rid = or_else(msg.srvr_ctrl_active_renderer_changed->0.renderer_id, 0u64);
        &&& !exit
        &&& s2 == s
        &&& e =~= seq![Effect::Notify(SessionNotice::ActiveRendererChanged { renderer_id: rid })]
    } else if t == MT_SRVR_CTRL_QUEUE_STATE && msg.srvr_ctrl_queue_state is Some {
        let qs = msg.srvr_ctrl_queue_state->0;
        let version = version_pair(qs.queue_version);
        &&& !exit
        &&& s2 == (SessionCore { queue_version: Some(version), ..s })
        &&& e.len() == 1
        &&& e[0] matches Effect::Notify(SessionNotice::QueueUpdated { tracks, version: v })
            && tracks@ == queue_tracks(qs.tracks@) && v == version
    } else if t == MT_SRVR_RNDR_SET_STATE && msg.srvr_rndr_set_state is Some {
        let ss = msg.srvr_rndr_set_state->0;
        &&& !exit
        &&& s2 == s
        &&& e =~= (if ss.playing_state is Some || ss.current_position is Some {
            seq![Effect::AskPlayback { renderer_id: s.renderer_id, cmd: spec_command(ss) }]
        } else {
            Seq::<Effect>::empty()
        })
    } else if t == MT_SRVR_RNDR_SET_ACTIVE && msg.srvr_rndr_set_active is Some {
        if or_else(msg.srvr_rndr_set_active->0.active, false) {
            &&& !exit
            &&& s2 == (SessionCore { is_active: true, ..s })
            &&& e.len() == 2
            &&& e[0] == Effect::AskActivation { renderer_id: s.renderer_id }
            &&& e[1] matches Effect::Send(m) && is_queue_state_request_message(
                m,
                or_else(s.session_uuid, s.device_uuid)@,
                None,
            )
        } else {
            &&& exit
            &&& s2 == (SessionCore { is_active: false, ..s })
            &&& e.len() == 3
            &&& e[0] == Effect::Notify(SessionNotice::Deactivated { renderer_id: s.renderer_id })
            &&& e[1] == Effect::Close
            &&& e[2] matches Effect::Notify(SessionNotice::Disconnected { session_id, reason })
                && session_id@ == s.session_id@ && (reason matches Some(r) && r@ == inactive_reason())
        }
    } else if t == MT_SRVR_CTRL_VOLUME_CHANGED && msg.srvr_ctrl_volume_changed is Some {
        let vc = msg.srvr_ctrl_volume_changed->0;
        &&& !exit
        &&& s2 == s
        &&& e =~= seq![Effect::Notify(SessionNotice::VolumeBroadcast {
            renderer_id: or_else(vc.renderer_id, 0u64),
            volume: or_else(vc.volume, 0u32),
        })]
    } else if t == MT_SRVR_CTRL_SHUFFLE_MODE_SET && msg.srvr_ctrl_shuffle_mode_set is Some {
        &&& !exit
        &&& s2 == s
        &&& e =~= seq![Effect::Notify(SessionNotice::ShuffleModeChanged {
            enabled: or_else(msg.srvr_ctrl_shuffle_mode_set->0.shuffle_on, false),
        })]
    } else if t == MT_SRVR_CTRL_LOOP_MODE_SET && msg.srvr_ctrl_loop_mode_set is Some {
        let mode = match msg.srvr_ctrl_loop_mode_set->0.mode {
            Some(n) => or_else(LoopMode::spec_from_number(n), LoopMode::Unknown),
            None => LoopMode::Unknown,
        };
        &&& !exit
        &&& s2 == s
        &&& e =~= seq![Effect::Notify(SessionNotice::LoopModeChanged { mode })]
    } else if t == MT_SRVR_CTRL_VOLUME_MUTED && msg.srvr_ctrl_volume_muted is Some {
        let vm = msg.srvr_ctrl_volume_muted->0;
        &&& !exit
        &&& s2 == s
        &&& e =~= seq![Effect::Notify(SessionNotice::VolumeMutedBroadcast {
            renderer_id: or_else(vm.renderer_id, 0u64),
            muted: or_else(vm.value, false),
        })]
    } else if t == MT_SRVR_CTRL_MAX_AUDIO_QUALITY_CHANGED && msg.srvr_ctrl_max_audio_quality_changed is Some {
        &&& !exit
        &&& s2 == s
        &&& e =~= seq![Effect::Notify(SessionNotice::MaxAudioQualityBroadcast {
            renderer_id: s.renderer_id,
            quality: or_else(msg.srvr_ctrl_max_audio_quality_changed->0.max_audio_quality, 0i32),
        })]
    } else if t == MT_SRVR_CTRL_FILE_AUDIO_QUALITY_CHANGED && msg.srvr_ctrl_file_audio_quality_changed is Some {
        &&& !exit
        &&& s2 == s
        &&& e =~= seq![Effect::Notify(SessionNotice::FileAudioQualityBroadcast {
            renderer_id: s.renderer_id,
            sample_rate_hz: or_else(msg.srvr_ctrl_file_audio_quality_changed->0.file_audio_quality, 0i32) as u32,
        })]
    } else if t == MT_SRVR_CTRL_RENDERER_STATE_UPDATED && msg.srvr_ctrl_renderer_state_updated is Some
        && msg.srvr_ctrl_renderer_state_updated->0.state is Some {
        let rsu = msg.srvr_ctrl_renderer_state_updated->0;
        let st = rsu.state->0;
        let rid = or_else(rsu.renderer_id, 0u64);
        let play_state = match st.playing_state {
            Some(n) => or_else(PlayingState::spec_from_number(n), PlayingState::Stopped),
            None => PlayingState::Stopped,
        };
        let position_ms = match st.current_position {
            Some(p) => or_else(p.value, 0u32),
            None => 0u32,
        };
        let queue_index = or_else(st.current_queue_index, 0u32);
        let update = Effect::Notify(SessionNotice::RendererStateUpdated {
            renderer_id: rid,
            state: play_state,
            position_ms,
            duration_ms: or_else(st.duration, 0u32),
            queue_index,
        });
        &&& !exit
        &&& s2 == s
        &&& e =~= (if rid != s.renderer_id && !s.is_active {
            seq![
                Effect::Notify(SessionNotice::RestoreState {
                    position_ms,
                    queue_index: if queue_index > 0 { Some(queue_index) } else { None },
                }),
                update,
            ]
        } else {
            seq![update]
        })
    } else {
        &&& !exit
        &&& s2 == s
        &&& e.len() == 0
    }
}

/// The name a renderer announces.
fn announced_name_of(r: &DeviceInfo) -> (n: String)
    ensures
        n@ == announced_name(*r),
{
    match &r.friendly_name {
        Some(name) => name.clone(),
        None => String::new(),
    }
}

/// Whether a renderer description names this device.
fn names_device(r: &DeviceInfo, device_uuid: &[u8; 16]) -> (b: bool)
    ensures
        b == is_this_device(*r, *device_uuid),
{
    match &r.device_uuid {
        Some(u) => {
            if u.len() != 16 {
                assert(u@.len() != device_uuid@.len());
                return false;
            }
            let mut i: usize = 0;
            while i < 16
                invariant
                    i <= 16,
                    u@.len() == 16,
                    device_uuid@.len() == 16,
                    r.device_uuid == Some(*u),
                    forall|j: int| 0 <= j < i ==> u@[j] == device_uuid@[j],
                decreases 16 - i,
            {
                if u[i] != device_uuid[i] {
                    assert(u@[i as int] != device_uuid@[i as int]);
                    assert(!(u@ =~= device_uuid@));
                    return false;
                }
                i += 1;
            }
            assert(u@ =~= device_uuid@);
            true
        },
        None => false,
    }
}

/// The 16 bytes of `b` as an array, where it has exactly 16.
fn uuid_array(b: &Vec<u8>) -> (a: Option<[u8; 16]>)
    ensures
        match a {
            Some(x) => b@.len() == 16 && x@ == b@,
            None => b@.len() != 16,
        },
{
    if b.len() != 16 {
        return None;
    }
    let mut x: [u8; 16] = [0u8; 16];
    let mut i: usize = 0;
    while i < 16
        invariant
            i <= 16,
            b@.len() == 16,
            x@.len() == 16,
            forall|j: int| 0 <= j < i ==> x@[j] == b@[j],
        decreases 16 - i,
    {
        x.set(i, b[i]);
        i += 1;
    }
    assert(x@ =~= b@);
    Some(x)
}

impl SessionCore {
    /// Handles one message from the server: updates the session and returns
    /// what to do, in order, and whether the session ends (it ends exactly
    /// when the server deactivates this device).
    pub fn handle_qconnect_message(&mut self, msg: QConnectMessage) -> (r: (Vec<Effect>, bool))
        ensures
            handled(*old(self), msg, *final(self), r.0@, r.1),
            final(self).session_id == old(self).session_id,
            final(self).device_uuid == old(self).device_uuid,
            type_of(msg) != MT_SRVR_RNDR_SET_ACTIVE ==> final(self).is_active == old(self).is_active && !r.1,
    {
        let t: i32 = match msg.message_type {
            Some(t) => t,
            None => 0,
        };
        let mut effects: Vec<Effect> = Vec::new();
        if t == MT_SRVR_CTRL_ADD_RENDERER {
            if let Some(add) = &msg.srvr_ctrl_add_renderer {
                if let Some(renderer) = &add.renderer {
                    let rid: u64 = match add.renderer_id {
                        Some(x) => x,
                        None => 0,
                    };
                    if names_device(renderer, &self.device_uuid) {
                        self.renderer_id = rid;
                        effects.push(Effect::Notify(SessionNotice::DeviceRegistered {
                            device_uuid: self.device_uuid,
                            renderer_id: rid,
                        }));
                        effects.push(Effect::Send(set_active_renderer_message(rid)));
                    } else {
                        let name = announced_name_of(renderer);
                        effects.push(Effect::Notify(SessionNotice::RendererAdded { renderer_id: rid, name }));
                    }
                }
            }
            return (effects, false);
        }
        if t == MT_SRVR_CTRL_REMOVE_RENDERER {
            if let Some(rem) = &msg.srvr_ctrl_remove_renderer {
                let rid: u64 = match rem.renderer_id {
                    Some(x) => x,
                    None => 0,
                };
                if self.renderer_id == rid {
                    self.renderer_id = 0;
                }
                effects.push(Effect::Notify(SessionNotice::RendererRemoved { renderer_id: rid }));
            }
            return (effects, false);
        }
        if t == MT_SRVR_CTRL_SESSION_STATE {
            if let Some(ss) = &msg.srvr_ctrl_session_state {
                let sid: u64 = match ss.session_id {
                    Some(x) => x,
                    None => 0,
                };
                if let Some(qv) = ss.queue_version {
                    let major: u64 = match qv.major {
                        Some(x) => x,
                        None => 0,
                    };
                    let minor: i32 = match qv.minor {
                        Some(x) => x,
                        None => 0,
                    };
                    self.queue_version = Some((major, minor));
                }
                self.server_session_id = Some(sid);
                if let Some(bytes) = &ss.session_uuid {
                    if let Some(a) = uuid_array(bytes) {
                        self.session_uuid = Some(a);
                    }
                }
                effects.push(Effect::Send(ask_for_renderer_state_message(sid)));
            }
            return (effects, false);
        }
        if t == MT_SRVR_CTRL_ACTIVE_RENDERER_CHANGED {
            if let Some(arc) = &msg.srvr_ctrl_active_renderer_changed {
                let rid: u64 = match arc.renderer_id {
                    Some(x) => x,
                    None => 0,
                };
                effects.push(Effect::Notify(SessionNotice::ActiveRendererChanged { renderer_id: rid }));
            }
            return (effects, false);
        }
        if t == MT_SRVR_CTRL_QUEUE_STATE {
            if let Some(qs) = &msg.srvr_ctrl_queue_state {
                let version: (u64, i32) = match qs.queue_version {
                    Some(v) => (
                        match v.major {
                            Some(x) => x,
                            None => 0,
                        },
                        match v.minor {
                            Some(x) => x,
                            None => 0,
                        },
                    ),
                    None => (0, 0),
                };
                self.queue_version = Some(version);
                let tracks = collect_queue_tracks(&qs.tracks);
                effects.push(Effect::Notify(SessionNotice::QueueUpdated { tracks, version }));
            }
            return (effects, false);
        }
        if t == MT_SRVR_RNDR_SET_STATE {
            if let Some(ss) = &msg.srvr_rndr_set_state {
                if ss.playing_state.is_some() || ss.current_position.is_some() {
                    let state = match ss.playing_state {
                        Some(n) => PlayingState::from_number(n),
                        None => None,
                    };
                    let queue_item_id = match ss.current_queue_item {
                        Some(q) => q.queue_item_id,
                        None => None,
                    };
                    let cmd = PlaybackCommand { state, position_ms: ss.current_position, queue_item_id };
                    effects.push(Effect::AskPlayback { renderer_id: self.renderer_id, cmd });
                }
            }
            return (effects, false);
        }
        if t == MT_SRVR_RNDR_SET_ACTIVE {
            if let Some(sa) = &msg.srvr_rndr_set_active {
                let active = match sa.active {
                    Some(b) => b,
                    None => false,
                };
                if active {
                    self.is_active = true;
                    effects.push(Effect::AskActivation { renderer_id: self.renderer_id });
                    let queue_uuid = match self.session_uuid {
                        Some(u) => u,
                        None => self.device_uuid,
                    };
                    effects.push(Effect::Send(ask_for_queue_state_message(&queue_uuid, None)));
                } else {
                    self.is_active = false;
                    effects.push(Effect::Notify(SessionNotice::Deactivated { renderer_id: self.renderer_id }));
                    effects.push(Effect::Close);
                    let reason = "Server set inactive".to_owned();
                    proof { reveal_strlit("Server set inactive"); }
                    assert(reason@ =~= inactive_reason());
                    effects.push(Effect::Notify(self.disconnected(Some(reason))));
                    return (effects, true);
                }
            }
            return (effects, false);
        }
        if t == MT_SRVR_CTRL_VOLUME_CHANGED {
            if let Some(vc) = &msg.srvr_ctrl_volume_changed {
                let rid: u64 = match vc.renderer_id {
                    Some(x) => x,
                    None => 0,
                };
                let volume: u32 = match vc.volume {
                    Some(x) => x,
                    None => 0,
                };
                effects.push(Effect::Notify(SessionNotice::VolumeBroadcast { renderer_id: rid, volume }));
            }
            return (effects, false);
        }
        if t == MT_SRVR_CTRL_SHUFFLE_MODE_SET {
            if let Some(sm) = &msg.srvr_ctrl_shuffle_mode_set {
                let enabled = match sm.shuffle_on {
                    Some(b) => b,
                    None => false,
                };
                effects.push(Effect::Notify(SessionNotice::ShuffleModeChanged { enabled }));
            }
            return (effects, false);
        }
        if t == MT_SRVR_CTRL_LOOP_MODE_SET {
            if let Some(lm) = &msg.srvr_ctrl_loop_mode_set {
                let mode = match lm.mode {
                    Some(n) => match LoopMode::from_number(n) {
                        Some(m) => m,
                        None => LoopMode::Unknown,
                    },
                    None => LoopMode::Unknown,
                };
                effects.push(Effect::Notify(SessionNotice::LoopModeChanged { mode }));
            }
            return (effects, false);
        }
        if t == MT_SRVR_CTRL_VOLUME_MUTED {
            if let Some(vm) = &msg.srvr_ctrl_volume_muted {
                let rid: u64 = match vm.renderer_id {
                    Some(x) => x,
                    None => 0,
                };
                let muted = match vm.value {
                    Some(b) => b,
                    None => false,
                };
                effects.push(Effect::Notify(SessionNotice::VolumeMutedBroadcast { renderer_id: rid, muted }));
            }
            return (effects, false);
        }
        if t == MT_SRVR_CTRL_MAX_AUDIO_QUALITY_CHANGED {
            if let Some(mq) = &msg.srvr_ctrl_max_audio_quality_changed {
                let quality: i32 = match mq.max_audio_quality {
                    Some(x) => x,
                    None => 0,
                };
                effects.push(Effect::Notify(SessionNotice::MaxAudioQualityBroadcast {
                    renderer_id: self.renderer_id,
                    quality,
                }));
            }
            return (effects, false);
        }
        if t == MT_SRVR_CTRL_FILE_AUDIO_QUALITY_CHANGED {
            if let Some(fq) = &msg.srvr_ctrl_file_audio_quality_changed {
                let q: i32 = match fq.file_audio_quality {
                    Some(x) => x,
                    None => 0,
                };
                let sample_rate_hz: u32 = #[verifier::truncate] (q as u32);
                effects.push(Effect::Notify(SessionNotice::FileAudioQualityBroadcast {
                    renderer_id: self.renderer_id,
                    sample_rate_hz,
                }));
            }
            return (effects, false);
        }
        if t == MT_SRVR_CTRL_RENDERER_STATE_UPDATED {
            if let Some(rsu) = &msg.srvr_ctrl_renderer_state_updated {
                if let Some(st) = rsu.state {
                    let rid: u64 = match rsu.renderer_id {
                        Some(x) => x,
                        None => 0,
                    };
                    let play_state = match st.playing_state {
                        Some(n) => match PlayingState::from_number(n) {
                            Some(p) => p,
                            None => PlayingState::Stopped,
                        },
                        None => PlayingState::Stopped,
                    };
                    let position_ms: u32 = match st.current_position {
                        Some(p) => match p.value {
                            Some(v) => v,
                            None => 0,
                        },
                        None => 0,
                    };
                    let duration_ms: u32 = match st.duration {
                        Some(x) => x,
                        None => 0,
                    };
                    let queue_index: u32 = match st.current_queue_index {
                        Some(x) => x,
                        None => 0,
                    };
                    if rid != self.renderer_id && !self.is_active {
                        let qi = if queue_index > 0 { Some(queue_index) } else { None };
                        effects.push(Effect::Notify(SessionNotice::RestoreState { position_ms, queue_index: qi }));
                    }
                    effects.push(Effect::Notify(SessionNotice::RendererStateUpdated {
                        renderer_id: rid,
                        state: play_state,
                        position_ms,
                        duration_ms,
                        queue_index,
                    }));
                }
            }
            return (effects, false);
        }
        (effects, false)
    }
}

// ---------------------------------------------------------------------------
// Laws
// ---------------------------------------------------------------------------

/// Law: a fresh session sends no heartbeat.
pub proof fn lemma_new_session_is_silent(s: SessionCore)
    requires
        s.renderer_id == 0,
        !s.is_active,
    ensures
        heartbeat_renderer(s) is None,
{
}

/// Law: when the server deactivates this device, the session ends, the
/// device is inactive and no heartbeat is due any more.
pub proof fn lemma_deactivation_ends_session(s: SessionCore, msg: QConnectMessage, s2: SessionCore, e: Seq<Effect>, exit: bool)
    requires
        handled(s, msg, s2, e, exit),
        type_of(msg) == MT_SRVR_RNDR_SET_ACTIVE,
        msg.srvr_rndr_set_active matches Some(a) && a.active == Some(false),
    ensures
        exit,
        !s2.is_active,
        heartbeat_renderer(s2) is None,
        e.len() == 3 && e[1] == Effect::Close,
{
}

/// Law: once the server has added this device as a renderer and then
/// activated it, heartbeats go out for the renderer number it was given,
/// and the session goes on.
pub proof fn lemma_registered_then_activated_heartbeats(
    s: SessionCore,
    add: QConnectMessage,
    s1: SessionCore,
    e1: Seq<Effect>,
    x1: bool,
    act: QConnectMessage,
    s2: SessionCore,
    e2: Seq<Effect>,
    x2: bool,
)
    requires
        handled(s, add, s1, e1, x1),
        type_of(add) == MT_SRVR_CTRL_ADD_RENDERER,
        add.srvr_ctrl_add_renderer matches Some(a) && (a.renderer matches Some(r)
            && is_this_device(r, s.device_uuid)) && (a.renderer_id matches Some(id) && id != 0),
        handled(s1, act, s2, e2, x2),
        type_of(act) == MT_SRVR_RNDR_SET_ACTIVE,
        act.srvr_rndr_set_active matches Some(b) && b.active == Some(true),
    ensures
        heartbeat_renderer(s2) == add.srvr_ctrl_add_renderer->0.renderer_id,
        !x1 && !x2,
        s2.session_id == s.session_id,
{
}

/// Law: when the server removes this device's renderer, no heartbeat is
/// due until it is added again.
pub proof fn lemma_own_removal_stops_heartbeat(s: SessionCore, msg: QConnectMessage, s2: SessionCore, e: Seq<Effect>, exit: bool)
    requires
        handled(s, msg, s2, e, exit),
        type_of(msg) == MT_SRVR_CTRL_REMOVE_RENDERER,
        msg.srvr_ctrl_remove_renderer matches Some(r) && r.renderer_id == Some(s.renderer_id),
    ensures
        heartbeat_renderer(s2) is None,
        !exit,
{
}

/// Law: a message never ends the session by itself telling the user so;
/// the end of the session is told once, by `on_exit` after a message that
/// ends it, or by `on_stream_end`, as the last effect.
pub proof fn lemma_session_closed_told_once(s: SessionCore, msg: QConnectMessage, s2: SessionCore, e: Seq<Effect>, exit: bool)
    requires
        handled(s, msg, s2, e, exit),
    ensures
        forall|i: int| 0 <= i < e.len() ==> !is_session_closed(#[trigger] e[i]),
{
}

/// Law: the hand-over of playback. A renderer state broadcast from another
/// renderer, while this device is not active, first asks the user to
/// restore that renderer's position and queue index (no index where it is
/// 0), then passes the broadcast on; while this device is active, or for
/// its own renderer, only the broadcast is passed on.
pub proof fn lemma_restore_state_on_handover(s: SessionCore, msg: QConnectMessage, s2: SessionCore, e: Seq<Effect>, exit: bool)
    requires
        handled(s, msg, s2, e, exit),
        msg.message_type == Some(82i32),
        msg.srvr_ctrl_renderer_state_updated matches Some(r) && r.state is Some,
    ensures
        ({
            let r = msg.srvr_ctrl_renderer_state_updated->0;
            let st = r.state->0;
            let rid: u64 = match r.renderer_id { Some(x) => x, None => 0 };
            let pos: u32 = match st.current_position { Some(p) => match p.value { Some(v) => v, None => 0 }, None => 0 };
            let idx: u32 = match st.current_queue_index { Some(i) => i, None => 0 };
            &&& !exit
            &&& s2 == s
            &&& (rid != s.renderer_id && !s.is_active) ==> {
                &&& e.len() == 2
                &&& e[0] == Effect::Notify(SessionNotice::RestoreState {
                        position_ms: pos,
                        queue_index: if idx > 0 { Some(idx) } else { None },
                    })
                &&& e[1] matches Effect::Notify(SessionNotice::RendererStateUpdated { renderer_id, position_ms, queue_index, .. })
                    && renderer_id == rid && position_ms == pos && queue_index == idx
            }
            &&& (rid == s.renderer_id || s.is_active) ==> {
                &&& e.len() == 1
                &&& e[0] matches Effect::Notify(SessionNotice::RendererStateUpdated { renderer_id, position_ms, queue_index, .. })
                    && renderer_id == rid && position_ms == pos && queue_index == idx
            }
        }),
{
}

/// Law: a state report tells the server exactly the response it reports:
/// its playing and buffer states by number, its position stamped with the
/// given time, its duration, the current queue item as the current one
/// and the next queue item as the next one, with the given queue version.
pub proof fn lemma_playback_report_fields(resp: PlaybackResponse, queue_version: Option<(u64, i32)>, now_ms: u64)
    ensures
        ({
            let m = spec_playback_report(resp, queue_version, now_ms);
            &&& m.message_type == Some(23i32)
            &&& m.rndr_srvr_state_updated matches Some(u) && u.state matches Some(st)
                && st.playing_state == Some(resp.state.spec_number())
                && st.buffer_state == Some(resp.buffer_state.spec_number())
                && st.current_position == Some(Position { timestamp: Some(now_ms), value: Some(resp.position_ms) })
                && st.duration == resp.duration_ms
                && st.current_queue_item_id == resp.queue_item_id
                && st.next_queue_item_id == resp.next_queue_item_id
                && st.queue_version == (match queue_version {
                    Some((major, minor)) => Some(crate::proto::QueueVersion { major: Some(major), minor: Some(minor) }),
                    None => None,
                })
            &&& m.rndr_srvr_volume_changed is None
            &&& m.srvr_rndr_set_state is None
        }),
{
}

/// Law: the activation handshake reports, in this order, the mute state
/// (`Some(true)` when muted, nothing otherwise), the volume and the maximum
/// audio quality, each in the message of its own type.
pub proof fn lemma_activation_reports_fields(st: ActivationState)
    ensures
        spec_muted_report(st.muted).message_type == Some(29i32),
        spec_muted_report(st.muted).rndr_srvr_volume_muted == Some(RndrSrvrVolumeMuted { value: if st.muted { Some(true) } else { None } }),
        spec_volume_report(st.volume).message_type == Some(25i32),
        spec_volume_report(st.volume).rndr_srvr_volume_changed == Some(RndrSrvrVolumeChanged { volume: Some(st.volume) }),
        spec_max_quality_report(st.max_quality).message_type == Some(28i32),
        spec_max_quality_report(st.max_quality).rndr_srvr_max_audio_quality_changed
            == Some(RndrSrvrMaxAudioQualityChanged { value: Some(st.max_quality) }),
{
}

} // verus!
