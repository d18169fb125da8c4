//! Reading envelopes that arrive on the QConnect WebSocket, and building
//! the messages a device sends.

use vstd::prelude::*;
use crate::proto::{
    Authenticate, CtrlSrvrAskForQueueState, CtrlSrvrAskForRendererState, CtrlSrvrJoinSession,
    CtrlSrvrSetActiveRenderer, DeviceCapabilities, DeviceInfo, DeviceType, Payload,
    QConnectBatch, QConnectMessage, QueueVersion, Subscribe, spec_blank_message,
    MT_CTRL_SRVR_ASK_FOR_QUEUE_STATE, MT_CTRL_SRVR_ASK_FOR_RENDERER_STATE,
    MT_CTRL_SRVR_JOIN_SESSION, MT_CTRL_SRVR_SET_ACTIVE_RENDERER,
};
use crate::wire::{frame_parse, parse_frame, copy_range, MSG_PAYLOAD};

verus! {

broadcast use vstd::array::group_array_axioms;

/// A message read from the WebSocket.
#[derive(Debug, Clone, PartialEq)]
pub enum IncomingMessage {
    /// QConnect batch payload.
    Batch(QConnectBatch),
    /// Payload envelope whose inner bytes are absent or hold no batch.
    Payload(Payload),
    /// Envelope of another type, with its payload bytes.
    Other { msg_type: i32, data: Vec<u8> },
}

/// First step of reading an envelope: either finished, or the payload bytes
/// of a PAYLOAD envelope that must be decoded as a `Payload` message.
#[derive(Debug, Clone, PartialEq)]
pub enum EnvelopeRead {
    Finished(Option<IncomingMessage>),
    DecodePayload(Vec<u8>),
}

/// Second step: either finished, or the inner bytes of a decoded `Payload`
/// that must be decoded as a `QConnectBatch`.
#[derive(Debug, Clone, PartialEq)]
pub enum PayloadRead {
    Finished(Option<IncomingMessage>),
    DecodeBatch(Payload, Vec<u8>),
}

/// Starts reading an envelope. A frame that cannot be parsed (empty, bad
/// length prefix, fewer bytes than announced) is dropped; a PAYLOAD frame
/// asks for its payload to be decoded; any other type is returned as
/// `Other` with its payload.
pub fn read_envelope(data: &[u8]) -> (r: EnvelopeRead)
    ensures
        match frame_parse(data@) {
            None => r == EnvelopeRead::Finished(None),
            Some((t, p)) => if t == MSG_PAYLOAD {
                r matches EnvelopeRead::DecodePayload(bytes) && bytes@ == p
            } else {
                r matches EnvelopeRead::Finished(Some(IncomingMessage::Other { msg_type, data }))
                    && msg_type == t as i32 && data@ == p
            },
        },
{
    match parse_frame(data) {
        None => EnvelopeRead::Finished(None),
        Some(frame) => {
            if frame.msg_type == MSG_PAYLOAD {
                EnvelopeRead::DecodePayload(frame.payload)
            } else {
                EnvelopeRead::Finished(
                    Some(IncomingMessage::Other { msg_type: frame.msg_type, data: frame.payload }),
                )
            }
        },
    }
}

/// Continues with the result of decoding the payload bytes: a failed decode
/// drops the envelope; a payload with inner bytes asks for them to be decoded
/// as a batch; a payload without them is returned as it is.
pub fn read_payload(decoded: Option<Payload>) -> (r: PayloadRead)
    ensures
        match decoded {
            None => r == PayloadRead::Finished(None),
            Some(p) => match p.payload {
                Some(inner) => r matches PayloadRead::DecodeBatch(q, bytes) && q == p
                    && bytes@ == inner@,
                None => r == PayloadRead::Finished(Some(IncomingMessage::Payload(p))),
            },
        },
{
    match decoded {
        None => PayloadRead::Finished(None),
        Some(p) => {
            let inner = match &p.payload {
                Some(inner) => Some(copy_range(inner.as_slice(), 0, inner.len())),
                None => None,
            };
            match inner {
                Some(bytes) => {
                    assert(bytes@ =~= p.payload->0@);
                    PayloadRead::DecodeBatch(p, bytes)
                },
                None => PayloadRead::Finished(Some(IncomingMessage::Payload(p))),
            }
        },
    }
}

/// Finishes with the result of decoding the inner bytes: a batch where the
/// decode succeeded, the payload itself where it failed.
pub fn read_batch(payload: Payload, decoded: Option<QConnectBatch>) -> (m: IncomingMessage)
    ensures
        match decoded {
            Some(b) => m == IncomingMessage::Batch(b),
            None => m == IncomingMessage::Payload(payload),
        },
{
    match decoded {
        Some(b) => IncomingMessage::Batch(b),
        None => IncomingMessage::Payload(payload),
    }
}

/// The batch, if the message read is one: what a reader that only wants
/// batches keeps of an envelope.
pub fn batch_of(m: Option<IncomingMessage>) -> (b: Option<QConnectBatch>)
    ensures
        match m {
            Some(IncomingMessage::Batch(x)) => b == Some(x),
            _ => b is None,
        },
{
    match m {
        Some(IncomingMessage::Batch(x)) => Some(x),
        _ => None,
    }
}


/// The kind of a WebSocket frame that arrives.
#[derive(Debug, Clone, Copy, PartialEq, Eq, Structural)]
pub enum WsFrameKind {
    Text,
    Binary,
    Ping,
    Pong,
    Close,
    Raw,
}

/// What a reader does with an arriving frame.
#[derive(Debug, Clone, Copy, PartialEq, Eq, Structural)]
pub enum FrameStep {
    /// Read the frame's bytes as an envelope.
    ReadEnvelope,
    /// Answer with a pong carrying the same bytes.
    ReplyPong,
    /// The connection is closed.
    Closed,
    /// Nothing to do.
    Ignore,
}

/// What the transport does with a frame: binary frames hold envelopes,
/// pings are answered, a close frame ends the connection, the rest is
/// ignored.
pub fn transport_frame_step(kind: WsFrameKind) -> (r: FrameStep)
    ensures
        r == (match kind {
            WsFrameKind::Binary => FrameStep::ReadEnvelope,
            WsFrameKind::Ping => FrameStep::ReplyPong,
            WsFrameKind::Close => FrameStep::Closed,
            _ => FrameStep::Ignore,
        }),
{
    match kind {
        WsFrameKind::Binary => FrameStep::ReadEnvelope,
        WsFrameKind::Ping => FrameStep::ReplyPong,
        WsFrameKind::Close => FrameStep::Closed,
        _ => FrameStep::Ignore,
    }
}

/// What the reader half of a split connection does with a frame: as the
/// transport, but pings are left to the WebSocket library, which answers
/// them itself.
pub fn reader_frame_step(kind: WsFrameKind) -> (r: FrameStep)
    ensures
        r == (match kind {
            WsFrameKind::Binary => FrameStep::ReadEnvelope,
            WsFrameKind::Close => FrameStep::Closed,
            _ => FrameStep::Ignore,
        }),
{
    match kind {
        WsFrameKind::Binary => FrameStep::ReadEnvelope,
        WsFrameKind::Close => FrameStep::Closed,
        _ => FrameStep::Ignore,
    }
}

/// Protocol number of QConnect inside envelope messages.
pub const QP_QCONNECT: i32 = 1;

/// Message numbering of one WebSocket connection. Every envelope message
/// that carries a number takes the next one, starting from 1.
#[derive(Debug, Clone, Copy, PartialEq, Eq, Structural)]
pub struct TransportState {
    msg_id: u32,
}

impl TransportState {
    /// The number of the last envelope message sent (0 before the first).
    pub closed spec fn last_id(&self) -> u32 {
        self.msg_id
    }

    /// State of a fresh connection.
    pub fn new() -> (s: TransportState)
        ensures
            s.last_id() == 0,
    {
        TransportState { msg_id: 0 }
    }

    /// The number of the last envelope message sent.
    pub fn msg_id(&self) -> (id: u32)
        ensures
            id == self.last_id(),
    {
        self.msg_id
    }

    /// Takes the next message number.
    pub fn next_msg_id(&mut self) -> (id: u32)
        requires
            old(self).last_id() < u32::MAX,
        ensures
            id == old(self).last_id() + 1,
            final(self).last_id() == id,
    {
        self.msg_id = self.msg_id + 1;
        self.msg_id
    }

    /// The authentication message, numbered with the next message number.
    pub fn authenticate(&mut self, jwt: &str, now_ms: u64) -> (m: Authenticate)
        requires
            old(self).last_id() < u32::MAX,
        ensures
            final(self).last_id() == old(self).last_id() + 1,
            m.msg_id == Some(final(self).last_id()),
            m.msg_date == Some(now_ms),
            m.jwt matches Some(j) && j@ == jwt@,
    {
        let id = self.next_msg_id();
        Authenticate { msg_id: Some(id), msg_date: Some(now_ms), jwt: Some(jwt.to_owned()) }
    }

    /// Subscription to the default channel (the one the JWT names).
    pub fn subscribe_default(&mut self, now_ms: u64) -> (m: Subscribe)
        requires
            old(self).last_id() < u32::MAX,
        ensures
            final(self).last_id() == old(self).last_id() + 1,
            m.msg_id == Some(final(self).last_id()),
            m.msg_date == Some(now_ms),
            m.proto == Some(QP_QCONNECT),
            m.channels@.len() == 0,
    {
        let id = self.next_msg_id();
        Subscribe { msg_id: Some(id), msg_date: Some(now_ms), proto: Some(QP_QCONNECT), channels: Vec::new() }
    }

    /// Subscription to one given channel.
    pub fn subscribe(&mut self, channel: &[u8], now_ms: u64) -> (m: Subscribe)
        requires
            old(self).last_id() < u32::MAX,
        ensures
            final(self).last_id() == old(self).last_id() + 1,
            m.msg_id == Some(final(self).last_id()),
            m.msg_date == Some(now_ms),
            m.proto == Some(QP_QCONNECT),
            m.channels@.len() == 1,
            m.channels@[0]@ == channel@,
    {
        let id = self.next_msg_id();
        let mut channels: Vec<Vec<u8>> = Vec::new();
        channels.push(copy_range(channel, 0, channel.len()));
        assert(channels@[0]@ =~= channel@);
        Subscribe { msg_id: Some(id), msg_date: Some(now_ms), proto: Some(QP_QCONNECT), channels }
    }

    /// The envelope payload that carries an encoded batch.
    pub fn payload_for(&mut self, batch_bytes: Vec<u8>, now_ms: u64) -> (m: Payload)
        requires
            old(self).last_id() < u32::MAX,
        ensures
            final(self).last_id() == old(self).last_id() + 1,
            m == (Payload {
                msg_id: Some(final(self).last_id()),
                msg_date: Some(now_ms),
                proto: Some(QP_QCONNECT),
                src: None,
                dests: m.dests,
                payload: Some(batch_bytes),
            }),
            m.dests@.len() == 0,
    {
        let id = self.next_msg_id();
        Payload {
            msg_id: Some(id),
            msg_date: Some(now_ms),
            proto: Some(QP_QCONNECT),
            src: None,
            dests: Vec::new(),
            payload: Some(batch_bytes),
        }
    }

    /// A batch holding one message. The batch is numbered with the last
    /// message number (as a signed 32-bit number); no number is taken.
    pub fn batch_of_one(&self, msg: QConnectMessage, now_ms: u64) -> (b: QConnectBatch)
        ensures
            b.messages_time == Some(now_ms),
            b.messages_id == Some(self.last_id() as i32),
            b.messages@ == seq![msg],
    {
        let mut messages: Vec<QConnectMessage> = Vec::new();
        messages.push(msg);
        let id: i32 = #[verifier::truncate] (self.msg_id as i32);
        QConnectBatch { messages_time: Some(now_ms), messages_id: Some(id), messages }
    }
}

/// Brand advertised by this device.
pub open spec fn brand_name() -> Seq<char> {
    seq!['Q', 'o', 'n', 'd', 'u', 'c', 't', 'o', 'r']
}

/// Model advertised by this device.
pub open spec fn model_name() -> Seq<char> {
    brand_name() + seq![' ', 'R', 'u', 's', 't']
}

/// Prefix of the software version string.
pub open spec fn software_prefix() -> Seq<char> {
    seq!['q', 'o', 'n', 'd', 'u', 'c', 't', 'o', 'r', '-']
}

/// The brand name as a string.
pub fn brand_string() -> (s: String)
    ensures
        s@ == brand_name(),
{
    let s = "Qonductor".to_owned();
    proof { reveal_strlit("Qonductor"); }
    s
}

/// The model name as a string.
pub fn model_string() -> (s: String)
    ensures
        s@ == model_name(),
{
    let s = "Qonductor Rust".to_owned();
    proof { reveal_strlit("Qonductor Rust"); }
    assert(s@ =~= model_name());
    s
}

/// Whether `info` describes this device: the given identifier and name,
/// this library's brand and model, a speaker with audio quality levels 1 to 4
/// and volume remote control mode 2, and the given software version after
/// the library's prefix.
pub open spec fn is_device_info(info: DeviceInfo, uuid: Seq<u8>, name: Seq<char>, version: Seq<char>) -> bool {
    &&& info.device_uuid matches Some(u) && u@ == uuid
    &&& info.friendly_name matches Some(n) && n@ == name
    &&& info.brand matches Some(b) && b@ == brand_name()
    &&& info.model matches Some(md) && md@ == model_name()
    &&& info.serial_number is None
    &&& info.device_type == Some(DeviceType::Speaker.spec_number())
    &&& info.capabilities == Some(DeviceCapabilities {
        min_audio_quality: Some(1),
        max_audio_quality: Some(4),
        volume_remote_control: Some(2),
    })
    &&& info.software_version matches Some(sv) && sv@ == software_prefix() + version
}

/// Whether `j` is the join request of this device (no session given).
pub open spec fn is_join_request(j: CtrlSrvrJoinSession, uuid: Seq<u8>, name: Seq<char>, version: Seq<char>) -> bool {
    &&& j.session_uuid is None
    &&& j.device_info matches Some(info) && is_device_info(info, uuid, name, version)
}

/// The message by which a device joins the session (the server takes the
/// session from the JWT). It advertises a speaker with audio quality
/// levels 1 to 4 and volume remote control mode 2.
pub fn join_session_message(device_uuid: &[u8; 16], friendly_name: &str, version: &str) -> (m: QConnectMessage)
    ensures
        m == (QConnectMessage {
            message_type: Some(MT_CTRL_SRVR_JOIN_SESSION),
            ctrl_srvr_join_session: m.ctrl_srvr_join_session,
            ..spec_blank_message(Some(MT_CTRL_SRVR_JOIN_SESSION))
        }),
        m.ctrl_srvr_join_session matches Some(j) && is_join_request(j, device_uuid@, friendly_name@, version@),
{
    let mut sv = "qonductor-".to_owned();
    proof { reveal_strlit("qonductor-"); }
    assert(sv@ =~= software_prefix());
    sv.append(version);
    let sl = device_uuid.as_slice();
    let u = copy_range(sl, 0, 16);
    assert(u@ =~= device_uuid@);
    let info = DeviceInfo {
        device_uuid: Some(u),
        friendly_name: Some(friendly_name.to_owned()),
        brand: Some(brand_string()),
        model: Some(model_string()),
        serial_number: None,
        device_type: Some(DeviceType::Speaker.number()),
        capabilities: Some(DeviceCapabilities {
            min_audio_quality: Some(1),
            max_audio_quality: Some(4),
            volume_remote_control: Some(2),
        }),
        software_version: Some(sv),
    };
    let mut m = QConnectMessage::blank(Some(MT_CTRL_SRVR_JOIN_SESSION));
    m.ctrl_srvr_join_session = Some(CtrlSrvrJoinSession { session_uuid: None, device_info: Some(info) });
    m
}

/// The queue version as a message field.
pub open spec fn spec_queue_version(v: Option<(u64, i32)>) -> Option<QueueVersion> {
    match v {
        Some((major, minor)) => Some(QueueVersion { major: Some(major), minor: Some(minor) }),
        None => None,
    }
}

/// Whether `a` asks for the queue with the given identifier at the given version.
pub open spec fn is_queue_state_request(a: CtrlSrvrAskForQueueState, uuid: Seq<u8>, version: Option<(u64, i32)>) -> bool {
    &&& a.queue_uuid matches Some(u) && u@ == uuid
    &&& a.queue_version == spec_queue_version(version)
}

/// The message asking for the queue state of the given queue, at the given
/// version if one is known.
pub fn ask_for_queue_state_message(queue_uuid: &[u8; 16], queue_version: Option<(u64, i32)>) -> (m: QConnectMessage)
    ensures
        is_queue_state_request_message(m, queue_uuid@, queue_version),
{
    let qv = match queue_version {
        Some((major, minor)) => Some(QueueVersion { major: Some(major), minor: Some(minor) }),
        None => None,
    };
    let sl = queue_uuid.as_slice();
    let u = copy_range(sl, 0, 16);
    assert(u@ =~= queue_uuid@);
    let mut m = QConnectMessage::blank(Some(MT_CTRL_SRVR_ASK_FOR_QUEUE_STATE));
    m.ctrl_srvr_ask_for_queue_state = Some(CtrlSrvrAskForQueueState {
        queue_version: qv,
        queue_uuid: Some(u),
    });
    m
}

/// The message asking for the renderer state of the given session.
pub open spec fn spec_ask_for_renderer_state(session_id: u64) -> QConnectMessage {
    QConnectMessage {
        ctrl_srvr_ask_for_renderer_state: Some(CtrlSrvrAskForRendererState { session_id: Some(session_id) }),
        ..spec_blank_message(Some(MT_CTRL_SRVR_ASK_FOR_RENDERER_STATE))
    }
}

/// The message declaring the given renderer active (its low 32 bits, signed).
pub open spec fn spec_set_active_renderer(renderer_id: u64) -> QConnectMessage {
    QConnectMessage {
        ctrl_srvr_set_active_renderer: Some(CtrlSrvrSetActiveRenderer { renderer_id: Some(renderer_id as i32) }),
        ..spec_blank_message(Some(MT_CTRL_SRVR_SET_ACTIVE_RENDERER))
    }
}

/// Whether `m` is the message asking for the queue with the given
/// identifier at the given version.
pub open spec fn is_queue_state_request_message(m: QConnectMessage, uuid: Seq<u8>, version: Option<(u64, i32)>) -> bool {
    &&& m == (QConnectMessage {
            ctrl_srvr_ask_for_queue_state: m.ctrl_srvr_ask_for_queue_state,
            ..spec_blank_message(Some(MT_CTRL_SRVR_ASK_FOR_QUEUE_STATE))
        })
    &&& m.ctrl_srvr_ask_for_queue_state matches Some(a) && is_queue_state_request(a, uuid, version)
}

/// The message asking for the renderer state of the given session.
pub fn ask_for_renderer_state_message(session_id: u64) -> (m: QConnectMessage)
    ensures
        m == spec_ask_for_renderer_state(session_id),
{
    let mut m = QConnectMessage::blank(Some(MT_CTRL_SRVR_ASK_FOR_RENDERER_STATE));
    m.ctrl_srvr_ask_for_renderer_state = Some(CtrlSrvrAskForRendererState { session_id: Some(session_id) });
    m
}

/// The message declaring the given renderer active. The identifier is sent
/// as a signed 32-bit number (its low 32 bits).
pub fn set_active_renderer_message(renderer_id: u64) -> (m: QConnectMessage)
    ensures
        m == spec_set_active_renderer(renderer_id),
{
    let rid: i32 = #[verifier::truncate] (renderer_id as i32);
    let mut m = QConnectMessage::blank(Some(MT_CTRL_SRVR_SET_ACTIVE_RENDERER));
    m.ctrl_srvr_set_active_renderer = Some(CtrlSrvrSetActiveRenderer { renderer_id: Some(rid) });
    m
}

/// Law: the set-active-renderer message is of type 63 and names the given
/// renderer (its low 32 bits, as a signed number), and carries no other
/// body.
pub proof fn lemma_set_active_renderer_names_renderer(renderer_id: u64)
    ensures
        ({
            let m = spec_set_active_renderer(renderer_id);
            &&& m.message_type == Some(63i32)
            &&& m.ctrl_srvr_set_active_renderer matches Some(a) && a.renderer_id == Some(renderer_id as i32)
            &&& m.ctrl_srvr_join_session is None
            &&& m.ctrl_srvr_ask_for_queue_state is None
            &&& m.ctrl_srvr_ask_for_renderer_state is None
        }),
{
}

} // verus!
