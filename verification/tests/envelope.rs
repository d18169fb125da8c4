use qonductor_verified::proto::{Payload, QConnectBatch};
use qonductor_verified::transport::{
    batch_of, read_batch, read_envelope, read_payload, EnvelopeRead, IncomingMessage, PayloadRead,
};
use qonductor_verified::wire::encode_varint;

/// Builds an envelope: [msg_type: 1 byte] [len: varint] [payload].
fn build_envelope(msg_type: u8, payload: &[u8]) -> Vec<u8> {
    let mut buf = vec![msg_type];
    encode_varint(payload.len() as u64, &mut buf);
    buf.extend_from_slice(payload);
    buf
}

fn field_varint(buf: &mut Vec<u8>, field: u64, value: u64) {
    encode_varint(field << 3, buf);
    encode_varint(value, buf);
}

fn field_bytes(buf: &mut Vec<u8>, field: u64, value: &[u8]) {
    encode_varint((field << 3) | 2, buf);
    encode_varint(value.len() as u64, buf);
    buf.extend_from_slice(value);
}

/// The protobuf bytes of a payload message (msg_id, msg_date, proto,
/// payload), as the server would send them.
fn encode_payload(p: &Payload) -> Vec<u8> {
    let mut buf = Vec::new();
    if let Some(v) = p.msg_id {
        field_varint(&mut buf, 1, v as u64);
    }
    if let Some(v) = p.msg_date {
        field_varint(&mut buf, 2, v);
    }
    if let Some(v) = p.proto {
        field_varint(&mut buf, 3, v as u64);
    }
    if let Some(inner) = &p.payload {
        field_bytes(&mut buf, 7, inner);
    }
    buf
}

fn encode_batch(b: &QConnectBatch) -> Vec<u8> {
    let mut buf = Vec::new();
    if let Some(v) = b.messages_time {
        field_varint(&mut buf, 1, v);
    }
    if let Some(v) = b.messages_id {
        field_varint(&mut buf, 2, v as u64);
    }
    buf
}

fn payload(msg_id: u32, inner: Option<Vec<u8>>) -> Payload {
    Payload { msg_id: Some(msg_id), msg_date: Some(1000), proto: Some(1), src: None, dests: vec![], payload: inner }
}

/// Reads an envelope to the end, with `payload_decoded` and
/// `batch_decoded` standing for what the protobuf decoder gives for the
/// payload bytes and the inner bytes.
fn read_all(
    data: &[u8],
    payload_decoded: Option<Payload>,
    batch_decoded: Option<QConnectBatch>,
    expected_payload_bytes: Option<&[u8]>,
) -> Option<IncomingMessage> {
    match read_envelope(data) {
        EnvelopeRead::Finished(m) => m,
        EnvelopeRead::DecodePayload(bytes) => {
            if let Some(expected) = expected_payload_bytes {
                assert_eq!(bytes.as_slice(), expected);
            }
            match read_payload(payload_decoded) {
                PayloadRead::Finished(m) => m,
                PayloadRead::DecodeBatch(p, _inner) => Some(read_batch(p, batch_decoded)),
            }
        }
    }
}

#[test]
fn transport_parse_envelope_empty_returns_none() {
    assert!(read_all(&[], None, None, None).is_none());
}

#[test]
fn connection_parse_envelope_empty_returns_none() {
    assert!(batch_of(read_all(&[], None, None, None)).is_none());
}

#[test]
fn transport_parse_envelope_incomplete_returns_none() {
    let mut data = vec![6u8];
    encode_varint(100, &mut data);
    data.extend_from_slice(&[1, 2, 3, 4, 5]);
    assert_eq!(read_envelope(&data), EnvelopeRead::Finished(None));
}

#[test]
fn connection_parse_envelope_incomplete_returns_none() {
    let mut data = vec![6u8];
    encode_varint(100, &mut data);
    data.extend_from_slice(&[1, 2, 3, 4, 5]);
    assert!(batch_of(read_all(&data, None, None, None)).is_none());
}

#[test]
fn parse_envelope_unknown_type_returns_other() {
    let payload = b"some data";
    let data = build_envelope(42, payload);
    match read_all(&data, None, None, None) {
        Some(IncomingMessage::Other { msg_type, data }) => {
            assert_eq!(msg_type, 42);
            assert_eq!(data, payload);
        }
        _ => panic!("Expected IncomingMessage::Other"),
    }
}

#[test]
fn parse_envelope_unknown_type_returns_none() {
    let data = build_envelope(42, b"some data");
    assert!(batch_of(read_all(&data, None, None, None)).is_none());
}

#[test]
fn parse_envelope_error_type_returns_other() {
    let payload = b"error message";
    let data = build_envelope(9, payload);
    match read_all(&data, None, None, None) {
        Some(IncomingMessage::Other { msg_type, data }) => {
            assert_eq!(msg_type, 9);
            assert_eq!(data, payload);
        }
        _ => panic!("Expected IncomingMessage::Other for error type"),
    }
}

#[test]
fn parse_envelope_error_type_returns_none() {
    let data = build_envelope(9, b"error message");
    assert!(batch_of(read_all(&data, None, None, None)).is_none());
}

#[test]
fn parse_envelope_payload_without_inner_batch() {
    let p = payload(123, None);
    let encoded = encode_payload(&p);
    let data = build_envelope(6, &encoded);
    match read_all(&data, Some(p), None, Some(&encoded)) {
        Some(IncomingMessage::Payload(p)) => {
            assert_eq!(p.msg_id, Some(123));
            assert_eq!(p.proto, Some(1));
        }
        _ => panic!("Expected IncomingMessage::Payload"),
    }
}

#[test]
fn parse_envelope_payload_without_inner_batch_returns_none() {
    let p = payload(123, None);
    let encoded = encode_payload(&p);
    let data = build_envelope(6, &encoded);
    assert!(batch_of(read_all(&data, Some(p), None, Some(&encoded))).is_none());
}

fn batch_envelope() -> (Vec<u8>, Payload, QConnectBatch) {
    let batch = QConnectBatch { messages_time: Some(2000), messages_id: Some(1), messages: vec![] };
    let p = payload(456, Some(encode_batch(&batch)));
    let data = build_envelope(6, &encode_payload(&p));
    (data, p, batch)
}

#[test]
fn transport_parse_envelope_payload_with_batch() {
    let (data, p, batch) = batch_envelope();
    match read_all(&data, Some(p), Some(batch), None) {
        Some(IncomingMessage::Batch(b)) => {
            assert_eq!(b.messages_time, Some(2000));
            assert_eq!(b.messages_id, Some(1));
            assert!(b.messages.is_empty());
        }
        _ => panic!("Expected IncomingMessage::Batch"),
    }
}

#[test]
fn connection_parse_envelope_payload_with_batch() {
    let (data, p, batch) = batch_envelope();
    let b = batch_of(read_all(&data, Some(p), Some(batch), None)).expect("Expected Some(QConnectBatch)");
    assert_eq!(b.messages_time, Some(2000));
    assert_eq!(b.messages_id, Some(1));
    assert!(b.messages.is_empty());
}

#[test]
fn parse_envelope_payload_with_invalid_inner_returns_payload() {
    let p = payload(789, Some(vec![0xff, 0xff, 0xff]));
    let data = build_envelope(6, &encode_payload(&p));
    match read_all(&data, Some(p), None, None) {
        Some(IncomingMessage::Payload(p)) => {
            assert_eq!(p.msg_id, Some(789));
        }
        _ => panic!("Expected IncomingMessage::Payload when inner decode fails"),
    }
}

#[test]
fn parse_envelope_payload_with_invalid_inner_returns_none() {
    let p = payload(789, Some(vec![0xff, 0xff, 0xff]));
    let data = build_envelope(6, &encode_payload(&p));
    assert!(batch_of(read_all(&data, Some(p), None, None)).is_none());
}

#[test]
fn payload_that_fails_to_decode_is_dropped() {
    let data = build_envelope(6, &[0xff, 0xff]);
    assert!(read_all(&data, None, None, None).is_none());
}

#[test]
fn read_payload_hands_over_inner_bytes() {
    let p = payload(5, Some(vec![1, 2, 3]));
    match read_payload(Some(p.clone())) {
        PayloadRead::DecodeBatch(q, inner) => {
            assert_eq!(q, p);
            assert_eq!(inner, vec![1, 2, 3]);
        }
        _ => panic!("Expected DecodeBatch"),
    }
}
