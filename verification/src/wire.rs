//! Envelope framing of the QConnect WebSocket protocol.
//!
//! A frame is `[msg_type: 1 byte] [payload_len: LEB128 varint] [payload]`.

use vstd::prelude::*;

verus! {

/// Envelope type of an authentication message.
pub const MSG_AUTHENTICATE: i32 = 1;
/// Envelope type of a channel subscription.
pub const MSG_SUBSCRIBE: i32 = 2;
/// Envelope type of a payload carrying a QConnect batch.
pub const MSG_PAYLOAD: i32 = 6;
/// Envelope type of an error reported by the server.
pub const MSG_ERROR: i32 = 9;
/// Envelope type of a pong.
pub const MSG_PONG: i32 = 10;

/// The LEB128 encoding of `v`: seven bits per byte, least significant
/// group first, the high bit set on every byte but the last.
pub open spec fn varint_bytes(v: nat) -> Seq<u8>
    decreases v,
{
    if v < 128 {
        seq![v as u8]
    } else {
        seq![(v % 128 + 128) as u8] + varint_bytes(v / 128)
    }
}

/// Decoding of a varint that starts at the front of `s`, where `i` bytes of
/// the same varint came before. A varint ends at the first byte below 0x80;
/// it may have at most ten bytes, and a tenth byte must be 0 or 1 (so that
/// the value fits in 64 bits). Yields the value and the number of bytes read.
pub open spec fn varint_decode_from(s: Seq<u8>, i: nat) -> Option<(nat, nat)>
    decreases s.len(),
{
    if s.len() == 0 || i >= 10 {
        None
    } else if s[0] < 128 {
        if i == 9 && s[0] >= 2 {
            None
        } else {
            Some((s[0] as nat, 1))
        }
    } else {
        match varint_decode_from(s.drop_first(), i + 1) {
            None => None,
            Some((v, n)) => Some(((s[0] - 128) as nat + 128 * v, n + 1)),
        }
    }
}

/// Decoding of the varint at the front of `s`: its value and its length.
pub open spec fn varint_decode(s: Seq<u8>) -> Option<(nat, nat)> {
    varint_decode_from(s, 0)
}

/// Bound on the value of a varint whose first byte is the `i`-th of the varint:
/// `2^(64 - 7 i)`.
pub open spec fn varint_limit(i: nat) -> nat {
    if i == 0 { 0x1_0000_0000_0000_0000 }
    else if i == 1 { 0x200_0000_0000_0000 }
    else if i == 2 { 0x4_0000_0000_0000 }
    else if i == 3 { 0x800_0000_0000 }
    else if i == 4 { 0x10_0000_0000 }
    else if i == 5 { 0x2000_0000 }
    else if i == 6 { 0x40_0000 }
    else if i == 7 { 0x8000 }
    else if i == 8 { 0x100 }
    else if i == 9 { 2 }
    else { 0 }
}

proof fn lemma_decode_bounds(s: Seq<u8>, i: nat)
    ensures
        varint_decode_from(s, i) matches Some((v, n)) ==> v < varint_limit(i) && 1 <= n
            && n <= s.len() && i + n <= 10,
    decreases s.len(),
{
    if s.len() > 0 && i < 10 && s[0] >= 128 {
        lemma_decode_bounds(s.drop_first(), i + 1);
    }
}

/// A decoded varint's value fits in 64 bits, and it takes one to ten of
/// the bytes at hand.
pub proof fn lemma_varint_decode_bounds(s: Seq<u8>)
    ensures
        varint_decode(s) matches Some((v, n)) ==> v < 0x1_0000_0000_0000_0000 && 1 <= n <= 10
            && n <= s.len(),
{
    lemma_decode_bounds(s, 0);
}

fn decode_at(data: &[u8], pos: usize, i: usize) -> (res: Option<(u64, usize)>)
    requires
        pos <= data@.len(),
        i <= 10,
    ensures
        match varint_decode_from(data@.skip(pos as int), i as nat) {
            None => res is None,
            Some((v, n)) => res == Some((v as u64, n as usize)),
        },
    decreases data@.len() - pos,
{
    proof { lemma_decode_bounds(data@.skip(pos as int), i as nat); }
    if pos >= data.len() || i >= 10 {
        return None;
    }
    let b = data[pos];
    if b < 128 {
        if i == 9 && b >= 2 {
            None
        } else {
            Some((b as u64, 1))
        }
    } else {
        proof {
            assert(data@.skip(pos as int).drop_first() =~= data@.skip(pos + 1));
            lemma_decode_bounds(data@.skip(pos + 1), (i + 1) as nat);
        }
        match decode_at(data, pos + 1, i + 1) {
            None => None,
            Some((v, n)) => {
                assert(v < varint_limit((i + 1) as nat));
                assert((b - 128) as nat + 128 * v < varint_limit(i as nat));
                Some(((b - 128) as u64 + 128 * v, n + 1))
            },
        }
    }
}

/// Decodes the LEB128 varint that starts at `data[pos]`: its value and the
/// number of bytes it takes, or `None` where the bytes hold no valid varint.
pub fn decode_varint(data: &[u8], pos: usize) -> (res: Option<(u64, usize)>)
    requires
        pos <= data@.len(),
    ensures
        match varint_decode(data@.skip(pos as int)) {
            None => res is None,
            Some((v, n)) => res == Some((v as u64, n as usize)),
        },
        res matches Some((v, n)) ==> 1 <= n <= 10 && pos + n <= data@.len(),
{
    proof { lemma_decode_bounds(data@.skip(pos as int), 0); }
    decode_at(data, pos, 0)
}


proof fn lemma_varint_bytes_len(v: nat)
    ensures
        1 <= varint_bytes(v).len(),
        v < varint_limit(0) ==> varint_bytes(v).len() <= 10,
    decreases v,
{
    if v >= 128 {
        lemma_varint_bytes_len(v / 128);
    }
    if v < varint_limit(0) {
        lemma_varint_bytes_len_at(v, 0);
    }
}

proof fn lemma_varint_bytes_len_at(v: nat, i: nat)
    requires
        i <= 9,
        v < varint_limit(i),
    ensures
        i + varint_bytes(v).len() <= 10,
    decreases v,
{
    if v >= 128 {
        lemma_varint_bytes_len_at(v / 128, i + 1);
    }
}

/// A varint decoder reads back what the encoder wrote, whatever bytes follow.
pub proof fn lemma_varint_roundtrip_at(v: nat, i: nat, rest: Seq<u8>)
    requires
        i <= 9,
        v < varint_limit(i),
    ensures
        varint_decode_from(varint_bytes(v) + rest, i) == Some((v, varint_bytes(v).len())),
    decreases v,
{
    let s = varint_bytes(v) + rest;
    if v >= 128 {
        lemma_varint_roundtrip_at(v / 128, i + 1, rest);
        assert(s.drop_first() =~= varint_bytes(v / 128) + rest);
    }
}

/// Law: decoding the encoding of any 64-bit value, followed by any bytes,
/// gives back the value and the length of its encoding.
pub proof fn lemma_varint_roundtrip(v: u64, rest: Seq<u8>)
    ensures
        varint_decode(varint_bytes(v as nat) + rest) == Some((v as nat, varint_bytes(v as nat).len())),
{
    lemma_varint_roundtrip_at(v as nat, 0, rest);
}

/// Appends the LEB128 encoding of `value` to `buf`.
pub fn encode_varint(value: u64, buf: &mut Vec<u8>)
    ensures
        final(buf)@ == old(buf)@ + varint_bytes(value as nat),
    decreases value,
{
    if value < 128 {
        buf.push(value as u8);
        assert(varint_bytes(value as nat) =~= seq![value as u8]);
    } else {
        buf.push((value % 128 + 128) as u8);
        let ghost mid = buf@;
        encode_varint(value / 128, buf);
        assert(buf@ =~= old(buf)@ + varint_bytes(value as nat));
    }
}


/// The bytes of an envelope of type `msg_type` (kept to its low byte) around `data`.
pub open spec fn envelope_bytes(msg_type: i32, data: Seq<u8>) -> Seq<u8> {
    seq![msg_type as u8] + varint_bytes(data.len()) + data
}

/// Encodes an envelope frame: `[msg_type: 1 byte] [payload_len: varint] [payload]`.
/// Only the low byte of `msg_type` is written.
pub fn encode_envelope(msg_type: i32, data: &[u8]) -> (buf: Vec<u8>)
    ensures
        buf@ == envelope_bytes(msg_type, data@),
{
    let mut buf: Vec<u8> = Vec::new();
    let t: u8 = #[verifier::truncate] (msg_type as u8);
    buf.push(t);
    encode_varint(data.len() as u64, &mut buf);
    let ghost head = buf@;
    let mut i: usize = 0;
    while i < data.len()
        invariant
            i <= data@.len(),
            head == seq![msg_type as u8] + varint_bytes(data@.len()),
            buf@ == head + data@.take(i as int),
        decreases data@.len() - i,
    {
        buf.push(data[i]);
        i += 1;
        assert(data@.take(i as int) =~= data@.take(i - 1) + seq![data@[i - 1]]);
        assert(buf@ =~= head + data@.take(i as int));
    }
    assert(data@.take(i as int) =~= data@);
    buf
}

/// A decoded envelope frame.
#[derive(Debug, Clone, PartialEq, Eq)]
pub struct Frame {
    /// The envelope type byte.
    pub msg_type: i32,
    /// The payload, exactly as many bytes as the length prefix announced.
    pub payload: Vec<u8>,
}

/// What a frame parse yields on `d`: the type byte and the payload, or
/// `None` where `d` is empty, its length prefix is no valid varint, or it
/// holds fewer bytes than the prefix announces. Bytes after the payload
/// are ignored.
pub open spec fn frame_parse(d: Seq<u8>) -> Option<(u8, Seq<u8>)> {
    if d.len() == 0 {
        None
    } else {
        match varint_decode(d.drop_first()) {
            None => None,
            Some((len, n)) => if d.len() < 1 + n + len {
                None
            } else {
                Some((d[0], d.subrange(1 + n as int, 1 + n + len as int)))
            },
        }
    }
}

/// Copies `data[start..end]` into a new vector.
pub fn copy_range(data: &[u8], start: usize, end: usize) -> (out: Vec<u8>)
    requires
        start <= end <= data@.len(),
    ensures
        out@ == data@.subrange(start as int, end as int),
{
    let mut out: Vec<u8> = Vec::new();
    let mut i: usize = start;
    while i < end
        invariant
            start <= i <= end <= data@.len(),
            out@ == data@.subrange(start as int, i as int),
        decreases end - i,
    {
        out.push(data[i]);
        i += 1;
        assert(out@ =~= data@.subrange(start as int, i as int));
    }
    out
}

/// Copies `data[start..end]` into a new vector.
pub fn copy_chars(data: &[char], start: usize, end: usize) -> (out: Vec<char>)
    requires
        start <= end <= data@.len(),
    ensures
        out@ == data@.subrange(start as int, end as int),
{
    let mut out: Vec<char> = Vec::new();
    let mut i: usize = start;
    while i < end
        invariant
            start <= i <= end <= data@.len(),
            out@ == data@.subrange(start as int, i as int),
        decreases end - i,
    {
        out.push(data[i]);
        i += 1;
        assert(out@ =~= data@.subrange(start as int, i as int));
    }
    out
}

/// Parses an envelope frame: the type byte and the announced payload.
pub fn parse_frame(data: &[u8]) -> (res: Option<Frame>)
    ensures
        match frame_parse(data@) {
            None => res is None,
            Some((t, p)) => res matches Some(f) && f.msg_type == t as i32 && f.payload@ == p,
        },
{
    if data.len() == 0 {
        return None;
    }
    let msg_type = data[0] as i32;
    proof {
        assert(data@.skip(1) =~= data@.drop_first());
        lemma_decode_bounds(data@.drop_first(), 0);
    }
    match decode_varint(data, 1) {
        None => None,
        Some((payload_len, varint_len)) => {
            let payload_start = 1 + varint_len;
            let available = data.len() - payload_start;
            if (available as u64) < payload_len {
                None
            } else {
                let payload = copy_range(data, payload_start, payload_start + payload_len as usize);
                Some(Frame { msg_type, payload })
            }
        },
    }
}

/// Law: parsing an encoded envelope gives back the type byte and the
/// payload, whatever bytes follow it.
pub proof fn lemma_envelope_roundtrip(msg_type: i32, data: Seq<u8>, rest: Seq<u8>)
    requires
        data.len() < varint_limit(0),
    ensures
        frame_parse(envelope_bytes(msg_type, data) + rest) == Some((msg_type as u8, data)),
{
    let d = envelope_bytes(msg_type, data) + rest;
    let vb = varint_bytes(data.len());
    assert(d.drop_first() =~= vb + (data + rest));
    lemma_varint_roundtrip_at(data.len(), 0, data + rest);
    assert(d.subrange(1 + vb.len() as int, 1 + vb.len() + data.len() as int) =~= data);
}

} // verus!
