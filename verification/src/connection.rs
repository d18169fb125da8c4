//! Text forms of messages and envelopes for logs and inspection, the
//! decoding of inspected input, and the clock that stamps outgoing
//! messages.

use vstd::prelude::*;
use vstd::utf8::encode_utf8;
use crate::proto::QConnectMessage;
use crate::message_text::{message_text, write_message};
use crate::text::chars_of;
use crate::wire::{decode_varint, lemma_varint_decode_bounds, varint_decode, copy_range, MSG_AUTHENTICATE, MSG_ERROR, MSG_PAYLOAD, MSG_PONG, MSG_SUBSCRIBE};
use crate::wrappers::{base64_standard_decode, base64_standard_decoded, base64_url_safe_decode, base64_url_safe_decoded};

verus! {

/// The text that shows a message: the body that its type selects, in the
/// layout of Rust's `Debug` (a missing type counts as 0); `None` for a type
/// whose body this library does not model.
pub fn format_qconnect_message(msg: &QConnectMessage) -> (s: String)
    ensures
        s@ == message_text(*msg),
{
    write_message(msg)
}

/// The name of an envelope type.
pub open spec fn envelope_type_label(t: i32) -> Seq<char> {
    if t == 1 {
        "AUTHENTICATE"@
    } else if t == 2 {
        "SUBSCRIBE"@
    } else if t == 6 {
        "PAYLOAD"@
    } else if t == 9 {
        "ERROR"@
    } else if t == 10 {
        "PONG"@
    } else {
        "UNKNOWN"@
    }
}

/// Law: the envelope types are named by their protocol names, spelled
/// out; any other type is `UNKNOWN`.
pub proof fn lemma_envelope_type_labels(t: i32)
    ensures
        envelope_type_label(1) =~= seq!['A', 'U', 'T', 'H', 'E', 'N', 'T', 'I', 'C', 'A', 'T', 'E'],
        envelope_type_label(2) =~= seq!['S', 'U', 'B', 'S', 'C', 'R', 'I', 'B', 'E'],
        envelope_type_label(6) =~= seq!['P', 'A', 'Y', 'L', 'O', 'A', 'D'],
        envelope_type_label(9) =~= seq!['E', 'R', 'R', 'O', 'R'],
        envelope_type_label(10) =~= seq!['P', 'O', 'N', 'G'],
        !(t == 1 || t == 2 || t == 6 || t == 9 || t == 10) ==> envelope_type_label(t) =~= seq!['U', 'N', 'K', 'N', 'O', 'W', 'N'],
{
    reveal_strlit("AUTHENTICATE");
    reveal_strlit("SUBSCRIBE");
    reveal_strlit("PAYLOAD");
    reveal_strlit("ERROR");
    reveal_strlit("PONG");
    reveal_strlit("UNKNOWN");
}

/// The name of an envelope type.
pub fn envelope_type_name(t: i32) -> (s: &'static str)
    ensures
        s@ == envelope_type_label(t),
{
    if t == MSG_AUTHENTICATE {
        "AUTHENTICATE"
    } else if t == MSG_SUBSCRIBE {
        "SUBSCRIBE"
    } else if t == MSG_PAYLOAD {
        "PAYLOAD"
    } else if t == MSG_ERROR {
        "ERROR"
    } else if t == MSG_PONG {
        "PONG"
    } else {
        "UNKNOWN"
    }
}

/// Whether `c` is an ASCII hexadecimal digit.
pub open spec fn is_hex_digit(c: char) -> bool {
    ('0' <= c <= '9') || ('a' <= c <= 'f') || ('A' <= c <= 'F')
}

/// The value of a hexadecimal digit.
pub open spec fn hex_value(c: char) -> int {
    if '0' <= c <= '9' {
        c as int - '0' as int
    } else if 'a' <= c <= 'f' {
        c as int - 'a' as int + 10
    } else {
        c as int - 'A' as int + 10
    }
}

/// The bytes that pairs of hexadecimal digits spell, high digit first.
pub open spec fn hex_pairs(s: Seq<char>) -> Seq<u8> {
    Seq::new(s.len() / 2, |i: int| (hex_value(s[2 * i]) * 16 + hex_value(s[2 * i + 1])) as u8)
}

/// What inspected input decodes to: hexadecimal where every character is a
/// hex digit and there is an even number of them, else standard base64,
/// else URL-safe base64; `None` where none of them reads it.
pub open spec fn input_bytes(s: Seq<char>) -> Option<Seq<u8>> {
    if (forall|i: int| 0 <= i < s.len() ==> is_hex_digit(#[trigger] s[i])) && s.len() % 2 == 0 {
        Some(hex_pairs(s))
    } else {
        match base64_standard_decoded(encode_utf8(s)) {
            Some(d) => Some(d),
            None => base64_url_safe_decoded(encode_utf8(s)),
        }
    }
}

fn hex_value_exec(c: char) -> (v: u8)
    requires
        is_hex_digit(c),
    ensures
        v as int == hex_value(c),
        v < 16,
{
    if '0' <= c && c <= '9' {
        (c as u32 - '0' as u32) as u8
    } else if 'a' <= c && c <= 'f' {
        (c as u32 - 'a' as u32 + 10) as u8
    } else {
        (c as u32 - 'A' as u32 + 10) as u8
    }
}

/// Decodes the input of the inspection tool (see `input_bytes`).
pub fn decode_input(input: &str) -> (r: Option<Vec<u8>>)
    ensures
        match input_bytes(input@) {
            Some(d) => r matches Some(v) && v@ == d,
            None => r is None,
        },
{
    let cs = chars_of(input);
    let mut all_hex = true;
    let mut i: usize = 0;
    while i < cs.len()
        invariant
            i <= cs@.len(),
            all_hex == (forall|j: int| 0 <= j < i ==> is_hex_digit(#[trigger] cs@[j])),
        decreases cs@.len() - i,
    {
        let c = cs[i];
        let h = ('0' <= c && c <= '9') || ('a' <= c && c <= 'f') || ('A' <= c && c <= 'F');
        if !h {
            all_hex = false;
        }
        i += 1;
    }
    if all_hex && cs.len() % 2 == 0 {
        let mut out: Vec<u8> = Vec::new();
        let mut k: usize = 0;
        while k < cs.len() / 2
            invariant
                cs@ == input@,
                cs@.len() % 2 == 0,
                forall|j: int| 0 <= j < cs@.len() ==> is_hex_digit(#[trigger] cs@[j]),
                k <= cs@.len() / 2,
                out@ == hex_pairs(cs@).take(k as int),
            decreases cs@.len() / 2 - k,
        {
            let hi = hex_value_exec(cs[2 * k]);
            let lo = hex_value_exec(cs[2 * k + 1]);
            out.push(hi * 16 + lo);
            k += 1;
            assert(out@ =~= hex_pairs(cs@).take(k as int));
        }
        assert(out@ =~= hex_pairs(cs@));
        return Some(out);
    }
    assert(!(forall|j: int| 0 <= j < input@.len() ==> is_hex_digit(#[trigger] input@[j])) || input@.len() % 2 != 0);
    let bytes = input.as_bytes();
    match base64_standard_decode(bytes) {
        Some(d) => Some(d),
        None => base64_url_safe_decode(bytes),
    }
}

/// What the inspection tool finds in an envelope.
#[derive(Debug, Clone, PartialEq)]
pub enum EnvelopeInspection {
    /// No bytes at all.
    Empty,
    /// The length prefix is no valid varint.
    BadLength { msg_type: i32 },
    /// Fewer bytes than the prefix announces: `expected` in all, `got`.
    Incomplete { msg_type: i32, payload_len: u64, varint_len: usize, expected: u128, got: usize },
    /// The type, the announced length, the prefix's size and the payload.
    Complete { msg_type: i32, payload_len: u64, varint_len: usize, payload: Vec<u8> },
}

/// Inspects an envelope: its type byte, its length prefix and, where all
/// of it is there, its payload.
pub fn inspect_envelope(data: &[u8]) -> (r: EnvelopeInspection)
    ensures
        data@.len() == 0 ==> r == EnvelopeInspection::Empty,
        data@.len() > 0 ==> match varint_decode(data@.drop_first()) {
            None => r == EnvelopeInspection::BadLength { msg_type: data@[0] as i32 },
            Some((len, n)) => if data@.len() < 1 + n + len {
                r == EnvelopeInspection::Incomplete {
                    msg_type: data@[0] as i32,
                    payload_len: len as u64,
                    varint_len: n as usize,
                    expected: (1 + n + len) as u128,
                    got: data@.len() as usize,
                }
            } else {
                r matches EnvelopeInspection::Complete { msg_type, payload_len, varint_len, payload }
                    && msg_type == data@[0] as i32 && payload_len == len && varint_len == n
                    && payload@ == data@.subrange(1 + n as int, 1 + n + len as int)
            },
        },
{
    if data.len() == 0 {
        return EnvelopeInspection::Empty;
    }
    let msg_type = data[0] as i32;
    assert(data@.skip(1) =~= data@.drop_first());
    proof { lemma_varint_decode_bounds(data@.drop_first()); }
    match decode_varint(data, 1) {
        None => EnvelopeInspection::BadLength { msg_type },
        Some((payload_len, varint_len)) => {
            let payload_start = 1 + varint_len;
            let available = data.len() - payload_start;
            if (available as u64) < payload_len {
                EnvelopeInspection::Incomplete {
                    msg_type,
                    payload_len,
                    varint_len,
                    expected: payload_start as u128 + payload_len as u128,
                    got: data.len(),
                }
            } else {
                let payload = copy_range(data, payload_start, payload_start + payload_len as usize);
                EnvelopeInspection::Complete { msg_type, payload_len, varint_len, payload }
            }
        },
    }
}

// ---------------------------------------------------------------------------
// Clock
// ---------------------------------------------------------------------------

/// Declares `std::time::SystemTime`, a point in time.
#[verifier::external_type_specification]
#[verifier::external_body]
pub struct ExSystemTime(std::time::SystemTime);

/// Calls `SystemTime::now` of std. Nothing is stated of the time.
#[verifier::external_body]
fn system_time_now() -> std::time::SystemTime {
    std::time::SystemTime::now()
}

/// Calls `SystemTime::duration_since(UNIX_EPOCH)` of std: the time elapsed
/// since the epoch, `None` where the clock is set before it. Nothing is
/// stated of the duration.
#[verifier::external_body]
fn since_epoch(t: std::time::SystemTime) -> Option<core::time::Duration> {
    t.duration_since(std::time::UNIX_EPOCH).ok()
}

/// Calls `Duration::as_millis` of std. Nothing is stated of the count.
#[verifier::external_body]
fn duration_millis(d: core::time::Duration) -> u128 {
    d.as_millis()
}

/// The 64-bit millisecond count stamped on messages, from the milliseconds
/// elapsed since the Unix epoch: their low 64 bits, or 0 where the clock is
/// set before the epoch (`None`).
pub fn ms_since_epoch(millis: Option<u128>) -> (ms: u64)
    ensures
        ms == (match millis {
            Some(m) => m as u64,
            None => 0u64,
        }),
{
    match millis {
        Some(m) => {
            #[verifier::truncate]
            (m as u64)
        },
        None => 0,
    }
}

/// Milliseconds since the Unix epoch by the system clock, cut to 64 bits;
/// 0 where the clock is set before the epoch (see `ms_since_epoch`).
pub fn now_ms() -> u64 {
    let millis = match since_epoch(system_time_now()) {
        Some(d) => Some(duration_millis(d)),
        None => None,
    };
    ms_since_epoch(millis)
}

} // verus!
