//! Framing of the outbound notification payload.
//!
//! The body sent to the chat webhook is the JSON object `{"text":"..."}`
//! holding the rendered message.  The message is escaped as a JSON string:
//! `"` and `\` get a backslash, the named control characters get their short
//! escapes, every other control character becomes `\u00` and two lowercase
//! hex digits, and all other bytes — multi-byte UTF-8 sequences included —
//! pass through unchanged.

use vstd::prelude::*;

use vstd::utf8::encode_utf8;

verus! {

/// The bytes of `{"text":"`.
pub open spec fn spec_payload_prefix() -> Seq<u8> {
    seq![0x7bu8, 0x22u8, 0x74u8, 0x65u8, 0x78u8, 0x74u8, 0x22u8, 0x3au8, 0x22u8]
}

/// The bytes of `"}`.
pub open spec fn spec_payload_suffix() -> Seq<u8> {
    seq![0x22u8, 0x7du8]
}

/// The lowercase hex digit for a value below 16.
pub open spec fn spec_hex_digit(n: int) -> u8 {
    if n < 10 {
        (0x30 + n) as u8
    } else {
        (0x57 + n) as u8
    }
}

/// What one byte of the message contributes to the escaped JSON string.
pub open spec fn spec_escape_byte(b: u8) -> Seq<u8> {
    if b == 0x22 {
        seq![0x5cu8, 0x22u8]
    } else if b == 0x5c {
        seq![0x5cu8, 0x5cu8]
    } else if b == 0x08 {
        seq![0x5cu8, 0x62u8]
    } else if b == 0x09 {
        seq![0x5cu8, 0x74u8]
    } else if b == 0x0a {
        seq![0x5cu8, 0x6eu8]
    } else if b == 0x0c {
        seq![0x5cu8, 0x66u8]
    } else if b == 0x0d {
        seq![0x5cu8, 0x72u8]
    } else if b < 0x20 {
        seq![
            0x5cu8,
            0x75u8,
            0x30u8,
            0x30u8,
            spec_hex_digit(b as int / 16),
            spec_hex_digit(b as int % 16),
        ]
    } else {
        seq![b]
    }
}

/// The escaped form of a byte sequence, byte by byte.
pub open spec fn spec_escape_bytes(s: Seq<u8>) -> Seq<u8>
    decreases s.len(),
{
    if s.len() == 0 {
        Seq::empty()
    } else {
        spec_escape_bytes(s.drop_last()) + spec_escape_byte(s.last())
    }
}

/// The outbound payload for a message text: `{"text":"` + the escaped
/// UTF-8 bytes of the text + `"}`.
pub open spec fn spec_payload(text: Seq<char>) -> Seq<u8> {
    spec_payload_prefix() + spec_escape_bytes(encode_utf8(text)) + spec_payload_suffix()
}

fn hex_digit(n: u8) -> (r: u8)
    requires
        n < 16,
    ensures
        r == spec_hex_digit(n as int),
{
    if n < 10 {
        0x30 + n
    } else {
        0x57 + n
    }
}

fn push_escaped(out: &mut Vec<u8>, b: u8)
    ensures
        final(out)@ == old(out)@ + spec_escape_byte(b),
{
    if b == 0x22 {
        out.push(0x5c);
        out.push(0x22);
    } else if b == 0x5c {
        out.push(0x5c);
        out.push(0x5c);
    } else if b == 0x08 {
        out.push(0x5c);
        out.push(0x62);
    } else if b == 0x09 {
        out.push(0x5c);
        out.push(0x74);
    } else if b == 0x0a {
        out.push(0x5c);
        out.push(0x6e);
    } else if b == 0x0c {
        out.push(0x5c);
        out.push(0x66);
    } else if b == 0x0d {
        out.push(0x5c);
        out.push(0x72);
    } else if b < 0x20 {
        out.push(0x5c);
        out.push(0x75);
        out.push(0x30);
        out.push(0x30);
        out.push(hex_digit(b / 16));
        out.push(hex_digit(b % 16));
    } else {
        out.push(b);
    }
    proof {
        assert(out@ =~= old(out)@ + spec_escape_byte(b));
    }
}

/// Builds the outbound request body `{"text":"..."}` for a message text.
pub fn build_payload(text: &str) -> (r: Vec<u8>)
    ensures
        r@ == spec_payload(text@),
{
    let bytes = text.as_bytes_vec();
    let mut out: Vec<u8> = Vec::new();
    out.push(0x7b);
    out.push(0x22);
    out.push(0x74);
    out.push(0x65);
    out.push(0x78);
    out.push(0x74);
    out.push(0x22);
    out.push(0x3a);
    out.push(0x22);
    proof {
        assert(out@ =~= spec_payload_prefix());
        assert(bytes@.take(0int) =~= Seq::<u8>::empty());
        assert(out@ =~= spec_payload_prefix() + spec_escape_bytes(bytes@.take(0int)));
    }
    let n = bytes.len();
    let mut i: usize = 0;
    while i < n
        invariant
            n == bytes@.len(),
            i <= n,
            bytes@ == encode_utf8(text@),
            out@ == spec_payload_prefix() + spec_escape_bytes(bytes@.take(i as int)),
        decreases n - i,
    {
        push_escaped(&mut out, bytes[i]);
        proof {
            assert(bytes@.take(i + 1 as int).drop_last() =~= bytes@.take(i as int));
            assert(out@ =~= spec_payload_prefix() + spec_escape_bytes(bytes@.take(i + 1 as int)));
        }
        i = i + 1;
    }
    out.push(0x22);
    out.push(0x7d);
    proof {
        assert(bytes@.take(n as int) =~= bytes@);
        assert(out@ =~= spec_payload_prefix() + spec_escape_bytes(bytes@) + spec_payload_suffix());
    }
    out
}

} // verus!
