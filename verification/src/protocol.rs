//! The closed message set exchanged with the network collaborator, and its
//! binary record format: a four-byte little-endian tag, followed for the
//! text-carrying variants by an eight-byte little-endian byte count and the
//! UTF-8 bytes of the text. The simulation core never depends on this
//! channel; a malformed record surfaces as a decode failure and nothing
//! more.

use vstd::prelude::*;
use vstd::arithmetic::div_mod::{
    lemma_div_denominator, lemma_fundamental_div_mod, lemma_multiply_divide_lt, lemma_small_mod,
};
use vstd::utf8::{decode_utf8, encode_utf8, encode_utf8_decode_utf8, encode_utf8_valid_utf8, valid_utf8};

verus! {

/// A message of the wire protocol.
#[derive(Debug)]
pub enum Message {
    Ping,
    Pong,
    Chat(String),
    Nick(String),
    Me(String),
}

/// A decode failure: the buffer is not the encoding of any message.
#[derive(Clone, Copy, Debug, PartialEq, Eq, Structural)]
pub enum ProtocolError {
    Malformed,
}

/// The mathematical value of a message: its variant and the characters of
/// its text.
pub enum MessageView {
    Ping,
    Pong,
    Chat(Seq<char>),
    Nick(Seq<char>),
    Me(Seq<char>),
}

/// The value of a message.
pub open spec fn msg_view(m: Message) -> MessageView {
    match m {
        Message::Ping => MessageView::Ping,
        Message::Pong => MessageView::Pong,
        Message::Chat(s) => MessageView::Chat(s@),
        Message::Nick(s) => MessageView::Nick(s@),
        Message::Me(s) => MessageView::Me(s@),
    }
}

impl PartialEq for Message {
    fn eq(&self, other: &Message) -> (r: bool) {
        match (self, other) {
            (Message::Ping, Message::Ping) => true,
            (Message::Pong, Message::Pong) => true,
            (Message::Chat(a), Message::Chat(b)) => a.eq(b),
            (Message::Nick(a), Message::Nick(b)) => a.eq(b),
            (Message::Me(a), Message::Me(b)) => a.eq(b),
            _ => false,
        }
    }
}

impl vstd::std_specs::cmp::PartialEqSpecImpl for Message {
    open spec fn obeys_eq_spec() -> bool {
        true
    }

    open spec fn eq_spec(&self, other: &Message) -> bool {
        msg_view(*self) == msg_view(*other)
    }
}

/// The eight little-endian bytes of a length.
pub open spec fn le8(n: int) -> Seq<u8> {
    seq![
        (n % 256) as u8,
        ((n / 256) % 256) as u8,
        ((n / 65536) % 256) as u8,
        ((n / 16777216) % 256) as u8,
        ((n / 4294967296) % 256) as u8,
        ((n / 1099511627776) % 256) as u8,
        ((n / 281474976710656) % 256) as u8,
        ((n / 72057594037927936) % 256) as u8,
    ]
}

/// The length named by eight little-endian bytes.
pub open spec fn le8_val(bs: Seq<u8>) -> int {
    bs[0] + 256 * bs[1] + 65536 * bs[2] + 16777216 * bs[3] + 4294967296 * bs[4]
        + 1099511627776 * bs[5] + 281474976710656 * bs[6] + 72057594037927936 * bs[7]
}

/// The little-endian length bytes name the length they were made from.
pub proof fn lemma_le8_val(n: int)
    requires
        0 <= n < 18446744073709551616,
    ensures
        le8_val(le8(n)) == n,
{
    let q1 = n / 256;
    let q2 = q1 / 256;
    let q3 = q2 / 256;
    let q4 = q3 / 256;
    let q5 = q4 / 256;
    let q6 = q5 / 256;
    let q7 = q6 / 256;
    lemma_div_denominator(n, 256, 256);
    lemma_div_denominator(n, 65536, 256);
    lemma_div_denominator(n, 16777216, 256);
    lemma_div_denominator(n, 4294967296, 256);
    lemma_div_denominator(n, 1099511627776, 256);
    lemma_div_denominator(n, 281474976710656, 256);
    assert(q2 == n / 65536);
    assert(q3 == n / 16777216);
    assert(q4 == n / 4294967296);
    assert(q5 == n / 1099511627776);
    assert(q6 == n / 281474976710656);
    assert(q7 == n / 72057594037927936);
    lemma_fundamental_div_mod(n, 256);
    lemma_fundamental_div_mod(q1, 256);
    lemma_fundamental_div_mod(q2, 256);
    lemma_fundamental_div_mod(q3, 256);
    lemma_fundamental_div_mod(q4, 256);
    lemma_fundamental_div_mod(q5, 256);
    lemma_fundamental_div_mod(q6, 256);
    lemma_multiply_divide_lt(n, 72057594037927936, 256);
    lemma_small_mod(q7 as nat, 256);
}

/// The tag byte of each variant.
pub open spec fn msg_tag(v: MessageView) -> u8 {
    match v {
        MessageView::Ping => 0,
        MessageView::Pong => 1,
        MessageView::Chat(_) => 2,
        MessageView::Nick(_) => 3,
        MessageView::Me(_) => 4,
    }
}

/// The binary record of a message: its tag as four little-endian bytes,
/// then — for the text variants — the eight little-endian bytes of the
/// text's UTF-8 byte count and the bytes themselves.
pub open spec fn encode_msg(v: MessageView) -> Seq<u8> {
    let tag = seq![msg_tag(v), 0u8, 0u8, 0u8];
    match v {
        MessageView::Ping => tag,
        MessageView::Pong => tag,
        MessageView::Chat(cs) => tag + le8(encode_utf8(cs).len() as int) + encode_utf8(cs),
        MessageView::Nick(cs) => tag + le8(encode_utf8(cs).len() as int) + encode_utf8(cs),
        MessageView::Me(cs) => tag + le8(encode_utf8(cs).len() as int) + encode_utf8(cs),
    }
}

/// The message a buffer encodes, when it encodes one: the buffer must be
/// exactly one record, with a known tag, a length that matches, and text
/// bytes that are valid UTF-8.
pub open spec fn decode_spec(bs: Seq<u8>) -> Option<MessageView> {
    if bs.len() < 4 || bs[1] != 0 || bs[2] != 0 || bs[3] != 0 {
        None
    } else if bs[0] == 0 {
        if bs.len() == 4 {
            Some(MessageView::Ping)
        } else {
            None
        }
    } else if bs[0] == 1 {
        if bs.len() == 4 {
            Some(MessageView::Pong)
        } else {
            None
        }
    } else if bs[0] == 2 || bs[0] == 3 || bs[0] == 4 {
        if bs.len() < 12 {
            None
        } else if bs.len() != 12 + le8_val(bs.subrange(4, 12)) {
            None
        } else {
            let payload = bs.subrange(12, bs.len() as int);
            if valid_utf8(payload) {
                let cs = decode_utf8(payload);
                if bs[0] == 2 {
                    Some(MessageView::Chat(cs))
                } else if bs[0] == 3 {
                    Some(MessageView::Nick(cs))
                } else {
                    Some(MessageView::Me(cs))
                }
            } else {
                None
            }
        }
    } else {
        None
    }
}

/// Decoding inverts encoding: every message's record decodes back to the
/// message, as long as its text fits the eight-byte length field.
pub proof fn lemma_encode_decode(v: MessageView)
    requires
        (v matches MessageView::Chat(cs) ==> encode_utf8(cs).len() < 18446744073709551616),
        (v matches MessageView::Nick(cs) ==> encode_utf8(cs).len() < 18446744073709551616),
        (v matches MessageView::Me(cs) ==> encode_utf8(cs).len() < 18446744073709551616),
    ensures
        decode_spec(encode_msg(v)) == Some(v),
{
    let bs = encode_msg(v);
    match v {
        MessageView::Ping => {
            assert(bs.len() == 4 && bs[0] == 0 && bs[1] == 0 && bs[2] == 0 && bs[3] == 0);
        }
        MessageView::Pong => {
            assert(bs.len() == 4 && bs[0] == 1 && bs[1] == 0 && bs[2] == 0 && bs[3] == 0);
        }
        MessageView::Chat(cs) => {
            lemma_text_record_decodes(2, cs);
        }
        MessageView::Nick(cs) => {
            lemma_text_record_decodes(3, cs);
        }
        MessageView::Me(cs) => {
            lemma_text_record_decodes(4, cs);
        }
    }
}

/// A text-carrying record decodes to its tag's variant and its characters.
proof fn lemma_text_record_decodes(tag: u8, cs: Seq<char>)
    requires
        tag == 2 || tag == 3 || tag == 4,
        encode_utf8(cs).len() < 18446744073709551616,
    ensures
        ({
            let bs = seq![tag, 0u8, 0u8, 0u8] + le8(encode_utf8(cs).len() as int)
                + encode_utf8(cs);
            &&& bs.len() == 12 + encode_utf8(cs).len()
            &&& decode_spec(bs) == (if tag == 2 {
                Some(MessageView::Chat(cs))
            } else if tag == 3 {
                Some(MessageView::Nick(cs))
            } else {
                Some(MessageView::Me(cs))
            })
        }),
{
    broadcast use encode_utf8_valid_utf8;
    broadcast use encode_utf8_decode_utf8;

    let text = encode_utf8(cs);
    let n = text.len() as int;
    let bs = seq![tag, 0u8, 0u8, 0u8] + le8(n) + text;
    assert(bs.len() == 12 + n);
    assert(bs[0] == tag && bs[1] == 0 && bs[2] == 0 && bs[3] == 0);
    assert(bs.subrange(4, 12) =~= le8(n));
    lemma_le8_val(n);
    assert(bs.len() == 12 + le8_val(bs.subrange(4, 12)));
    assert(bs.subrange(12, bs.len() as int) =~= text);
    assert(valid_utf8(text));
    assert(decode_utf8(text) == cs);
}

/// Encode a message as its binary record. Encoding cannot fail; the
/// `Result` mirrors the decoding direction.
pub fn serialize(message: Message) -> (r: Result<Vec<u8>, ProtocolError>)
    ensures
        r is Ok,
        (r matches Ok(out) ==> out@ == encode_msg(msg_view(message))),
{
    let mut out: Vec<u8> = Vec::new();
    match &message {
        Message::Ping => {
            out.push(0);
            out.push(0);
            out.push(0);
            out.push(0);
            proof {
                assert(out@ =~= encode_msg(msg_view(message)));
            }
        }
        Message::Pong => {
            out.push(1);
            out.push(0);
            out.push(0);
            out.push(0);
            proof {
                assert(out@ =~= encode_msg(msg_view(message)));
            }
        }
        Message::Chat(s) => {
            push_text_record(&mut out, 2, s);
            proof {
                assert(out@ =~= encode_msg(msg_view(message)));
            }
        }
        Message::Nick(s) => {
            push_text_record(&mut out, 3, s);
            proof {
                assert(out@ =~= encode_msg(msg_view(message)));
            }
        }
        Message::Me(s) => {
            push_text_record(&mut out, 4, s);
            proof {
                assert(out@ =~= encode_msg(msg_view(message)));
            }
        }
    }
    Ok(out)
}

/// Append one text-carrying record: the tag, the text's UTF-8 byte count
/// as eight little-endian bytes, and the bytes.
fn push_text_record(out: &mut Vec<u8>, tag: u8, s: &String)
    requires
        old(out)@.len() == 0,
    ensures
        final(out)@ == seq![tag, 0u8, 0u8, 0u8] + le8(encode_utf8(s@).len() as int)
            + encode_utf8(s@),
{
    out.push(tag);
    out.push(0);
    out.push(0);
    out.push(0);
    let bytes: &[u8] = s.as_str().as_bytes();
    let n: u64 = bytes.len() as u64;
    out.push((n % 256) as u8);
    out.push(((n / 256) % 256) as u8);
    out.push(((n / 65536) % 256) as u8);
    out.push(((n / 16777216) % 256) as u8);
    out.push(((n / 4294967296) % 256) as u8);
    out.push(((n / 1099511627776) % 256) as u8);
    out.push(((n / 281474976710656) % 256) as u8);
    out.push(((n / 72057594037927936) % 256) as u8);
    proof {
        assert(out@ =~= seq![tag, 0u8, 0u8, 0u8] + le8(encode_utf8(s@).len() as int));
    }
    let m: usize = bytes.len();
    let mut i: usize = 0;
    while i < m
        invariant
            m == bytes@.len(),
            i <= m,
            out@ == seq![tag, 0u8, 0u8, 0u8] + le8(encode_utf8(s@).len() as int)
                + bytes@.subrange(0, i as int),
            bytes@ == encode_utf8(s@),
        decreases m - i,
    {
        out.push(bytes[i]);
        proof {
            assert(out@ =~= seq![tag, 0u8, 0u8, 0u8] + le8(encode_utf8(s@).len() as int)
                + bytes@.subrange(0, i + 1));
        }
        i = i + 1;
    }
    proof {
        assert(bytes@.subrange(0, m as int) =~= bytes@);
    }
}

/// Relies on `String::from_utf8`: it returns a string exactly when the
/// bytes are valid UTF-8, and that string's characters are the bytes'
/// decoding.
#[verifier::external_body]
fn bytes_to_string(v: Vec<u8>) -> (r: Option<String>)
    ensures
        r is Some <==> valid_utf8(v@),
        (r matches Some(s) ==> s@ == decode_utf8(v@)),
{
    match String::from_utf8(v) {
        Ok(s) => Some(s),
        Err(_) => None,
    }
}

/// Decode one binary record. Returns the message exactly when the buffer
/// is a well-formed record — known tag, matching length, valid UTF-8 text —
/// and a decode failure on anything else.
pub fn deserialize(buffer: &[u8]) -> (r: Result<Message, ProtocolError>)
    ensures
        r is Ok <==> decode_spec(buffer@) is Some,
        (r matches Ok(m) ==> decode_spec(buffer@) == Some(msg_view(m))),
{
    if buffer.len() < 4 {
        return Err(ProtocolError::Malformed);
    }
    if buffer[1] != 0 || buffer[2] != 0 || buffer[3] != 0 {
        return Err(ProtocolError::Malformed);
    }
    let tag: u8 = buffer[0];
    if tag == 0 {
        if buffer.len() == 4 {
            Ok(Message::Ping)
        } else {
            Err(ProtocolError::Malformed)
        }
    } else if tag == 1 {
        if buffer.len() == 4 {
            Ok(Message::Pong)
        } else {
            Err(ProtocolError::Malformed)
        }
    } else if tag == 2 || tag == 3 || tag == 4 {
        if buffer.len() < 12 {
            return Err(ProtocolError::Malformed);
        }
        let n: u64 = buffer[4] as u64 + 256 * (buffer[5] as u64) + 65536 * (buffer[6] as u64)
            + 16777216 * (buffer[7] as u64) + 4294967296 * (buffer[8] as u64)
            + 1099511627776 * (buffer[9] as u64) + 281474976710656 * (buffer[10] as u64)
            + 72057594037927936 * (buffer[11] as u64);
        proof {
            assert(n as int == le8_val(buffer@.subrange(4, 12)));
        }
        if n != (buffer.len() - 12) as u64 {
            return Err(ProtocolError::Malformed);
        }
        let m: usize = buffer.len();
        let mut payload: Vec<u8> = Vec::new();
        let mut i: usize = 12;
        while i < m
            invariant
                m == buffer@.len(),
                12 <= i <= m,
                payload@ == buffer@.subrange(12, i as int),
            decreases m - i,
        {
            payload.push(buffer[i]);
            proof {
                assert(payload@ =~= buffer@.subrange(12, i + 1));
            }
            i = i + 1;
        }
        proof {
            assert(payload@ =~= buffer@.subrange(12, m as int));
        }
        match bytes_to_string(payload) {
            Some(s) => {
                if tag == 2 {
                    Ok(Message::Chat(s))
                } else if tag == 3 {
                    Ok(Message::Nick(s))
                } else {
                    Ok(Message::Me(s))
                }
            }
            None => Err(ProtocolError::Malformed),
        }
    } else {
        Err(ProtocolError::Malformed)
    }
}

} // verus!
