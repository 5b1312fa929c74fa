//! Message codec: turns a [`Message`] into the bytes of a radio frame and
//! back, and handles the counter text (`hello <n>`) carried by the
//! point-to-point demo exchange.
//!
//! Wire format of a frame, big-endian identifiers:
//! - byte 0: kind discriminant, `0` for ping, `1` for data;
//! - bytes 1..3: sender identifier;
//! - data messages continue with bytes 3..5: destination identifier,
//!   byte 5: payload length, bytes 6..6+length: the payload.
//!
//! Trailing bytes beyond the encoded frame are padding: the encoder
//! zero-fills them and the decoder never reads them.

use vstd::prelude::*;

verus! {

use crate::message::{KindModel, Message, MessageModel, MessageType};

/// Faults raised while decoding a frame or the counter text it carries.
#[derive(Clone, Copy, PartialEq, Eq, Structural, Debug)]
pub enum CodecFault {
    /// The buffer is shorter than the decoded message needs, or a declared
    /// payload length does not fit the payload buffer.
    Truncated,
    /// The kind discriminant matches no known message kind.
    UnknownKind,
    /// A payload that the protocol asserts to be counter text is not.
    InvalidUtf8,
    /// A counter does not fit the two-digit decimal field.
    CounterOutOfRange,
}

/// Bytes of the shortest frame: discriminant plus sender identifier.
pub const HEADER_LEN: usize = 3;

/// Bytes that precede the payload of a data frame.
pub const DATA_HEADER_LEN: usize = 6;

/// Capacity of a radio frame buffer.
pub const FRAME_LEN: usize = 100;

pub open spec fn hi_byte(x: u16) -> u8 {
    (x / 256) as u8
}

pub open spec fn lo_byte(x: u16) -> u8 {
    (x % 256) as u8
}

pub open spec fn word_of(hi: u8, lo: u8) -> u16 {
    (hi * 256 + lo) as u16
}

/// The meaningful bytes of the frame that encodes `m`, without padding.
pub open spec fn frame_bytes(m: MessageModel) -> Seq<u8> {
    match m.kind {
        KindModel::Ping => seq![0u8, hi_byte(m.sender), lo_byte(m.sender)],
        KindModel::Data { destination, payload } => seq![
            1u8,
            hi_byte(m.sender),
            lo_byte(m.sender),
            hi_byte(destination),
            lo_byte(destination),
            payload.len() as u8,
        ] + payload,
    }
}

/// What decoding a buffer yields: the message it frames, or the first fault.
pub open spec fn parse_frame(s: Seq<u8>) -> Result<MessageModel, CodecFault> {
    if s.len() < HEADER_LEN {
        Err(CodecFault::Truncated)
    } else if s[0] == 0u8 {
        Ok(MessageModel { sender: word_of(s[1], s[2]), kind: KindModel::Ping })
    } else if s[0] == 1u8 {
        if s.len() < DATA_HEADER_LEN || s[5] > 64 || s.len() < DATA_HEADER_LEN + s[5] {
            Err(CodecFault::Truncated)
        } else {
            Ok(MessageModel {
                sender: word_of(s[1], s[2]),
                kind: KindModel::Data {
                    destination: word_of(s[3], s[4]),
                    payload: s.subrange(DATA_HEADER_LEN as int, DATA_HEADER_LEN + s[5]),
                },
            })
        }
    } else {
        Err(CodecFault::UnknownKind)
    }
}

/// Writes the frame for `msg` into `buf`, zero-filling the padding, and
/// returns the number of meaningful bytes.
pub fn encode(msg: &Message, buf: &mut [u8; 100]) -> (n: usize)
    requires
        msg.wf(),
    ensures
        n == frame_bytes(msg@).len(),
        HEADER_LEN <= n <= FRAME_LEN,
        final(buf)@ =~= frame_bytes(msg@) + Seq::new((FRAME_LEN - n) as nat, |i: int| 0u8),
{
    let mut i: usize = 0;
    while i < 100
        invariant
            i <= 100,
            forall|j: int| 0 <= j < i ==> buf@[j] == 0u8,
        decreases 100 - i,
    {
        buf[i] = 0;
        i = i + 1;
    }
    buf[1] = (msg.sender_uid / 256) as u8;
    buf[2] = (msg.sender_uid % 256) as u8;
    match &msg.message_type {
        MessageType::Ping => {
            buf[0] = 0;
            3
        },
        MessageType::Normal { destination_uid, length, data } => {
            buf[0] = 1;
            buf[3] = (*destination_uid / 256) as u8;
            buf[4] = (*destination_uid % 256) as u8;
            buf[5] = *length;
            let len = *length as usize;
            let mut k: usize = 0;
            while k < len
                invariant
                    k <= len,
                    len == *length as int <= 64,
                    buf@[0] == 1u8,
                    buf@[1] == hi_byte(msg.sender_uid),
                    buf@[2] == lo_byte(msg.sender_uid),
                    buf@[3] == hi_byte(*destination_uid),
                    buf@[4] == lo_byte(*destination_uid),
                    buf@[5] == *length,
                    forall|j: int| 0 <= j < k ==> buf@[6 + j] == data@[j],
                    forall|j: int| 6 + k <= j < 100 ==> buf@[j] == 0u8,
                decreases len - k,
            {
                buf[6 + k] = data[k];
                k = k + 1;
            }
            proof {
                assert(buf@ =~= frame_bytes(msg@) + Seq::new((100 - (6 + len)) as nat, |i: int| 0u8));
            }
            6 + len
        },
    }
}

/// Decodes a frame buffer into a message, per [`parse_frame`]. Decoding is
/// pure: it touches no radio or table state, and the returned message is
/// well formed with zeroed padding.
pub fn decode(buf: &[u8]) -> (r: Result<Message, CodecFault>)
    ensures
        match parse_frame(buf@) {
            Ok(m) => r matches Ok(got) && got@ == m && got.wf(),
            Err(e) => r == Err::<Message, CodecFault>(e),
        },
{
    if buf.len() < 3 {
        return Err(CodecFault::Truncated);
    }
    let kind = buf[0];
    let sender_uid = (buf[1] as u16) * 256 + (buf[2] as u16);
    if kind == 0 {
        Ok(Message { sender_uid, message_type: MessageType::Ping })
    } else if kind == 1 {
        if buf.len() < 6 {
            return Err(CodecFault::Truncated);
        }
        let length = buf[5];
        if length > 64 || buf.len() < 6 + length as usize {
            return Err(CodecFault::Truncated);
        }
        let destination_uid = (buf[3] as u16) * 256 + (buf[4] as u16);
        let mut data = [0u8; 64];
        let len = length as usize;
        let mut k: usize = 0;
        while k < len
            invariant
                k <= len,
                len <= 64,
                buf@.len() >= 6 + len,
                forall|j: int| 0 <= j < k ==> data@[j] == buf@[6 + j],
                forall|j: int| k <= j < 64 ==> data@[j] == 0u8,
            decreases len - k,
        {
            data[k] = buf[6 + k];
            k = k + 1;
        }
        let m = Message {
            sender_uid,
            message_type: MessageType::Normal { destination_uid, length, data },
        };
        proof {
            assert(data@.take(len as int) =~= buf@.subrange(6, 6 + length as int));
        }
        Ok(m)
    } else {
        Err(CodecFault::UnknownKind)
    }
}

/// Encodes `msg` as exactly its meaningful frame bytes, without padding.
pub fn encode_vec(msg: &Message) -> (r: Vec<u8>)
    requires
        msg.wf(),
    ensures
        r@ == frame_bytes(msg@),
{
    let mut buf = [0u8; 100];
    let n = encode(msg, &mut buf);
    let mut r: Vec<u8> = Vec::new();
    let mut i: usize = 0;
    while i < n
        invariant
            i <= n,
            n <= 100,
            n == frame_bytes(msg@).len(),
            forall|j: int| 0 <= j < n ==> buf@[j] == frame_bytes(msg@)[j],
            r@.len() == i,
            forall|j: int| 0 <= j < i ==> r@[j] == frame_bytes(msg@)[j],
        decreases n - i,
    {
        r.push(buf[i]);
        i = i + 1;
    }
    proof {
        assert(r@ =~= frame_bytes(msg@));
    }
    r
}

/// Codec round trip: a well-formed message survives encoding and decoding
/// unchanged, whatever padding follows its frame. In particular the decoder
/// never interprets bytes beyond the encoded length.
pub proof fn lemma_codec_round_trip(m: MessageModel, pad: Seq<u8>)
    requires
        m.wf(),
    ensures
        parse_frame(frame_bytes(m) + pad) == Ok::<MessageModel, CodecFault>(m),
{
    let s = frame_bytes(m) + pad;
    lemma_word_split(m.sender);
    match m.kind {
        KindModel::Ping => {
            assert(parse_frame(s) == Ok::<MessageModel, CodecFault>(m));
        },
        KindModel::Data { destination, payload } => {
            lemma_word_split(destination);
            assert(s[5] == payload.len() as u8);
            assert(s.subrange(DATA_HEADER_LEN as int, DATA_HEADER_LEN + s[5]) =~= payload);
            assert(parse_frame(s) == Ok::<MessageModel, CodecFault>(m));
        },
    }
}

/// A buffer shorter than the minimum header always decodes to `Truncated`.
pub proof fn lemma_truncated_rejected(s: Seq<u8>)
    requires
        s.len() < HEADER_LEN,
    ensures
        parse_frame(s) == Err::<MessageModel, CodecFault>(CodecFault::Truncated),
{
}

/// Splitting an identifier into its two big-endian bytes loses nothing.
pub proof fn lemma_word_split(x: u16)
    ensures
        word_of(hi_byte(x), lo_byte(x)) == x,
{
    vstd::arithmetic::div_mod::lemma_fundamental_div_mod(x as int, 256);
}

/// An ASCII decimal digit.
pub open spec fn is_digit(b: u8) -> bool {
    48 <= b <= 57
}

/// The tag that opens every counter payload: the bytes of `"hello "`.
pub open spec fn counter_tag() -> Seq<u8> {
    seq![104u8, 101u8, 108u8, 108u8, 111u8, 32u8]
}

/// The counter payload carrying `n`: the tag followed by one or two decimal
/// digits, without leading zeroes.
pub open spec fn counter_text(n: int) -> Seq<u8>
    recommends
        0 <= n <= 99,
{
    if n < 10 {
        counter_tag() + seq![(48 + n) as u8]
    } else {
        counter_tag() + seq![(48 + n / 10) as u8, (48 + n % 10) as u8]
    }
}

/// What parsing a counter payload yields. The protocol defines the field as
/// an unsigned decimal in a two-digit text field: a payload that is not the
/// tag followed by digits fails `InvalidUtf8`; more than two digits do not
/// fit the field and fail `CounterOutOfRange`.
pub open spec fn spec_parse_counter(s: Seq<u8>) -> Result<u8, CodecFault> {
    if s.len() < 7 || s.subrange(0, 6) != counter_tag() {
        Err(CodecFault::InvalidUtf8)
    } else if exists|i: int| 6 <= i < s.len() && !is_digit(s[i]) {
        Err(CodecFault::InvalidUtf8)
    } else if s.len() > 8 {
        Err(CodecFault::CounterOutOfRange)
    } else if s.len() == 7 {
        Ok((s[6] - 48) as u8)
    } else {
        Ok(((s[6] - 48) * 10 + (s[7] - 48)) as u8)
    }
}

/// Parses a counter payload, per [`spec_parse_counter`]. A successful parse
/// always lies in `0..=99`.
pub fn parse_counter(payload: &[u8]) -> (r: Result<u8, CodecFault>)
    ensures
        r == spec_parse_counter(payload@),
        r matches Ok(n) ==> n <= 99,
{
    if payload.len() < 7 {
        return Err(CodecFault::InvalidUtf8);
    }
    let tag: [u8; 6] = [104, 101, 108, 108, 111, 32];
    let mut i: usize = 0;
    while i < 6
        invariant
            i <= 6,
            payload@.len() >= 7,
            tag@ == counter_tag(),
            forall|j: int| 0 <= j < i ==> payload@[j] == counter_tag()[j],
        decreases 6 - i,
    {
        if payload[i] != tag[i] {
            proof {
                assert(payload@.subrange(0, 6)[i as int] != counter_tag()[i as int]);
            }
            return Err(CodecFault::InvalidUtf8);
        }
        i = i + 1;
    }
    proof {
        assert(payload@.subrange(0, 6) =~= counter_tag());
    }
    let mut k: usize = 6;
    while k < payload.len()
        invariant
            6 <= k <= payload@.len(),
            forall|j: int| 6 <= j < k ==> is_digit(payload@[j]),
        decreases payload@.len() - k,
    {
        let b = payload[k];
        if b < 48 || b > 57 {
            proof {
                assert(!is_digit(payload@[k as int]));
            }
            return Err(CodecFault::InvalidUtf8);
        }
        k = k + 1;
    }
    if payload.len() > 8 {
        return Err(CodecFault::CounterOutOfRange);
    }
    if payload.len() == 7 {
        Ok(payload[6] - 48)
    } else {
        Ok((payload[6] - 48) * 10 + (payload[7] - 48))
    }
}

/// Renders a counter as its payload text.
pub fn render_counter(n: u8) -> (r: Vec<u8>)
    requires
        n <= 99,
    ensures
        r@ == counter_text(n as int),
{
    let mut r: Vec<u8> = Vec::new();
    r.push(104);
    r.push(101);
    r.push(108);
    r.push(108);
    r.push(111);
    r.push(32);
    if n < 10 {
        r.push(48 + n);
        proof {
            assert(r@ =~= counter_text(n as int));
        }
    } else {
        r.push(48 + n / 10);
        r.push(48 + n % 10);
        proof {
            assert(r@ =~= counter_text(n as int));
        }
    }
    r
}

/// The reply the driver owes to an inbound counter payload: the counter
/// incremented by exactly one, re-rendered. A payload that does not parse
/// keeps its parse fault; a counter whose successor does not fit the
/// two-digit field fails `CounterOutOfRange`.
pub open spec fn spec_counter_reply(s: Seq<u8>) -> Result<Seq<u8>, CodecFault> {
    match spec_parse_counter(s) {
        Err(e) => Err(e),
        Ok(n) => if n >= 99 {
            Err(CodecFault::CounterOutOfRange)
        } else {
            Ok(counter_text(n + 1))
        },
    }
}

/// Computes the reply payload for an inbound counter payload, per
/// [`spec_counter_reply`].
pub fn counter_reply(payload: &[u8]) -> (r: Result<Vec<u8>, CodecFault>)
    ensures
        match spec_counter_reply(payload@) {
            Ok(t) => r matches Ok(v) && v@ == t,
            Err(e) => r matches Err(got) && got == e,
        },
{
    match parse_counter(payload) {
        Err(e) => Err(e),
        Ok(n) => {
            if n >= 99 {
                Err(CodecFault::CounterOutOfRange)
            } else {
                Ok(render_counter(n + 1))
            }
        },
    }
}

/// Counter round trip: rendering a counter and parsing it back yields the
/// same value.
pub proof fn lemma_counter_round_trip(n: int)
    requires
        0 <= n <= 99,
    ensures
        spec_parse_counter(counter_text(n)) == Ok::<u8, CodecFault>(n as u8),
{
    let s = counter_text(n);
    assert(s.subrange(0, 6) =~= counter_tag());
    if n < 10 {
        assert(forall|i: int| 6 <= i < s.len() ==> is_digit(s[i]));
    } else {
        vstd::arithmetic::div_mod::lemma_fundamental_div_mod(n, 10);
        assert(forall|i: int| 6 <= i < s.len() ==> is_digit(s[i]));
        assert((s[6] - 48) * 10 + (s[7] - 48) == n);
    }
}

/// The demo exchange advances the counter by exactly one: a rendered counter
/// below the field's top value draws the next counter as reply, and the top
/// value draws `CounterOutOfRange` rather than wrapping.
pub proof fn lemma_counter_reply_increments(n: int)
    requires
        0 <= n <= 99,
    ensures
        n < 99 ==> spec_counter_reply(counter_text(n)) == Ok::<Seq<u8>, CodecFault>(
            counter_text(n + 1),
        ),
        n == 99 ==> spec_counter_reply(counter_text(n)) == Err::<Seq<u8>, CodecFault>(
            CodecFault::CounterOutOfRange,
        ),
{
    lemma_counter_round_trip(n);
}

} // verus!
