//! The framed message envelope carried over the radio.
//!
//! On the wire a frame is `mtype || fcnt || devaddr || payload`: one byte of
//! message type, the frame counter as two bytes in big-endian order, the four
//! bytes of the device address, and the opaque payload. The very first frame
//! of a handshake is sent before any address exists and leaves the address
//! out.

use vstd::prelude::*;
use vstd::slice::slice_subrange;
use vstd::slice::slice_to_vec;

verus! {

/// Bytes of message type and frame counter at the head of every frame.
pub const HEADER_LEN: usize = 3;

/// Shortest frame that carries a device address.
pub const ADDRESSED_LEN: usize = 7;

/// Size of the buffer that the transceiver takes.
pub const RADIO_BUFFER_LEN: usize = 255;

/// EDHOC message 1, end device to server.
pub const MTYPE_EDHOC_1: u8 = 0;

/// EDHOC message 2, server to end device; carries the assigned address.
pub const MTYPE_EDHOC_2: u8 = 1;

/// EDHOC message 3, end device to server.
pub const MTYPE_EDHOC_3: u8 = 2;

/// EDHOC message 4, server to end device.
pub const MTYPE_EDHOC_4: u8 = 3;

/// Ratchet data uplink.
pub const MTYPE_UPLINK: u8 = 5;

/// Ratchet data downlink, emitted by the ratchet core.
pub const MTYPE_DOWNLINK: u8 = 6;

/// Request for a Diffie-Hellman ratchet step, end device to server.
pub const MTYPE_DH_REQUEST: u8 = 7;

/// Acknowledgement of a Diffie-Hellman ratchet step.
pub const MTYPE_DH_ACK: u8 = 8;

/// The frame counter that two big-endian bytes stand for.
pub open spec fn fcnt_of(hi: u8, lo: u8) -> u16 {
    (hi as int * 256 + lo as int) as u16
}

/// High byte of a frame counter.
pub open spec fn fcnt_hi(fcnt: u16) -> u8 {
    (fcnt / 256) as u8
}

/// Low byte of a frame counter.
pub open spec fn fcnt_lo(fcnt: u16) -> u8 {
    (fcnt % 256) as u8
}

/// The counter that follows `fcnt`: one more, and zero after 65535.
pub open spec fn next_fcnt(fcnt: u16) -> u16 {
    if fcnt == 0xffff {
        0
    } else {
        (fcnt + 1) as u16
    }
}

/// What a frame holds, as mathematical values.
pub struct Envelope {
    pub mtype: u8,
    pub fcnt: u16,
    pub devaddr: Seq<u8>,
    pub payload: Seq<u8>,
}

/// The bytes of a frame: header, then the address unless this is the first
/// message, then the payload.
pub open spec fn encode(
    payload: Seq<u8>,
    mtype: u8,
    fcnt: u16,
    devaddr: Seq<u8>,
    first_msg: bool,
) -> Seq<u8> {
    seq![mtype, fcnt_hi(fcnt), fcnt_lo(fcnt)] + (if first_msg {
        Seq::<u8>::empty()
    } else {
        devaddr
    }) + payload
}

/// Least number of bytes that a frame has.
pub open spec fn min_len(first_msg: bool) -> nat {
    if first_msg {
        3
    } else {
        7
    }
}

/// What the bytes `b` hold when read as a frame. A first message has no
/// address, and its address reads as empty.
pub open spec fn decode(b: Seq<u8>, first_msg: bool) -> Envelope
    recommends
        b.len() >= min_len(first_msg),
{
    Envelope {
        mtype: b[0],
        fcnt: fcnt_of(b[1], b[2]),
        devaddr: if first_msg {
            Seq::<u8>::empty()
        } else {
            b.subrange(3, 7)
        },
        payload: b.subrange(min_len(first_msg) as int, b.len() as int),
    }
}

/// `message` followed by zeros up to the size of the radio buffer.
pub open spec fn padded(message: Seq<u8>) -> Seq<u8>
    recommends
        message.len() <= RADIO_BUFFER_LEN,
{
    Seq::new(RADIO_BUFFER_LEN as nat, |i: int| if i < message.len() { message[i] } else { 0u8 })
}

/// A frame taken apart. The counter is kept as its two wire bytes.
#[derive(Clone, Debug, PartialEq, Eq)]
pub struct MessageStruct {
    pub _m: u8,
    pub _fcntdown: [u8; 2],
    pub devaddr: [u8; 4],
    pub msg: Vec<u8>,
}

impl View for MessageStruct {
    type V = Envelope;

    open spec fn view(&self) -> Envelope {
        Envelope {
            mtype: self._m,
            fcnt: fcnt_of(self._fcntdown[0], self._fcntdown[1]),
            devaddr: self.devaddr@,
            payload: self.msg@,
        }
    }
}

impl MessageStruct {
    /// The frame counter as a number.
    pub fn fcnt(&self) -> (fcnt: u16)
        ensures
            fcnt == self@.fcnt,
    {
        let hi: u16 = self._fcntdown[0] as u16;
        let lo: u16 = self._fcntdown[1] as u16;
        hi * 256 + lo
    }
}

/// Why a buffer could not be read as a frame.
#[derive(Clone, Copy, Debug, PartialEq, Eq, Structural)]
pub enum EnvelopeError {
    /// The buffer is shorter than the fixed part of the frame.
    MalformedEnvelope,
}

/// The counter of outbound frames of one side. It starts at zero, each frame
/// takes the current value, and the value after 65535 is zero.
#[derive(Clone, Copy, Debug, PartialEq, Eq)]
pub struct FrameCounter {
    next: u16,
}

impl View for FrameCounter {
    type V = u16;

    closed spec fn view(&self) -> u16 {
        self.next
    }
}

impl FrameCounter {
    /// A counter whose first frame is numbered zero.
    pub fn new() -> (counter: FrameCounter)
        ensures
            counter@ == 0,
    {
        FrameCounter { next: 0 }
    }

    /// A counter whose next frame is numbered `next`.
    pub fn starting_at(next: u16) -> (counter: FrameCounter)
        ensures
            counter@ == next,
    {
        FrameCounter { next }
    }

    /// The number that the next frame will carry.
    pub fn value(&self) -> (next: u16)
        ensures
            next == self@,
    {
        self.next
    }

    /// Takes the number for one frame and moves the counter on.
    pub fn advance(&mut self) -> (issued: u16)
        ensures
            issued == old(self)@,
            final(self)@ == next_fcnt(old(self)@),
    {
        let issued: u16 = self.next;
        self.next = issued.wrapping_add(1);
        issued
    }
}

/// How a received buffer stands to the frame that is waited for.
#[derive(Clone, Copy, Debug, PartialEq, Eq, Structural)]
pub enum Inbound {
    /// The buffer is empty: nothing was received.
    Nothing,
    /// The buffer is too short for an addressed frame.
    Malformed,
    /// An addressed frame of another type.
    Unexpected,
    /// An addressed frame of the awaited type.
    Expected,
}

/// How the received bytes `b` stand to an addressed frame of type `mtype`.
pub open spec fn classify(b: Seq<u8>, mtype: u8) -> Inbound {
    if b.len() == 0 {
        Inbound::Nothing
    } else if b.len() < 7 {
        Inbound::Malformed
    } else if b[0] != mtype {
        Inbound::Unexpected
    } else {
        Inbound::Expected
    }
}

/// How the received `bytes` stand to an addressed frame of type `mtype`.
pub fn classify_frame(bytes: &[u8], mtype: u8) -> (kind: Inbound)
    ensures
        kind == classify(bytes@, mtype),
{
    if bytes.len() == 0 {
        Inbound::Nothing
    } else if bytes.len() < ADDRESSED_LEN {
        Inbound::Malformed
    } else if bytes[0] != mtype {
        Inbound::Unexpected
    } else {
        Inbound::Expected
    }
}

/// The four bytes of `bytes` from `at` on, as an address.
pub fn devaddr_at(bytes: &[u8], at: usize) -> (devaddr: [u8; 4])
    requires
        at + 4 <= bytes@.len(),
    ensures
        devaddr@ == bytes@.subrange(at as int, at + 4),
{
    let devaddr: [u8; 4] = [bytes[at], bytes[at + 1], bytes[at + 2], bytes[at + 3]];
    assert(devaddr@ =~= bytes@.subrange(at as int, at + 4));
    devaddr
}

/// The bytes of `bytes` from `from` to the end, copied.
pub fn tail_from(bytes: &[u8], from: usize) -> (tail: Vec<u8>)
    requires
        from <= bytes@.len(),
    ensures
        tail@ == bytes@.subrange(from as int, bytes@.len() as int),
{
    slice_to_vec(slice_subrange(bytes, from, bytes.len()))
}

/// Reads `bytes` as a frame. A first message carries no address, and the
/// address of the result is then all zeros. Fails exactly when the buffer is
/// shorter than the fixed part: 3 bytes for a first message, 7 otherwise.
pub fn parse_frame(bytes: &[u8], first_msg: bool) -> (out: Result<MessageStruct, EnvelopeError>)
    ensures
        out is Ok <==> bytes@.len() >= min_len(first_msg),
        out matches Ok(m) ==> {
            &&& m._m == bytes@[0]
            &&& m._fcntdown@ == bytes@.subrange(1, 3)
            &&& m.msg@ == decode(bytes@, first_msg).payload
            &&& m@.fcnt == decode(bytes@, first_msg).fcnt
            &&& first_msg ==> m.devaddr@ == seq![0u8, 0u8, 0u8, 0u8]
            &&& !first_msg ==> m.devaddr@ == decode(bytes@, first_msg).devaddr
        },
        out matches Err(e) ==> e == EnvelopeError::MalformedEnvelope,
{
    let fixed: usize = if first_msg {
        HEADER_LEN
    } else {
        ADDRESSED_LEN
    };
    if bytes.len() < fixed {
        return Err(EnvelopeError::MalformedEnvelope);
    }
    let counter: [u8; 2] = [bytes[1], bytes[2]];
    assert(counter@ =~= bytes@.subrange(1, 3));
    let devaddr: [u8; 4] = if first_msg {
        let zero: [u8; 4] = [0u8, 0u8, 0u8, 0u8];
        assert(zero@ =~= seq![0u8, 0u8, 0u8, 0u8]);
        zero
    } else {
        devaddr_at(bytes, HEADER_LEN)
    };
    Ok(MessageStruct { _m: bytes[0], _fcntdown: counter, devaddr, msg: tail_from(bytes, fixed) })
}

/// Takes an addressed frame apart: type, counter, address and payload.
pub fn remove_message(ogmsg: Vec<u8>) -> (out: MessageStruct)
    requires
        ogmsg@.len() >= 7,
    ensures
        out@ == decode(ogmsg@, false),
        out._fcntdown@ == ogmsg@.subrange(1, 3),
{
    let bytes: &[u8] = ogmsg.as_slice();
    let counter: [u8; 2] = [bytes[1], bytes[2]];
    assert(counter@ =~= ogmsg@.subrange(1, 3));
    MessageStruct {
        _m: bytes[0],
        _fcntdown: counter,
        devaddr: devaddr_at(bytes, HEADER_LEN),
        msg: tail_from(bytes, ADDRESSED_LEN),
    }
}

/// Frames `msg` for sending: type, the counter's current number, the
/// address unless this is the first message, and the payload. The counter
/// moves on by one.
pub fn prepare_message(
    msg: Vec<u8>,
    mtype: u8,
    first_msg: bool,
    devaddr: [u8; 4],
    counter: &mut FrameCounter,
) -> (frame: Vec<u8>)
    ensures
        frame@ == encode(msg@, mtype, old(counter)@, devaddr@, first_msg),
        final(counter)@ == next_fcnt(old(counter)@),
{
    let fcnt: u16 = counter.advance();
    let mut frame: Vec<u8> = Vec::new();
    frame.push(mtype);
    frame.push((fcnt / 256) as u8);
    frame.push((fcnt % 256) as u8);
    if !first_msg {
        frame.extend_from_slice(devaddr.as_slice());
    }
    frame.extend_from_slice(msg.as_slice());
    assert(frame@ =~= encode(msg@, mtype, fcnt, devaddr@, first_msg));
    frame
}

/// Copies `message` into a buffer of the size the transceiver takes, zeros
/// behind it, and gives the buffer with the number of bytes that count.
pub fn get_message_lenght(message: Vec<u8>) -> (out: ([u8; 255], usize))
    requires
        message@.len() <= RADIO_BUFFER_LEN,
    ensures
        out.0@ == padded(message@),
        out.1 == message@.len(),
{
    let mut buffer: [u8; 255] = [0u8; 255];
    let len: usize = message.len();
    let mut i: usize = 0;
    while i < len
        invariant
            i <= len,
            len == message@.len(),
            len <= 255,
            forall|j: int| 0 <= j < i ==> buffer@[j] == message@[j],
            forall|j: int| i <= j < 255 ==> buffer@[j] == 0u8,
        decreases len - i,
    {
        buffer[i] = message[i];
        i = i + 1;
    }
    assert(buffer@ =~= padded(message@));
    (buffer, len)
}

/// The radio buffer for `message`, or `None` when the message is longer
/// than the buffer.
pub fn radio_buffer(message: Vec<u8>) -> (out: Option<([u8; 255], usize)>)
    ensures
        out is Some <==> message@.len() <= RADIO_BUFFER_LEN,
        out matches Some(b) ==> b.0@ == padded(message@) && b.1 == message@.len(),
{
    if message.len() > RADIO_BUFFER_LEN {
        None
    } else {
        Some(get_message_lenght(message))
    }
}

/// The bytes of `buffer` that count: its first `len`.
pub fn received_bytes(buffer: &[u8; 255], len: usize) -> (bytes: Vec<u8>)
    requires
        len <= RADIO_BUFFER_LEN,
    ensures
        bytes@ == buffer@.subrange(0, len as int),
{
    slice_to_vec(slice_subrange(buffer.as_slice(), 0, len))
}

/// The payload of a first message: the frame without type and counter.
pub fn unpack_edhoc_first_message(msg: Vec<u8>) -> (payload: Vec<u8>)
    requires
        msg@.len() >= 3,
    ensures
        payload@ == decode(msg@, true).payload,
{
    tail_from(msg.as_slice(), HEADER_LEN)
}

/// Payload and address of an addressed handshake frame.
pub fn unpack_edhoc_message(msg: Vec<u8>) -> (out: (Vec<u8>, [u8; 4]))
    requires
        msg@.len() >= 7,
    ensures
        out.0@ == decode(msg@, false).payload,
        out.1@ == decode(msg@, false).devaddr,
{
    let bytes: &[u8] = msg.as_slice();
    (tail_from(bytes, ADDRESSED_LEN), devaddr_at(bytes, HEADER_LEN))
}

/// The two counter bytes give back the counter they were made from.
pub proof fn lemma_fcnt_bytes(fcnt: u16)
    ensures
        fcnt_of(fcnt_hi(fcnt), fcnt_lo(fcnt)) == fcnt,
{
}

/// A counter gives back the two bytes it was read from.
pub proof fn lemma_bytes_fcnt(hi: u8, lo: u8)
    ensures
        fcnt_hi(fcnt_of(hi, lo)) == hi,
        fcnt_lo(fcnt_of(hi, lo)) == lo,
{
}

/// Framing what an addressed frame was taken apart into gives the frame
/// back, byte for byte.
pub proof fn lemma_encode_decode(b: Seq<u8>)
    requires
        b.len() >= 7,
    ensures
        encode(
            decode(b, false).payload,
            decode(b, false).mtype,
            decode(b, false).fcnt,
            decode(b, false).devaddr,
            false,
        ) == b,
        encode(
            decode(b, false).payload,
            decode(b, false).mtype,
            decode(b, false).fcnt,
            decode(b, false).devaddr,
            false,
        ) == b.subrange(0, 7 + decode(b, false).payload.len() as int),
{
    let e = decode(b, false);
    lemma_bytes_fcnt(b[1], b[2]);
    assert(encode(e.payload, e.mtype, e.fcnt, e.devaddr, false) =~= b);
    assert(b.subrange(0, 7 + e.payload.len() as int) =~= b);
}

/// The same for a first message, which carries no address.
pub proof fn lemma_encode_decode_first(b: Seq<u8>)
    requires
        b.len() >= 3,
    ensures
        encode(
            decode(b, true).payload,
            decode(b, true).mtype,
            decode(b, true).fcnt,
            decode(b, true).devaddr,
            true,
        ) == b,
{
    let e = decode(b, true);
    lemma_bytes_fcnt(b[1], b[2]);
    assert(encode(e.payload, e.mtype, e.fcnt, e.devaddr, true) =~= b);
}

/// Taking apart what was framed gives back what went in.
pub proof fn lemma_decode_encode(
    payload: Seq<u8>,
    mtype: u8,
    fcnt: u16,
    devaddr: Seq<u8>,
    first_msg: bool,
)
    requires
        devaddr.len() == 4,
    ensures
        encode(payload, mtype, fcnt, devaddr, first_msg).len() == min_len(first_msg)
            + payload.len(),
        decode(encode(payload, mtype, fcnt, devaddr, first_msg), first_msg).mtype == mtype,
        decode(encode(payload, mtype, fcnt, devaddr, first_msg), first_msg).fcnt == fcnt,
        decode(encode(payload, mtype, fcnt, devaddr, first_msg), first_msg).payload == payload,
        !first_msg ==> decode(encode(payload, mtype, fcnt, devaddr, first_msg), first_msg).devaddr
            == devaddr,
{
    let b = encode(payload, mtype, fcnt, devaddr, first_msg);
    lemma_fcnt_bytes(fcnt);
    assert(decode(b, first_msg).payload =~= payload);
    if !first_msg {
        assert(decode(b, first_msg).devaddr =~= devaddr);
    }
}

/// Two frames sent one after the other from one counter carry counters that
/// differ by exactly one, modulo 65536.
pub proof fn lemma_consecutive_fcnt(
    start: u16,
    earlier: Seq<u8>,
    earlier_type: u8,
    earlier_devaddr: Seq<u8>,
    earlier_first: bool,
    later: Seq<u8>,
    later_type: u8,
    later_devaddr: Seq<u8>,
    later_first: bool,
)
    requires
        earlier_devaddr.len() == 4,
        later_devaddr.len() == 4,
    ensures
        decode(
            encode(later, later_type, next_fcnt(start), later_devaddr, later_first),
            later_first,
        ).fcnt as int == (decode(
            encode(earlier, earlier_type, start, earlier_devaddr, earlier_first),
            earlier_first,
        ).fcnt as int + 1) % 65536,
{
    lemma_decode_encode(earlier, earlier_type, start, earlier_devaddr, earlier_first);
    lemma_decode_encode(later, later_type, next_fcnt(start), later_devaddr, later_first);
}

} // verus!
