//! The serial output protocol consumed by the flight controller.
//!
//! A frame is: one vendor/sync byte, one status byte, one channel-count
//! byte, the scaled channel values as big-endian 16-bit words, and finally
//! the CRC of all preceding bytes as two big-endian bytes.  The CRC bytes
//! are not fed back into the CRC itself.

use vstd::prelude::*;
use vstd::slice::slice_to_vec;
use crate::crc::{Crc16, crc_of, crc_update, lemma_crc_of_push};

verus! {

/// Every packet starts with the vendor id.
pub const VENDOR_ID: u8 = 0xa8;

/// Most channels a frame can carry.
pub const MAX_CHANNELS: usize = 32;

/// Capacity of the transmit buffer: the largest frame, 3 + 2 * 32 + 2 bytes.
pub const FRAME_CAPACITY: usize = 69;

/// Extended low position (-150%), equivalent to a 900us pulse length.
pub const EXTENDED_LOW: u16 = 0x1c20;

/// Low position (-100%), equivalent to a 1100us pulse length.
pub const LOW: u16 = 0x2260;

/// Neutral position (0%), equivalent to a 1500us pulse length.
pub const NEUTRAL: u16 = 0x2ee0;

/// High position (100%), equivalent to a 1900us pulse length.
pub const HIGH: u16 = 0x3b60;

/// Extended high position (+150%), equivalent to a 2100us pulse length.
pub const EXTENDED_HIGH: u16 = 0x41a0;

/// Divisor that maps the raw 16-bit span onto the LOW..HIGH span: the
/// integer ratio 0xffff / (HIGH - LOW).
pub const SCALE: u16 = 10;

/// Value a raw sample of 0 scales to: the low reference position.
pub const OFFSET: u16 = 0x2260;

/// The health of the link, as reported to the flight controller.
#[derive(Clone, Copy, Debug, PartialEq, Eq, Structural)]
pub enum Status {
    Live,
    FailSafe,
}

/// How a status is put on the wire.
pub open spec fn status_byte(status: Status) -> u8 {
    match status {
        Status::Live => 0x01,
        Status::FailSafe => 0x81,
    }
}

impl Status {
    /// The wire encoding of this status.
    pub fn to_byte(&self) -> (r: u8)
        ensures
            r == status_byte(*self),
    {
        match self {
            Status::Live => 0x01,
            Status::FailSafe => 0x81,
        }
    }
}

/// The scaling formula: a raw sample is divided by `SCALE` (the integer
/// ratio of the raw span to the LOW..HIGH span) and shifted up by `OFFSET`,
/// so that raw 0 maps to exactly `LOW`, raw 65535 maps just above `HIGH`,
/// and the raw midpoint maps close to `NEUTRAL`.
pub open spec fn normalise_spec(value: u16) -> u16 {
    (value / SCALE + OFFSET) as u16
}

/// Map a raw 16-bit sample into the pulse-width domain the flight
/// controller expects.
pub fn normalise(value: u16) -> (r: u16)
    ensures
        r == normalise_spec(value),
{
    value / SCALE + OFFSET
}

/// The scaling hits its reference points: raw 0 lands on `LOW`, raw 65535
/// lands at or above `HIGH`, and the raw value 32000 lands on `NEUTRAL`.
pub proof fn lemma_scaling_boundaries()
    ensures
        normalise_spec(0) <= LOW,
        normalise_spec(0xffff) >= HIGH,
        normalise_spec(32000) == NEUTRAL,
{
}

/// A 16-bit word as two bytes, most significant first.
pub open spec fn be16(v: u16) -> Seq<u8> {
    seq![(v / 0x100) as u8, (v % 0x100) as u8]
}

/// The scaled channel values as big-endian byte pairs, in channel order.
pub open spec fn values_bytes(vals: Seq<u16>) -> Seq<u8>
    decreases vals.len(),
{
    if vals.len() == 0 {
        Seq::empty()
    } else {
        values_bytes(vals.drop_last()) + be16(normalise_spec(vals.last()))
    }
}

/// Everything of a frame that the CRC covers: vendor id, status byte,
/// channel count, then the scaled values.
pub open spec fn frame_payload(status: Status, vals: Seq<u16>) -> Seq<u8> {
    seq![VENDOR_ID, status_byte(status), vals.len() as u8] + values_bytes(vals)
}

/// A whole frame: the payload followed by its CRC, big-endian.  The CRC
/// bytes themselves are outside what the CRC is computed over.
pub open spec fn frame_bytes(status: Status, vals: Seq<u16>) -> Seq<u8> {
    frame_payload(status, vals) + be16(crc_of(frame_payload(status, vals)))
}

pub proof fn lemma_values_bytes_len(vals: Seq<u16>)
    ensures
        values_bytes(vals).len() == 2 * vals.len(),
    decreases vals.len(),
{
    if vals.len() > 0 {
        lemma_values_bytes_len(vals.drop_last());
    }
}

/// Output frame shape: a frame over `n` channels is exactly 3 + 2n + 2
/// bytes long, starts with the vendor id, and its second byte is one of
/// the two status encodings.
pub proof fn lemma_frame_shape(status: Status, vals: Seq<u16>)
    ensures
        frame_bytes(status, vals).len() == 3 + 2 * vals.len() + 2,
        frame_bytes(status, vals)[0] == VENDOR_ID,
        frame_bytes(status, vals)[1] == status_byte(status),
        status_byte(status) == 0x01 || status_byte(status) == 0x81,
{
    lemma_values_bytes_len(vals);
}

/// The CRC at the end of a frame is computed over all bytes before it and
/// over nothing else: the two CRC bytes are not fed back into the CRC.
pub proof fn lemma_frame_crc_excluded(status: Status, vals: Seq<u16>)
    ensures
        frame_bytes(status, vals).len() >= 5,
        frame_bytes(status, vals).take(frame_bytes(status, vals).len() - 2) == frame_payload(
            status,
            vals,
        ),
        frame_bytes(status, vals).skip(frame_bytes(status, vals).len() - 2) == be16(
            crc_of(frame_bytes(status, vals).take(frame_bytes(status, vals).len() - 2)),
        ),
{
    lemma_values_bytes_len(vals);
    assert(frame_bytes(status, vals).take(frame_bytes(status, vals).len() - 2) =~= frame_payload(
        status,
        vals,
    ));
    assert(frame_bytes(status, vals).skip(frame_bytes(status, vals).len() - 2) =~= be16(
        crc_of(frame_payload(status, vals)),
    ));
}

/// Why an output frame could not be encoded.
#[derive(Clone, Copy, Debug, PartialEq, Eq, Structural)]
pub enum FrameError {
    /// More channels than the frame format supports.
    FrameTooLarge,
    /// The transmit buffer has no room left for the frame.
    BufferFull,
}

/// Fixed-capacity transmit buffer for output frames.
///
/// Verus cannot look inside `heapless::Vec`, so the buffer is held behind
/// this struct; `buf_bytes` names its contents and the trusted method
/// wrappers below state, over that name, what the heapless calls do.
#[verifier::external_body]
pub struct SumdBuffer(heapless::Vec<u8, 69>);

/// The bytes a buffer holds, oldest first.
pub uninterp spec fn buf_bytes(b: SumdBuffer) -> Seq<u8>;

impl SumdBuffer {
    /// Relies on `heapless::Vec::new`: a fresh vector is empty.
    #[verifier::external_body]
    pub fn new() -> (r: Self)
        ensures
            buf_bytes(r) == Seq::<u8>::empty(),
    {
        SumdBuffer(heapless::Vec::new())
    }

    /// Relies on `heapless::Vec::len`: the number of elements pushed so far.
    #[verifier::external_body]
    pub fn len(&self) -> (r: usize)
        ensures
            r == buf_bytes(*self).len(),
    {
        self.0.len()
    }

    /// Relies on `heapless::Vec::as_slice`: the pushed bytes, in order.
    #[verifier::external_body]
    pub fn as_slice(&self) -> (r: &[u8])
        ensures
            r@ == buf_bytes(*self),
    {
        self.0.as_slice()
    }

    /// Relies on `heapless::Vec::push`: appends while below the capacity of
    /// 69, and otherwise hands the byte back and changes nothing.
    #[verifier::external_body]
    fn push(&mut self, byte: u8) -> (r: Result<(), u8>)
        ensures
            r is Ok <==> buf_bytes(*old(self)).len() < 69,
            r is Ok ==> buf_bytes(*final(self)) == buf_bytes(*old(self)).push(byte),
            r is Err ==> r->Err_0 == byte,
            r is Err ==> buf_bytes(*final(self)) == buf_bytes(*old(self)),
    {
        self.0.push(byte)
    }

    /// Append one byte and feed it through the CRC accumulator.
    fn put(&mut self, crc: &mut Crc16, byte: u8)
        requires
            buf_bytes(*old(self)).len() < 69,
        ensures
            buf_bytes(*final(self)) == buf_bytes(*old(self)).push(byte),
            final(crc).state() == crc_update(old(crc).state(), byte),
    {
        let _ = self.push(byte);
        crc.update(byte);
    }

    /// Append a whole frame over `values` to the buffer.
    ///
    /// Fails with `FrameTooLarge` when there are more than `MAX_CHANNELS`
    /// values, and with `BufferFull` when the buffer has too little room
    /// left; in both cases the buffer is unchanged.  A frame over at most
    /// 32 channels always fits in a fresh buffer.
    #[verifier::rlimit(60)]
    pub fn encode(&mut self, status: Status, values: &[u16]) -> (r: Result<(), FrameError>)
        ensures
            values@.len() > MAX_CHANNELS ==> r == Err::<(), FrameError>(FrameError::FrameTooLarge)
                && buf_bytes(*final(self)) == buf_bytes(*old(self)),
            values@.len() <= MAX_CHANNELS && buf_bytes(*old(self)).len() + 5 + 2 * values@.len()
                > FRAME_CAPACITY ==> r == Err::<(), FrameError>(FrameError::BufferFull)
                && buf_bytes(*final(self)) == buf_bytes(*old(self)),
            values@.len() <= MAX_CHANNELS && buf_bytes(*old(self)).len() + 5 + 2 * values@.len()
                <= FRAME_CAPACITY ==> r == Ok::<(), FrameError>(()) && buf_bytes(*final(self))
                == buf_bytes(*old(self)) + frame_bytes(status, values@),
    {
        let n = values.len();
        if n > MAX_CHANNELS {
            return Err(FrameError::FrameTooLarge);
        }
        if self.len() > FRAME_CAPACITY - 5 - 2 * n {
            return Err(FrameError::BufferFull);
        }
        let ghost start = buf_bytes(*self);
        let ghost hdr = seq![VENDOR_ID, status_byte(status), n as u8];
        let mut crc = Crc16::new();
        self.put(&mut crc, VENDOR_ID);
        self.put(&mut crc, status.to_byte());
        self.put(&mut crc, n as u8);
        proof {
            assert(buf_bytes(*self) =~= start + hdr);
            lemma_crc_of_push(Seq::<u8>::empty(), VENDOR_ID);
            lemma_crc_of_push(Seq::<u8>::empty().push(VENDOR_ID), status_byte(status));
            lemma_crc_of_push(
                Seq::<u8>::empty().push(VENDOR_ID).push(status_byte(status)),
                n as u8,
            );
            assert(hdr =~= Seq::<u8>::empty().push(VENDOR_ID).push(status_byte(status)).push(
                n as u8,
            ));
            assert(values@.take(0) =~= Seq::<u16>::empty());
            assert(hdr + values_bytes(values@.take(0)) =~= hdr);
        }
        let mut i: usize = 0;
        while i < n
            invariant
                i <= n,
                n == values@.len(),
                n <= MAX_CHANNELS,
                buf_bytes(*self) == start + hdr + values_bytes(values@.take(i as int)),
                crc.state() == crc_of(hdr + values_bytes(values@.take(i as int))),
                start.len() + 5 + 2 * n <= FRAME_CAPACITY,
            decreases n - i,
        {
            proof {
                lemma_values_bytes_len(values@.take(i as int));
            }
            let v = normalise(values[i]);
            self.put(&mut crc, (v / 0x100) as u8);
            self.put(&mut crc, (v % 0x100) as u8);
            proof {
                let prev = hdr + values_bytes(values@.take(i as int));
                let hi = (normalise_spec(values@[i as int]) / 0x100) as u8;
                let lo = (normalise_spec(values@[i as int]) % 0x100) as u8;
                lemma_crc_of_push(prev, hi);
                lemma_crc_of_push(prev.push(hi), lo);
                assert(values@.take(i + 1).drop_last() =~= values@.take(i as int));
                assert(values@.take(i + 1).last() == values@[i as int]);
                assert(values_bytes(values@.take(i + 1)) == values_bytes(values@.take(i as int))
                    + be16(normalise_spec(values@[i as int])));
                assert(hdr + values_bytes(values@.take(i + 1)) =~= prev.push(hi).push(lo));
                assert(buf_bytes(*self) =~= start + hdr + values_bytes(values@.take(i + 1)));
            }
            i = i + 1;
        }
        proof {
            assert(values@.take(n as int) =~= values@);
            lemma_values_bytes_len(values@);
            assert(hdr + values_bytes(values@) =~= frame_payload(status, values@));
        }
        let c = crc.value();
        let _ = self.push((c / 0x100) as u8);
        let _ = self.push((c % 0x100) as u8);
        proof {
            assert(buf_bytes(*self) =~= start + frame_bytes(status, values@));
        }
        Ok(())
    }
}

/// Build a whole output frame over `values` with the given status.
///
/// This is the frame the flight controller consumes: it succeeds exactly
/// when there are at most `MAX_CHANNELS` values, and then returns the
/// 3 + 2n + 2 frame bytes; with more channels it fails with
/// `FrameTooLarge` rather than truncate.
pub fn encode_frame(status: Status, values: &[u16]) -> (r: Result<Vec<u8>, FrameError>)
    ensures
        r is Ok <==> values@.len() <= MAX_CHANNELS,
        r is Ok ==> r->Ok_0@ == frame_bytes(status, values@),
        r is Err ==> r->Err_0 == FrameError::FrameTooLarge,
{
    if values.len() > MAX_CHANNELS {
        return Err(FrameError::FrameTooLarge);
    }
    let mut buffer = SumdBuffer::new();
    let result = buffer.encode(status, values);
    proof {
        assert(Seq::<u8>::empty() + frame_bytes(status, values@) =~= frame_bytes(
            status,
            values@,
        ));
    }
    match result {
        Ok(()) => Ok(slice_to_vec(buffer.as_slice())),
        Err(e) => {
            proof {
                assert(false);
            }
            Err(e)
        },
    }
}

} // verus!
