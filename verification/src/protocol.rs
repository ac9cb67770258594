//! The wire envelope exchanged over the radio.
//!
//! An envelope carries a sequence id and a tagged payload of channel
//! values.  It is encoded into a fixed 13-byte layout: the sequence id as
//! four little-endian bytes, one discriminant byte for the payload
//! variant, then the four channel values as little-endian byte pairs.
//! The layout is deterministic, round-trips exactly, and fits the radio's
//! 32-byte transport buffer.

use vstd::prelude::*;

verus! {

/// One control value: an unsigned 16-bit quantity.
pub type Value = u16;

/// A channel number.
pub type Channel = u16;

/// The radio channel both nodes use.
pub const FREQUENCY: u8 = 76;

/// Network address of the transmit direction.
pub const TX_ADDRESS: [u8; 5] = ['R' as u8, 'C' as u8, 'T' as u8, 'X' as u8, 0x00];

/// Network address of the receive direction.
pub const RX_ADDRESS: [u8; 5] = ['R' as u8, 'C' as u8, 'R' as u8, 'X' as u8, 0x00];

/// Number of bytes of an encoded envelope with today's single variant.
pub const ENCODED_LEN: usize = 13;

/// The radio transport takes at most this many bytes in one packet.
pub const TRANSPORT_CAPACITY: usize = 32;

/// Discriminant byte of `TransmitterMessage::ChannelValues`; further
/// variants would take the bytes after it.
pub const CHANNEL_VALUES_TAG: u8 = 0;

/// The tagged payload of an envelope.
#[derive(Clone, Copy, Debug)]
pub enum TransmitterMessage {
    ChannelValues([Value; 4]),
}

impl PartialEq for TransmitterMessage {
    fn eq(&self, other: &Self) -> (r: bool) {
        match (self, other) {
            (
                TransmitterMessage::ChannelValues(a),
                TransmitterMessage::ChannelValues(b),
            ) => {
                let same = a[0] == b[0] && a[1] == b[1] && a[2] == b[2] && a[3] == b[3];
                proof {
                    if same {
                        assert(a =~= b);
                    }
                }
                same
            },
        }
    }
}

impl vstd::std_specs::cmp::PartialEqSpecImpl for TransmitterMessage {
    open spec fn obeys_eq_spec() -> bool {
        true
    }

    open spec fn eq_spec(&self, other: &Self) -> bool {
        *self == *other
    }
}

/// The radio message: a sequence id and a tagged payload.  The sender
/// increases `correlation_id` by one per transmitted envelope; the
/// receiver uses the gaps to count lost packets.
#[derive(Clone, Copy, Debug)]
pub struct Transmitter {
    pub correlation_id: u32,
    pub body: TransmitterMessage,
}

impl PartialEq for Transmitter {
    fn eq(&self, other: &Self) -> (r: bool) {
        self.correlation_id == other.correlation_id && self.body == other.body
    }
}

impl vstd::std_specs::cmp::PartialEqSpecImpl for Transmitter {
    open spec fn obeys_eq_spec() -> bool {
        true
    }

    open spec fn eq_spec(&self, other: &Self) -> bool {
        *self == *other
    }
}

/// Why an envelope could not be encoded.
#[derive(Clone, Copy, Debug, PartialEq, Eq, Structural)]
pub enum EncodeError {
    /// The encoding would exceed the transport buffer.
    EncodeOverflow,
}

/// Why a received payload was rejected.  Rejection is non-fatal: the
/// caller drops the packet and carries on.
#[derive(Clone, Copy, Debug, PartialEq, Eq, Structural)]
pub enum DecodeError {
    /// The payload is not exactly the encoded length.
    WrongLength,
    /// The discriminant byte names no known variant.
    UnknownDiscriminant,
}

/// A 16-bit word as two bytes, least significant first.
pub open spec fn le16(v: u16) -> Seq<u8> {
    seq![(v % 0x100) as u8, (v / 0x100) as u8]
}

/// A 32-bit word as four bytes, least significant first.
pub open spec fn le32(v: u32) -> Seq<u8> {
    seq![
        (v % 0x100) as u8,
        ((v / 0x100) % 0x100) as u8,
        ((v / 0x10000) % 0x100) as u8,
        (v / 0x1000000) as u8,
    ]
}

/// The 16-bit word two little-endian bytes stand for.
pub open spec fn word16(b0: u8, b1: u8) -> u16 {
    (b0 + 0x100 * b1) as u16
}

/// The 32-bit word four little-endian bytes stand for.
pub open spec fn word32(b0: u8, b1: u8, b2: u8, b3: u8) -> u32 {
    (b0 + 0x100 * b1 + 0x10000 * b2 + 0x1000000 * b3) as u32
}

/// The 13-byte wire encoding of an envelope.
pub open spec fn encode_spec(t: Transmitter) -> Seq<u8> {
    match t.body {
        TransmitterMessage::ChannelValues(vals) => le32(t.correlation_id) + seq![
            CHANNEL_VALUES_TAG,
        ] + le16(vals[0]) + le16(vals[1]) + le16(vals[2]) + le16(vals[3]),
    }
}

/// The envelope a payload stands for, if it is well-formed: exactly the
/// encoded length, with a known discriminant.
pub open spec fn decode_spec(bytes: Seq<u8>) -> Option<Transmitter> {
    if bytes.len() != ENCODED_LEN {
        None
    } else if bytes[4] != CHANNEL_VALUES_TAG {
        None
    } else {
        Some(
            Transmitter {
                correlation_id: word32(bytes[0], bytes[1], bytes[2], bytes[3]),
                body: TransmitterMessage::ChannelValues(
                    [
                        word16(bytes[5], bytes[6]),
                        word16(bytes[7], bytes[8]),
                        word16(bytes[9], bytes[10]),
                        word16(bytes[11], bytes[12]),
                    ],
                ),
            },
        )
    }
}

/// An encoded envelope always fits the radio's transport buffer.
pub proof fn lemma_envelope_fits(t: Transmitter)
    ensures
        encode_spec(t).len() == ENCODED_LEN,
        encode_spec(t).len() <= TRANSPORT_CAPACITY,
{
}

/// Envelope round-trip: decoding what an envelope encodes to gives the
/// envelope back, for every envelope value.
pub proof fn lemma_envelope_round_trip(t: Transmitter)
    ensures
        decode_spec(encode_spec(t)) == Some(t),
{
    match t.body {
        TransmitterMessage::ChannelValues(vals) => {
            let e = encode_spec(t);
            assert(e.len() == ENCODED_LEN);
            assert(e[4] == CHANNEL_VALUES_TAG);
            assert(word32(e[0], e[1], e[2], e[3]) == t.correlation_id);
            assert(word16(e[5], e[6]) == vals[0]);
            assert(word16(e[7], e[8]) == vals[1]);
            assert(word16(e[9], e[10]) == vals[2]);
            assert(word16(e[11], e[12]) == vals[3]);
            let decoded = decode_spec(e)->Some_0;
            match decoded.body {
                TransmitterMessage::ChannelValues(dvals) => {
                    assert(dvals =~= vals);
                },
            }
        },
    }
}

impl Transmitter {
    /// Encode this envelope for the radio.  With today's single variant
    /// the encoding is always 13 bytes, well inside the 32-byte transport
    /// buffer, so this never fails; `EncodeOverflow` is reserved for
    /// variants that would not fit.
    pub fn encode(&self) -> (r: Result<Vec<u8>, EncodeError>)
        ensures
            r is Ok,
            r is Ok ==> r->Ok_0@ == encode_spec(*self),
    {
        let mut out: Vec<u8> = Vec::new();
        let id = self.correlation_id;
        out.push((id % 0x100) as u8);
        out.push(((id / 0x100) % 0x100) as u8);
        out.push(((id / 0x10000) % 0x100) as u8);
        out.push((id / 0x1000000) as u8);
        match &self.body {
            TransmitterMessage::ChannelValues(vals) => {
                out.push(CHANNEL_VALUES_TAG);
                let v0 = vals[0];
                out.push((v0 % 0x100) as u8);
                out.push((v0 / 0x100) as u8);
                let v1 = vals[1];
                out.push((v1 % 0x100) as u8);
                out.push((v1 / 0x100) as u8);
                let v2 = vals[2];
                out.push((v2 % 0x100) as u8);
                out.push((v2 / 0x100) as u8);
                let v3 = vals[3];
                out.push((v3 % 0x100) as u8);
                out.push((v3 / 0x100) as u8);
            },
        }
        proof {
            assert(out@ =~= encode_spec(*self));
        }
        Ok(out)
    }

    /// Decode a received payload.  Succeeds exactly on well-formed
    /// payloads; a malformed one is reported, never panicked over, so the
    /// caller can drop the packet and continue.
    pub fn decode(bytes: &[u8]) -> (r: Result<Transmitter, DecodeError>)
        ensures
            r is Ok <==> decode_spec(bytes@) is Some,
            r is Ok ==> Some(r->Ok_0) == decode_spec(bytes@),
            r is Err ==> (r->Err_0 == DecodeError::WrongLength <==> bytes@.len() != ENCODED_LEN),
            r is Err ==> (r->Err_0 == DecodeError::UnknownDiscriminant <==> bytes@.len()
                == ENCODED_LEN && bytes@[4] != CHANNEL_VALUES_TAG),
    {
        if bytes.len() != ENCODED_LEN {
            return Err(DecodeError::WrongLength);
        }
        if bytes[4] != CHANNEL_VALUES_TAG {
            return Err(DecodeError::UnknownDiscriminant);
        }
        let correlation_id = (bytes[0] as u32) + 0x100 * (bytes[1] as u32) + 0x10000 * (
        bytes[2] as u32) + 0x1000000 * (bytes[3] as u32);
        let v0 = (bytes[5] as u16) + 0x100 * (bytes[6] as u16);
        let v1 = (bytes[7] as u16) + 0x100 * (bytes[8] as u16);
        let v2 = (bytes[9] as u16) + 0x100 * (bytes[10] as u16);
        let v3 = (bytes[11] as u16) + 0x100 * (bytes[12] as u16);
        let t = Transmitter {
            correlation_id,
            body: TransmitterMessage::ChannelValues([v0, v1, v2, v3]),
        };
        proof {
            let d = decode_spec(bytes@)->Some_0;
            match d.body {
                TransmitterMessage::ChannelValues(dvals) => {
                    assert(dvals =~= [v0, v1, v2, v3]);
                },
            }
        }
        Ok(t)
    }
}

} // verus!
