//! RTP-style media packets and their fixed binary layout.
//!
//! An encoded packet is the 12-byte RTP header followed by the payload, at
//! most `MAX_PACKET_SIZE` bytes in all. The stream type is not part of the
//! encoding: it travels alongside, as the stream the bytes are carried on,
//! and is handed back to `from_bytes`.
//!
//! | byte   | content                                                  |
//! |--------|----------------------------------------------------------|
//! | 0      | version (2 bits), padding, extension, CSRC count (4 bits) |
//! | 1      | marker, payload type (7 bits)                            |
//! | 2..4   | sequence number, big-endian                              |
//! | 4..8   | timestamp, big-endian                                    |
//! | 8..12  | SSRC, big-endian                                         |
//! | 12..   | payload                                                  |
//!
//! Decoding refuses empty input and input longer than `MAX_PACKET_SIZE`
//! before it looks at any field.

use vstd::prelude::*;
use crate::stream::{StreamType, MAX_PACKET_SIZE};

verus! {

/// Largest payload: the packet size less the 12-byte header.
pub const MAX_PAYLOAD_SIZE: usize = 1188;

/// Size of the RTP header.
pub const HEADER_SIZE: usize = 12;

/// Errors of packet construction and decoding.
#[derive(Debug, Clone, Copy, PartialEq, Eq, Structural)]
pub enum PacketError {
    /// The payload is longer than `MAX_PAYLOAD_SIZE`.
    PayloadTooLarge {
        /// Payload length
        size: usize,
        /// Largest allowed
        max: usize,
    },
    /// The payload type does not fit in 7 bits.
    InvalidPayloadType(u8),
    /// The input to decode is empty.
    EmptyInput,
    /// The input to decode is longer than `MAX_PACKET_SIZE`.
    InputTooLarge {
        /// Input length
        size: usize,
        /// Largest allowed
        max: usize,
    },
    /// A header field holds a value the layout cannot carry.
    InvalidHeader,
    /// The input is not an encoded packet.
    Malformed,
}

/// A media packet.
#[derive(Debug, Clone, PartialEq, Eq)]
pub struct RtpPacket {
    /// RTP version (always 2)
    pub version: u8,
    /// Padding bit
    pub padding: bool,
    /// Extension bit
    pub extension: bool,
    /// CSRC count
    pub csrc_count: u8,
    /// Marker bit
    pub marker: bool,
    /// Payload type
    pub payload_type: u8,
    /// Sequence number
    pub sequence_number: u16,
    /// Timestamp
    pub timestamp: u32,
    /// SSRC identifier
    pub ssrc: u32,
    /// Payload data
    pub payload: Vec<u8>,
    /// Stream type classification
    pub stream_type: StreamType,
}

/// The fields of a packet, with the payload as a sequence.
pub struct PacketView {
    /// RTP version
    pub version: u8,
    /// Padding bit
    pub padding: bool,
    /// Extension bit
    pub extension: bool,
    /// CSRC count
    pub csrc_count: u8,
    /// Marker bit
    pub marker: bool,
    /// Payload type
    pub payload_type: u8,
    /// Sequence number
    pub sequence_number: u16,
    /// Timestamp
    pub timestamp: u32,
    /// SSRC identifier
    pub ssrc: u32,
    /// Payload
    pub payload: Seq<u8>,
    /// Stream type
    pub stream_type: StreamType,
}

impl View for RtpPacket {
    type V = PacketView;

    open spec fn view(&self) -> PacketView {
        PacketView {
            version: self.version,
            padding: self.padding,
            extension: self.extension,
            csrc_count: self.csrc_count,
            marker: self.marker,
            payload_type: self.payload_type,
            sequence_number: self.sequence_number,
            timestamp: self.timestamp,
            ssrc: self.ssrc,
            payload: self.payload@,
            stream_type: self.stream_type,
        }
    }
}

/// Header values the layout can carry, and a payload within the bound.
pub open spec fn valid_packet(p: PacketView) -> bool {
    &&& p.version == 2
    &&& p.csrc_count < 16
    &&& p.payload_type < 128
    &&& p.payload.len() <= MAX_PAYLOAD_SIZE
}

/// 1 for a set bit, 0 otherwise.
pub open spec fn bit(b: bool) -> u8 {
    if b { 1 } else { 0 }
}

/// First header byte.
pub open spec fn flags_byte(p: PacketView) -> u8 {
    (p.version << 6u8) | (bit(p.padding) << 5u8) | (bit(p.extension) << 4u8) | p.csrc_count
}

/// Second header byte.
pub open spec fn marker_byte(p: PacketView) -> u8 {
    (bit(p.marker) << 7u8) | p.payload_type
}

/// Big-endian bytes of a 16-bit value.
pub open spec fn be16(x: u16) -> Seq<u8> {
    seq![(x >> 8u16) as u8, (x & 0xffu16) as u8]
}

/// Big-endian bytes of a 32-bit value.
pub open spec fn be32(x: u32) -> Seq<u8> {
    seq![
        (x >> 24u32) as u8,
        ((x >> 16u32) & 0xffu32) as u8,
        ((x >> 8u32) & 0xffu32) as u8,
        (x & 0xffu32) as u8,
    ]
}

/// The 16-bit value of two big-endian bytes.
pub open spec fn read16(a: u8, b: u8) -> u16 {
    ((a as u16) << 8u16) | (b as u16)
}

/// The 32-bit value of four big-endian bytes.
pub open spec fn read32(a: u8, b: u8, c: u8, d: u8) -> u32 {
    ((a as u32) << 24u32) | ((b as u32) << 16u32) | ((c as u32) << 8u32) | (d as u32)
}

/// The RTP header of a packet.
pub open spec fn header(p: PacketView) -> Seq<u8> {
    seq![flags_byte(p), marker_byte(p)] + be16(p.sequence_number) + be32(p.timestamp) + be32(
        p.ssrc,
    )
}

/// The encoding of a packet.
pub open spec fn encode(p: PacketView) -> Seq<u8> {
    header(p) + p.payload
}

/// The packet that a byte sequence encodes, if any, when it arrived on a
/// stream of type `t`.
pub open spec fn decode(b: Seq<u8>, t: StreamType) -> Option<PacketView> {
    if b.len() < HEADER_SIZE || b.len() > MAX_PACKET_SIZE || b[0] >> 6u8 != 2 {
        None
    } else {
        Some(
            PacketView {
                version: b[0] >> 6u8,
                padding: (b[0] >> 5u8) & 1u8 == 1,
                extension: (b[0] >> 4u8) & 1u8 == 1,
                csrc_count: b[0] & 15u8,
                marker: b[1] >> 7u8 == 1,
                payload_type: b[1] & 127u8,
                sequence_number: read16(b[2], b[3]),
                timestamp: read32(b[4], b[5], b[6], b[7]),
                ssrc: read32(b[8], b[9], b[10], b[11]),
                payload: b.subrange(HEADER_SIZE as int, b.len() as int),
                stream_type: t,
            },
        )
    }
}

proof fn lemma_flags(v: u8, p: u8, x: u8, cc: u8)
    requires
        v == 2,
        p <= 1,
        x <= 1,
        cc < 16,
    ensures
        ((v << 6u8) | (p << 5u8) | (x << 4u8) | cc) >> 6u8 == 2,
        (((v << 6u8) | (p << 5u8) | (x << 4u8) | cc) >> 5u8) & 1u8 == p,
        (((v << 6u8) | (p << 5u8) | (x << 4u8) | cc) >> 4u8) & 1u8 == x,
        ((v << 6u8) | (p << 5u8) | (x << 4u8) | cc) & 15u8 == cc,
{
    assert(((v << 6u8) | (p << 5u8) | (x << 4u8) | cc) >> 6u8 == 2) by (bit_vector)
        requires
            v == 2,
            p <= 1,
            x <= 1,
            cc < 16,
    ;
    assert((((v << 6u8) | (p << 5u8) | (x << 4u8) | cc) >> 5u8) & 1u8 == p) by (bit_vector)
        requires
            v == 2,
            p <= 1,
            x <= 1,
            cc < 16,
    ;
    assert((((v << 6u8) | (p << 5u8) | (x << 4u8) | cc) >> 4u8) & 1u8 == x) by (bit_vector)
        requires
            v == 2,
            p <= 1,
            x <= 1,
            cc < 16,
    ;
    assert(((v << 6u8) | (p << 5u8) | (x << 4u8) | cc) & 15u8 == cc) by (bit_vector)
        requires
            v == 2,
            p <= 1,
            x <= 1,
            cc < 16,
    ;
}

proof fn lemma_marker(m: u8, pt: u8)
    requires
        m <= 1,
        pt < 128,
    ensures
        ((m << 7u8) | pt) >> 7u8 == m,
        ((m << 7u8) | pt) & 127u8 == pt,
{
    assert(((m << 7u8) | pt) >> 7u8 == m) by (bit_vector)
        requires
            m <= 1,
            pt < 128,
    ;
    assert(((m << 7u8) | pt) & 127u8 == pt) by (bit_vector)
        requires
            m <= 1,
            pt < 128,
    ;
}

proof fn lemma_be16(x: u16)
    ensures
        read16(be16(x)[0], be16(x)[1]) == x,
{
    assert((((x >> 8u16) as u8 as u16) << 8u16) | ((x & 0xffu16) as u8 as u16) == x)
        by (bit_vector);
}

proof fn lemma_be32(x: u32)
    ensures
        read32(be32(x)[0], be32(x)[1], be32(x)[2], be32(x)[3]) == x,
{
    assert((((x >> 24u32) as u8 as u32) << 24u32) | ((((x >> 16u32) & 0xffu32) as u8 as u32)
        << 16u32) | ((((x >> 8u32) & 0xffu32) as u8 as u32) << 8u32) | ((x & 0xffu32) as u8
        as u32) == x) by (bit_vector);
}

/// Decoding the encoding of a valid packet, with its stream type, gives the
/// packet back; the encoding is the header and the payload, never more than
/// `MAX_PACKET_SIZE` bytes.
pub proof fn lemma_round_trip(p: PacketView)
    requires
        valid_packet(p),
    ensures
        encode(p).len() == p.payload.len() + HEADER_SIZE,
        encode(p).len() <= MAX_PACKET_SIZE,
        decode(encode(p), p.stream_type) == Some(p),
{
    let b = encode(p);
    lemma_flags(p.version, bit(p.padding), bit(p.extension), p.csrc_count);
    lemma_marker(bit(p.marker), p.payload_type);
    lemma_be16(p.sequence_number);
    lemma_be32(p.timestamp);
    lemma_be32(p.ssrc);
    assert(b[0] == flags_byte(p));
    assert(b[1] == marker_byte(p));
    assert(b[2] == be16(p.sequence_number)[0] && b[3] == be16(p.sequence_number)[1]);
    assert(b[4] == be32(p.timestamp)[0] && b[5] == be32(p.timestamp)[1] && b[6] == be32(
        p.timestamp,
    )[2] && b[7] == be32(p.timestamp)[3]);
    assert(b[8] == be32(p.ssrc)[0] && b[9] == be32(p.ssrc)[1] && b[10] == be32(p.ssrc)[2]
        && b[11] == be32(p.ssrc)[3]);
    assert(b.subrange(HEADER_SIZE as int, b.len() as int) =~= p.payload);
    let q = decode(b, p.stream_type)->Some_0;
    assert(q.padding == p.padding);
    assert(q.extension == p.extension);
    assert(q.marker == p.marker);
}

impl RtpPacket {
    /// A packet with version 2, no padding, extension, CSRCs or marker.
    /// Fails with `PayloadTooLarge` when the payload is longer than
    /// `MAX_PAYLOAD_SIZE`, and otherwise with `InvalidPayloadType` when the
    /// payload type is 128 or more. Every packet it builds is valid, so
    /// `to_bytes` encodes it.
    pub fn new(
        payload_type: u8,
        sequence_number: u16,
        timestamp: u32,
        ssrc: u32,
        payload: Vec<u8>,
        stream_type: StreamType,
    ) -> (r: Result<Self, PacketError>)
        ensures
            r is Ok <==> payload@.len() <= MAX_PAYLOAD_SIZE && payload_type < 128,
            payload@.len() > MAX_PAYLOAD_SIZE ==> r == Err::<Self, PacketError>(
                PacketError::PayloadTooLarge { size: payload@.len() as usize, max: MAX_PAYLOAD_SIZE },
            ),
            payload@.len() <= MAX_PAYLOAD_SIZE && payload_type >= 128 ==> r == Err::<
                Self,
                PacketError,
            >(PacketError::InvalidPayloadType(payload_type)),
            r matches Ok(p) ==> valid_packet(p@),
            r matches Ok(p) ==> p@ == (PacketView {
                version: 2,
                padding: false,
                extension: false,
                csrc_count: 0,
                marker: false,
                payload_type,
                sequence_number,
                timestamp,
                ssrc,
                payload: payload@,
                stream_type,
            }),
    {
        if payload.len() > MAX_PAYLOAD_SIZE {
            return Err(
                PacketError::PayloadTooLarge { size: payload.len(), max: MAX_PAYLOAD_SIZE },
            );
        }
        if payload_type >= 128 {
            return Err(PacketError::InvalidPayloadType(payload_type));
        }
        Ok(
            RtpPacket {
                version: 2,
                padding: false,
                extension: false,
                csrc_count: 0,
                marker: false,
                payload_type,
                sequence_number,
                timestamp,
                ssrc,
                payload,
                stream_type,
            },
        )
    }

    /// Size in bytes: the 12-byte header and the payload.
    pub fn size(&self) -> (r: usize)
        requires
            self.payload@.len() + HEADER_SIZE <= usize::MAX,
        ensures
            r == HEADER_SIZE + self.payload@.len(),
    {
        HEADER_SIZE + self.payload.len()
    }

    /// Encodes the packet. Fails with `PayloadTooLarge` when the payload is
    /// over the bound and with `InvalidHeader` when a header field holds a
    /// value the layout cannot carry.
    pub fn to_bytes(&self) -> (r: Result<Vec<u8>, PacketError>)
        ensures
            r is Ok <==> valid_packet(self@),
            self@.payload.len() > MAX_PAYLOAD_SIZE ==> r == Err::<Vec<u8>, PacketError>(
                PacketError::PayloadTooLarge {
                    size: self@.payload.len() as usize,
                    max: MAX_PAYLOAD_SIZE,
                },
            ),
            self@.payload.len() <= MAX_PAYLOAD_SIZE && !valid_packet(self@) ==> r == Err::<
                Vec<u8>,
                PacketError,
            >(PacketError::InvalidHeader),
            r matches Ok(b) ==> b@ == encode(self@),
    {
        if self.payload.len() > MAX_PAYLOAD_SIZE {
            return Err(
                PacketError::PayloadTooLarge { size: self.payload.len(), max: MAX_PAYLOAD_SIZE },
            );
        }
        if self.version != 2 || self.csrc_count >= 16 || self.payload_type >= 128 {
            return Err(PacketError::InvalidHeader);
        }
        let p = Ghost(self@);
        let padding: u8 = if self.padding { 1 } else { 0 };
        let extension: u8 = if self.extension { 1 } else { 0 };
        let marker: u8 = if self.marker { 1 } else { 0 };
        let s = self.sequence_number;
        let t = self.timestamp;
        let c = self.ssrc;
        let mut out: Vec<u8> = Vec::new();
        out.push((self.version << 6u8) | (padding << 5u8) | (extension << 4u8) | self.csrc_count);
        out.push((marker << 7u8) | self.payload_type);
        out.push((s >> 8u16) as u8);
        out.push((s & 0xffu16) as u8);
        out.push((t >> 24u32) as u8);
        out.push(((t >> 16u32) & 0xffu32) as u8);
        out.push(((t >> 8u32) & 0xffu32) as u8);
        out.push((t & 0xffu32) as u8);
        out.push((c >> 24u32) as u8);
        out.push(((c >> 16u32) & 0xffu32) as u8);
        out.push(((c >> 8u32) & 0xffu32) as u8);
        out.push((c & 0xffu32) as u8);
        assert(out@ =~= header(p@));
        let mut i: usize = 0;
        while i < self.payload.len()
            invariant
                i <= self.payload@.len(),
                out@ == header(p@) + self.payload@.subrange(0, i as int),
            decreases self.payload@.len() - i,
        {
            out.push(self.payload[i]);
            assert(self.payload@.subrange(0, i + 1) =~= self.payload@.subrange(0, i as int).push(
                self.payload@[i as int],
            ));
            i = i + 1;
        }
        assert(self.payload@.subrange(0, i as int) =~= self.payload@);
        assert(out@ =~= encode(p@));
        Ok(out)
    }

    /// Decodes a packet that arrived on a stream of type `stream_type`.
    /// Empty input fails with `EmptyInput` and input longer than
    /// `MAX_PACKET_SIZE` with `InputTooLarge`, both before any field is read;
    /// input shorter than the header or of another RTP version fails with
    /// `Malformed`.
    pub fn from_bytes(data: &[u8], stream_type: StreamType) -> (r: Result<Self, PacketError>)
        ensures
            data@.len() == 0 ==> r == Err::<Self, PacketError>(PacketError::EmptyInput),
            data@.len() > MAX_PACKET_SIZE ==> r == Err::<Self, PacketError>(
                PacketError::InputTooLarge { size: data@.len() as usize, max: MAX_PACKET_SIZE },
            ),
            0 < data@.len() <= MAX_PACKET_SIZE && decode(data@, stream_type) is None ==> r
                == Err::<Self, PacketError>(PacketError::Malformed),
            r is Ok <==> decode(data@, stream_type) is Some,
            r matches Ok(p) ==> decode(data@, stream_type) == Some(p@),
    {
        let n = data.len();
        if n == 0 {
            return Err(PacketError::EmptyInput);
        }
        if n > MAX_PACKET_SIZE {
            return Err(PacketError::InputTooLarge { size: n, max: MAX_PACKET_SIZE });
        }
        if n < HEADER_SIZE {
            return Err(PacketError::Malformed);
        }
        let f = data[0];
        let m = data[1];
        if f >> 6u8 != 2 {
            return Err(PacketError::Malformed);
        }
        let mut payload: Vec<u8> = Vec::new();
        let mut i: usize = HEADER_SIZE;
        while i < n
            invariant
                HEADER_SIZE <= i <= n,
                n == data@.len(),
                payload@ == data@.subrange(HEADER_SIZE as int, i as int),
            decreases n - i,
        {
            payload.push(data[i]);
            assert(data@.subrange(HEADER_SIZE as int, i + 1) =~= data@.subrange(
                HEADER_SIZE as int,
                i as int,
            ).push(data@[i as int]));
            i = i + 1;
        }
        let p = RtpPacket {
            version: f >> 6u8,
            padding: (f >> 5u8) & 1u8 == 1,
            extension: (f >> 4u8) & 1u8 == 1,
            csrc_count: f & 15u8,
            marker: m >> 7u8 == 1,
            payload_type: m & 127u8,
            sequence_number: ((data[2] as u16) << 8u16) | (data[3] as u16),
            timestamp: ((data[4] as u32) << 24u32) | ((data[5] as u32) << 16u32) | ((
            data[6] as u32) << 8u32) | (data[7] as u32),
            ssrc: ((data[8] as u32) << 24u32) | ((data[9] as u32) << 16u32) | ((data[10] as u32)
                << 8u32) | (data[11] as u32),
            payload,
            stream_type,
        };
        assert(p@ == decode(data@, stream_type)->Some_0);
        Ok(p)
    }
}

} // verus!
