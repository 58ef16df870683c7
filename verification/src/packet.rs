//! Wire structures of the echo engine: the ICMP echo header and the IPv4
//! header, with their big-endian encode and decode functions. Decoding
//! network bytes is total: a buffer too short for the structure is reported
//! as malformed, never trusted.

use vstd::prelude::*;
use vstd::arithmetic::div_mod::lemma_fundamental_div_mod;

verus! {

/// Length in bytes of an encoded ICMP echo header.
pub const ICMP_HEADER_LEN: usize = 8;

/// Length in bytes of a fixed IPv4 header, options excluded.
pub const IPV4_HEADER_LEN: usize = 20;

/// Failure to decode a wire structure from received bytes.
#[derive(Clone, Copy, Debug, PartialEq, Eq, Structural)]
pub enum WireError {
    MalformedPacket,
}

/// The ICMP echo header as it stands on the wire: all fields big-endian.
#[derive(Clone, Copy, Debug, PartialEq, Eq, Structural)]
pub struct ICMPEchoPacket {
    pub message_type: u8,
    pub message_code: u8,
    pub checksum: u16,
    pub identifier: u16,
    pub sequence_num: u16,
}

/// The fixed 20-byte IPv4 header, as decoded from a received datagram.
#[derive(Clone, Copy, Debug, PartialEq, Eq, Structural)]
pub struct IPv4Header {
    pub version_and_header_len: u8,
    pub type_of_service: u8,
    pub datagram_length: u16,
    pub ip_identifier: u16,
    pub flags_and_5frag_offset: u8,
    pub rest_of_frag_offset: u8,
    pub ttl: u8,
    pub protocol: u8,
    pub checksum: u16,
    pub source_ip: u32,
    pub destination_ip: u32,
}

/// High byte of a 16-bit word.
pub open spec fn hi16(x: u16) -> u8 {
    (x / 256) as u8
}

/// Low byte of a 16-bit word.
pub open spec fn lo16(x: u16) -> u8 {
    (x % 256) as u8
}

/// The 16-bit word that two bytes encode in network byte order.
pub open spec fn be16(hi: u8, lo: u8) -> int {
    hi * 256 + lo
}

/// The 32-bit word that four bytes encode in network byte order.
pub open spec fn be32(b0: u8, b1: u8, b2: u8, b3: u8) -> int {
    b0 * 0x100_0000 + b1 * 0x1_0000 + b2 * 256 + b3
}

/// The eight wire bytes of an ICMP echo header.
pub open spec fn icmp_bytes(h: ICMPEchoPacket) -> Seq<u8> {
    seq![
        h.message_type,
        h.message_code,
        hi16(h.checksum),
        lo16(h.checksum),
        hi16(h.identifier),
        lo16(h.identifier),
        hi16(h.sequence_num),
        lo16(h.sequence_num),
    ]
}

/// The ICMP echo header read from eight bytes starting at `off`.
pub open spec fn icmp_decoded(bytes: Seq<u8>, off: int) -> ICMPEchoPacket
    recommends
        0 <= off,
        off + 8 <= bytes.len(),
{
    ICMPEchoPacket {
        message_type: bytes[off],
        message_code: bytes[off + 1],
        checksum: be16(bytes[off + 2], bytes[off + 3]) as u16,
        identifier: be16(bytes[off + 4], bytes[off + 5]) as u16,
        sequence_num: be16(bytes[off + 6], bytes[off + 7]) as u16,
    }
}

/// The IPv4 header read from the first twenty bytes.
pub open spec fn ipv4_decoded(bytes: Seq<u8>) -> IPv4Header
    recommends
        bytes.len() >= 20,
{
    IPv4Header {
        version_and_header_len: bytes[0],
        type_of_service: bytes[1],
        datagram_length: be16(bytes[2], bytes[3]) as u16,
        ip_identifier: be16(bytes[4], bytes[5]) as u16,
        flags_and_5frag_offset: bytes[6],
        rest_of_frag_offset: bytes[7],
        ttl: bytes[8],
        protocol: bytes[9],
        checksum: be16(bytes[10], bytes[11]) as u16,
        source_ip: be32(bytes[12], bytes[13], bytes[14], bytes[15]) as u32,
        destination_ip: be32(bytes[16], bytes[17], bytes[18], bytes[19]) as u32,
    }
}

/// Byte offset of the payload behind an IPv4 header: four times the header
/// length nibble of the first header byte.
pub open spec fn payload_offset_of(version_and_header_len: u8) -> int {
    4 * (version_and_header_len & 0x0F)
}

/// Joins two bytes into the 16-bit word they encode in network byte order.
pub fn be16_join(hi: u8, lo: u8) -> (r: u16)
    ensures
        r == be16(hi, lo),
{
    (hi as u16) * 256 + (lo as u16)
}

/// Joins four bytes into the 32-bit word they encode in network byte order.
pub fn be32_join(b0: u8, b1: u8, b2: u8, b3: u8) -> (r: u32)
    ensures
        r == be32(b0, b1, b2, b3),
{
    (b0 as u32) * 0x100_0000 + (b1 as u32) * 0x1_0000 + (b2 as u32) * 256 + (b3 as u32)
}

impl ICMPEchoPacket {
    /// Encodes the header into its eight wire bytes, big-endian throughout.
    /// Encoding is total: every combination of field values has an encoding.
    pub fn encode(&self) -> (r: Vec<u8>)
        ensures
            r@ == icmp_bytes(*self),
            r@.len() == 8,
    {
        let mut r: Vec<u8> = Vec::new();
        r.push(self.message_type);
        r.push(self.message_code);
        r.push((self.checksum / 256) as u8);
        r.push((self.checksum % 256) as u8);
        r.push((self.identifier / 256) as u8);
        r.push((self.identifier % 256) as u8);
        r.push((self.sequence_num / 256) as u8);
        r.push((self.sequence_num % 256) as u8);
        proof {
            assert(r@ =~= icmp_bytes(*self));
        }
        r
    }

    /// Decodes an ICMP echo header from `buf` starting at byte `offset`.
    /// Succeeds exactly when eight bytes are available there; anything
    /// shorter is malformed.
    pub fn decode(buf: &[u8], offset: usize) -> (r: Result<ICMPEchoPacket, WireError>)
        ensures
            r is Ok <==> offset + 8 <= buf@.len(),
            r is Ok ==> r->Ok_0 == icmp_decoded(buf@, offset as int),
    {
        let len: usize = buf.len();
        if len < 8 || offset > len - 8 {
            return Err(WireError::MalformedPacket);
        }
        Ok(ICMPEchoPacket {
            message_type: buf[offset],
            message_code: buf[offset + 1],
            checksum: be16_join(buf[offset + 2], buf[offset + 3]),
            identifier: be16_join(buf[offset + 4], buf[offset + 5]),
            sequence_num: be16_join(buf[offset + 6], buf[offset + 7]),
        })
    }
}

impl IPv4Header {
    /// Decodes an IPv4 header from the first twenty bytes of `buf`.
    /// Succeeds exactly when the buffer holds at least twenty bytes.
    pub fn decode(buf: &[u8]) -> (r: Result<IPv4Header, WireError>)
        ensures
            r is Ok <==> buf@.len() >= 20,
            r is Ok ==> r->Ok_0 == ipv4_decoded(buf@),
    {
        if buf.len() < 20 {
            return Err(WireError::MalformedPacket);
        }
        Ok(IPv4Header {
            version_and_header_len: buf[0],
            type_of_service: buf[1],
            datagram_length: be16_join(buf[2], buf[3]),
            ip_identifier: be16_join(buf[4], buf[5]),
            flags_and_5frag_offset: buf[6],
            rest_of_frag_offset: buf[7],
            ttl: buf[8],
            protocol: buf[9],
            checksum: be16_join(buf[10], buf[11]),
            source_ip: be32_join(buf[12], buf[13], buf[14], buf[15]),
            destination_ip: be32_join(buf[16], buf[17], buf[18], buf[19]),
        })
    }

    /// Byte offset of the ICMP payload within the datagram: four times the
    /// header length nibble.
    pub fn payload_offset(&self) -> (r: u8)
        ensures
            r == payload_offset_of(self.version_and_header_len),
    {
        let v: u8 = self.version_and_header_len;
        let nibble: u8 = v & 0x0F;
        proof {
            assert(v & 0x0F <= 15) by (bit_vector);
        }
        4 * nibble
    }
}

/// Law: decoding an encoded echo request header yields identical field
/// values, for every combination of field values.
pub proof fn lemma_codec_round_trip(h: ICMPEchoPacket)
    ensures
        icmp_decoded(icmp_bytes(h), 0) == h,
{
    lemma_fundamental_div_mod(h.checksum as int, 256);
    lemma_fundamental_div_mod(h.identifier as int, 256);
    lemma_fundamental_div_mod(h.sequence_num as int, 256);
}

/// Law: for a header length nibble of 5 through 15, the payload offset is
/// exactly four times the nibble, a multiple of four, and at least the
/// length of a fixed IPv4 header.
pub proof fn lemma_payload_offset_in_range(v: u8)
    requires
        5 <= v & 0x0F,
    ensures
        payload_offset_of(v) == 4 * (v & 0x0F),
        payload_offset_of(v) % 4 == 0,
        20 <= payload_offset_of(v) <= 60,
{
    assert(v & 0x0F <= 15) by (bit_vector);
}

} // verus!
