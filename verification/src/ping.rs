//! The echo session: it owns the identifier and the sequence counter, builds
//! checksummed echo requests, and classifies received datagrams against the
//! outstanding request. The raw-socket transport that carries the bytes, the
//! wall-clock deadline around the receive loop and the reverse name lookup
//! live outside the library; they hand buffers in and carry buffers out.

use vstd::prelude::*;
use crate::packet::{ICMPEchoPacket, IPv4Header, icmp_bytes, icmp_decoded, ipv4_decoded, payload_offset_of};
use crate::util::{patched, set_checksum};

verus! {

/// ICMP type of an echo request over IPv4.
pub const ECHO_REQUEST_V4: u8 = 8;

/// ICMP type of an echo request over IPv6.
pub const ECHO_REQUEST_V6: u8 = 128;

/// ICMP type of an echo reply over IPv4.
pub const ECHO_REPLY_V4: u8 = 0;

/// ICMP type of an echo reply over IPv6.
pub const ECHO_REPLY_V6: u8 = 129;

/// ICMP type of a time-exceeded notice over IPv4.
pub const TIMEOUT_V4: u8 = 11;

/// ICMP type of a time-exceeded notice over IPv6.
pub const TIMEOUT_V6: u8 = 3;

/// Address family of the session's destination. It selects the ICMP type
/// constants and decides whether a network-layer header is visible on
/// receive: a raw IPv6 socket does not deliver one.
#[derive(Clone, Copy, Debug, PartialEq, Eq, Structural)]
pub enum AddressFamily {
    V4,
    V6,
}

/// Classification of an accepted reply.
#[derive(Clone, Copy, Debug, PartialEq, Eq, Structural)]
pub enum ReplyType {
    Reply,
    TimeLimitExceeded,
}

/// One accepted reply, as far as the wire bytes determine it. The peer's
/// address, its display name and the round-trip clock reading are the
/// transport layer's to attach.
#[derive(Clone, Copy, Debug, PartialEq, Eq)]
pub struct PongResult {
    pub sequence: u16,
    pub ttl: Option<u8>,
    pub size: u16,
    pub mtype: ReplyType,
}

/// What one received datagram yields: an accepted reply, a packet to discard
/// silently while the deadline keeps running, or bytes that cannot be
/// trusted and abort the receive.
#[derive(Clone, Copy, Debug, PartialEq, Eq)]
pub enum PacketOutcome {
    Accepted(PongResult),
    Discard,
    Malformed,
}

/// An echo session: the destination's address family, the fixed random
/// identifier that marks this session's requests, and the sequence counter,
/// stepped once per request.
#[derive(Clone, Copy, Debug)]
pub struct Pinger {
    pub family: AddressFamily,
    pub session: u16,
    pub sequence: u16,
}

/// The ICMP type of an echo request for the family.
pub open spec fn echo_request_type(family: AddressFamily) -> u8 {
    match family {
        AddressFamily::V4 => ECHO_REQUEST_V4,
        AddressFamily::V6 => ECHO_REQUEST_V6,
    }
}

/// The ICMP type of an echo reply for the family.
pub open spec fn echo_reply_type(family: AddressFamily) -> u8 {
    match family {
        AddressFamily::V4 => ECHO_REPLY_V4,
        AddressFamily::V6 => ECHO_REPLY_V6,
    }
}

/// The ICMP type of a time-exceeded notice for the family.
pub open spec fn time_exceeded_type(family: AddressFamily) -> u8 {
    match family {
        AddressFamily::V4 => TIMEOUT_V4,
        AddressFamily::V6 => TIMEOUT_V6,
    }
}

/// The sequence number that follows `s`: one greater, wrapping at the width
/// of a 16-bit word.
pub open spec fn next_sequence(s: u16) -> u16 {
    if s == 0xFFFF {
        0
    } else {
        (s + 1) as u16
    }
}

/// The echo request header before its checksum is patched in.
pub open spec fn request_header(family: AddressFamily, identifier: u16, seq: u16) -> ICMPEchoPacket {
    ICMPEchoPacket {
        message_type: echo_request_type(family),
        message_code: 0,
        checksum: 0,
        identifier: identifier,
        sequence_num: seq,
    }
}

/// The wire bytes of an echo request: the encoded header with a zeroed
/// checksum field, then the checksum patched into word 1 — the checksum
/// field itself, excluded from its own sum.
pub open spec fn request_bytes(family: AddressFamily, identifier: u16, seq: u16) -> Seq<u8> {
    patched(icmp_bytes(request_header(family, identifier, seq)), 1)
}

/// The normalized network-layer view of one received buffer: datagram
/// length, payload offset and TTL. Over IPv6 no network-layer header is
/// delivered, so the view is fixed at the ICMP header's own size and the TTL
/// is unavailable; over IPv4 the view is read from the IPv4 header, and a
/// buffer too short for one has no view.
pub open spec fn header_view(family: AddressFamily, buf: Seq<u8>) -> Option<(u16, u8, Option<u8>)> {
    match family {
        AddressFamily::V6 => Some((8u16, 0u8, None)),
        AddressFamily::V4 => if buf.len() < 20 {
            None
        } else {
            let ip = ipv4_decoded(buf);
            Some((ip.datagram_length, payload_offset_of(ip.version_and_header_len) as u8, Some(ip.ttl)))
        },
    }
}

/// An accepted reply, unless the datagram length claimed by the packet is
/// smaller than the payload offset: such a length cannot be trusted.
pub open spec fn accepted(dlen: u16, off: u8, ttl: Option<u8>, mtype: ReplyType, seq: u16) -> PacketOutcome {
    if dlen < off {
        PacketOutcome::Malformed
    } else {
        PacketOutcome::Accepted(
            PongResult { sequence: seq, ttl: ttl, size: (dlen - off) as u16, mtype: mtype },
        )
    }
}

/// Classification of the ICMP payload found at `off`: an echo reply is
/// accepted only when both the identifier and the sequence number match the
/// outstanding request; a time-exceeded notice is accepted unfiltered; any
/// other type is discarded.
pub open spec fn classify_icmp(
    family: AddressFamily,
    identifier: u16,
    expected_seq: u16,
    buf: Seq<u8>,
    dlen: u16,
    off: u8,
    ttl: Option<u8>,
) -> PacketOutcome {
    if buf.len() < off + 8 {
        PacketOutcome::Malformed
    } else {
        let icmp = icmp_decoded(buf, off as int);
        if icmp.message_type == echo_reply_type(family) {
            if icmp.identifier == identifier && icmp.sequence_num == expected_seq {
                accepted(dlen, off, ttl, ReplyType::Reply, icmp.sequence_num)
            } else {
                PacketOutcome::Discard
            }
        } else if icmp.message_type == time_exceeded_type(family) {
            accepted(dlen, off, ttl, ReplyType::TimeLimitExceeded, icmp.sequence_num)
        } else {
            PacketOutcome::Discard
        }
    }
}

/// What one received buffer yields for a session with the given identifier
/// and outstanding sequence number.
pub open spec fn outcome_of(
    family: AddressFamily,
    identifier: u16,
    expected_seq: u16,
    buf: Seq<u8>,
) -> PacketOutcome {
    match header_view(family, buf) {
        None => PacketOutcome::Malformed,
        Some((dlen, off, ttl)) => classify_icmp(family, identifier, expected_seq, buf, dlen, off, ttl),
    }
}

/// Relies on rand::random: a sampled value of the type; nothing is promised
/// of which value comes back.
pub assume_specification<T>[ rand::random::<T> ]() -> (r: T)
    where
        rand::distributions::Standard: rand::distributions::Distribution<T>,
;

impl Pinger {
    /// Creates a session bound to one address family, with a fresh random
    /// identifier and the sequence counter at zero, so that the first
    /// request goes out with sequence number 1.
    pub fn new(family: AddressFamily) -> (r: Pinger)
        ensures
            r.family == family,
            r.sequence == 0,
    {
        Pinger { family, session: rand::random::<u16>(), sequence: 0 }
    }

    /// Steps the sequence counter and builds the next echo request: the
    /// checksummed wire bytes, ready to transmit, and the sequence number
    /// they carry.
    pub fn ping(&mut self) -> (r: (Vec<u8>, u16))
        ensures
            final(self).family == old(self).family,
            final(self).session == old(self).session,
            final(self).sequence == next_sequence(old(self).sequence),
            r.1 == final(self).sequence,
            r.0@ == request_bytes(old(self).family, old(self).session, final(self).sequence),
            r.0@.len() == 8,
    {
        self.sequence = if self.sequence == 0xFFFF {
            0
        } else {
            self.sequence + 1
        };
        let header = ICMPEchoPacket {
            message_type: match self.family {
                AddressFamily::V4 => ECHO_REQUEST_V4,
                AddressFamily::V6 => ECHO_REQUEST_V6,
            },
            message_code: 0,
            checksum: 0,
            identifier: self.session,
            sequence_num: self.sequence,
        };
        let mut payload: Vec<u8> = header.encode();
        set_checksum(&mut payload, 1);
        (payload, self.sequence)
    }

    /// Classifies one received datagram against the request with sequence
    /// number `sequence_num`. The caller keeps receiving on `Discard`, under
    /// the one deadline it set at entry; `Malformed` aborts the receive;
    /// `Accepted` carries the reply as far as the wire bytes determine it.
    pub fn receive_pong(&self, sequence_num: u16, buf: &[u8]) -> (r: PacketOutcome)
        ensures
            r == outcome_of(self.family, self.session, sequence_num, buf@),
    {
        let (dlen, off, ttl): (u16, u8, Option<u8>) = match self.family {
            AddressFamily::V6 => (8, 0, None),
            AddressFamily::V4 => {
                match IPv4Header::decode(buf) {
                    Ok(ip) => (ip.datagram_length, ip.payload_offset(), Some(ip.ttl)),
                    Err(_) => {
                        return PacketOutcome::Malformed;
                    },
                }
            },
        };
        let icmp = match ICMPEchoPacket::decode(buf, off as usize) {
            Ok(p) => p,
            Err(_) => {
                return PacketOutcome::Malformed;
            },
        };
        let reply_type: u8 = match self.family {
            AddressFamily::V4 => ECHO_REPLY_V4,
            AddressFamily::V6 => ECHO_REPLY_V6,
        };
        let exceeded_type: u8 = match self.family {
            AddressFamily::V4 => TIMEOUT_V4,
            AddressFamily::V6 => TIMEOUT_V6,
        };
        let mtype: ReplyType = if icmp.message_type == reply_type {
            if icmp.identifier != self.session || icmp.sequence_num != sequence_num {
                return PacketOutcome::Discard;
            }
            ReplyType::Reply
        } else if icmp.message_type == exceeded_type {
            ReplyType::TimeLimitExceeded
        } else {
            return PacketOutcome::Discard;
        };
        if dlen < off as u16 {
            return PacketOutcome::Malformed;
        }
        PacketOutcome::Accepted(
            PongResult { sequence: icmp.sequence_num, ttl, size: dlen - off as u16, mtype },
        )
    }
}

/// Law (sequence monotonicity): each request's sequence number is one
/// greater than the last, wrapping to zero only after 0xFFFF.
pub proof fn lemma_sequence_progression(s: u16)
    ensures
        s < 0xFFFF ==> next_sequence(s) == s + 1,
        next_sequence(0xFFFF) == 0,
{
}

/// Law (matching filter): when the buffer carries an echo reply for the
/// session's family, it is accepted exactly when both its identifier and
/// its sequence number match the outstanding request, and then reports that
/// sequence; on any mismatch it is discarded.
pub proof fn lemma_reply_filter(
    family: AddressFamily,
    identifier: u16,
    expected_seq: u16,
    buf: Seq<u8>,
    dlen: u16,
    off: u8,
    ttl: Option<u8>,
)
    requires
        header_view(family, buf) == Some((dlen, off, ttl)),
        off + 8 <= buf.len(),
        off <= dlen,
        icmp_decoded(buf, off as int).message_type == echo_reply_type(family),
    ensures
        icmp_decoded(buf, off as int).identifier == identifier && icmp_decoded(
            buf,
            off as int,
        ).sequence_num == expected_seq ==> outcome_of(family, identifier, expected_seq, buf)
            == PacketOutcome::Accepted(
            PongResult {
                sequence: expected_seq,
                ttl: ttl,
                size: (dlen - off) as u16,
                mtype: ReplyType::Reply,
            },
        ),
        icmp_decoded(buf, off as int).identifier != identifier || icmp_decoded(
            buf,
            off as int,
        ).sequence_num != expected_seq ==> outcome_of(family, identifier, expected_seq, buf)
            == PacketOutcome::Discard,
{
}

/// Law (time-exceeded pass-through): a time-exceeded notice for the
/// session's family is accepted whatever identifier and sequence number it
/// carries, and is reported as TimeLimitExceeded.
pub proof fn lemma_time_exceeded_unfiltered(
    family: AddressFamily,
    identifier: u16,
    expected_seq: u16,
    buf: Seq<u8>,
    dlen: u16,
    off: u8,
    ttl: Option<u8>,
)
    requires
        header_view(family, buf) == Some((dlen, off, ttl)),
        off + 8 <= buf.len(),
        off <= dlen,
        icmp_decoded(buf, off as int).message_type == time_exceeded_type(family),
    ensures
        outcome_of(family, identifier, expected_seq, buf) == PacketOutcome::Accepted(
            PongResult {
                sequence: icmp_decoded(buf, off as int).sequence_num,
                ttl: ttl,
                size: (dlen - off) as u16,
                mtype: ReplyType::TimeLimitExceeded,
            },
        ),
{
}

} // verus!
