//! The ICMPv6 message decoder: header validation, message-type dispatch,
//! and variant-specific field extraction.
//!
//! A message starts with a 4-byte common header (type, code, checksum).
//! The type code selects a fixed-layout suffix; types this decoder does
//! not recognize keep their suffix as raw bytes. All multi-byte fields
//! are big-endian (network order) and flag bits are taken most
//! significant first within their byte.

use vstd::prelude::*;

use crate::addr::IPv6Address;
use crate::errors::Error;
use crate::hex_text::hex_of;
use crate::hex_text::hex_encode;
use crate::hex_text::hex_digit_char;
use crate::hex_text::chars_to_string;

verus! {

/// IANA-assigned protocol number for ICMPv6 as an IPv6 next header.
pub const IPPROTO_ICMPV6: u8 = 58;

/// Least buffer length any message needs: the 4-byte common header plus
/// the 4-byte type-specific word of the minimal message forms.
pub const ICMPV6_HEADER_LENGTH: usize = 8;

pub const ICMPV6_DESTINATION_UNREACHABLE: u8 = 1;

pub const ICMPV6_PACKET_TOO_BIG: u8 = 2;

pub const ICMPV6_TIME_EXCEEDED: u8 = 3;

pub const ICMPV6_ECHO_REQUEST: u8 = 128;

pub const ICMPV6_ECHO_REPLY: u8 = 129;

pub const ICMPV6_ROUTER_SOLICITATION: u8 = 133;

pub const ICMPV6_ROUTER_ADVERTISEMENT: u8 = 134;

pub const ICMPV6_NEIGHBOR_SOLICITATION: u8 = 135;

pub const ICMPV6_NEIGHBOR_ADVERTISEMENT: u8 = 136;

pub const ICMPV6_REDIRECT: u8 = 137;

/// Big-endian 16-bit value read from two consecutive bytes.
pub open spec fn spec_be16(b: Seq<u8>, i: int) -> u16
    recommends
        0 <= i,
        i + 2 <= b.len(),
{
    (b[i] * 256 + b[i + 1]) as u16
}

/// Big-endian 32-bit value read from four consecutive bytes.
pub open spec fn spec_be32(b: Seq<u8>, i: int) -> u32
    recommends
        0 <= i,
        i + 4 <= b.len(),
{
    (b[i] * 0x1000000 + b[i + 1] * 0x10000 + b[i + 2] * 256 + b[i + 3]) as u32
}

/// Whether bit `i` of `v` is set, counting from the least significant bit.
pub open spec fn spec_bit(v: u8, i: u8) -> bool
    recommends
        i < 8,
{
    (v >> i) & 0x01 == 0x01
}

/// The type codes this decoder gives a variant of their own.
pub open spec fn spec_known_type(t: u8) -> bool {
    ||| t == ICMPV6_DESTINATION_UNREACHABLE
    ||| t == ICMPV6_PACKET_TOO_BIG
    ||| t == ICMPV6_TIME_EXCEEDED
    ||| t == ICMPV6_ECHO_REQUEST
    ||| t == ICMPV6_ECHO_REPLY
    ||| t == ICMPV6_ROUTER_SOLICITATION
    ||| t == ICMPV6_ROUTER_ADVERTISEMENT
    ||| t == ICMPV6_NEIGHBOR_SOLICITATION
    ||| t == ICMPV6_NEIGHBOR_ADVERTISEMENT
    ||| t == ICMPV6_REDIRECT
}

/// Common header plus fixed suffix length of a recognized type code.
pub open spec fn spec_total_len(t: u8) -> int
    recommends
        spec_known_type(t),
{
    if t == ICMPV6_ROUTER_ADVERTISEMENT {
        16
    } else if t == ICMPV6_NEIGHBOR_SOLICITATION || t == ICMPV6_NEIGHBOR_ADVERTISEMENT {
        24
    } else if t == ICMPV6_REDIRECT {
        40
    } else {
        8
    }
}

/// The least buffer length on which decoding succeeds. Every message
/// needs the 8-byte minimum; a recognized type code additionally needs
/// its whole fixed suffix, so that no field read can run off the buffer.
pub open spec fn spec_required(b: Seq<u8>) -> int {
    if b.len() < ICMPV6_HEADER_LENGTH {
        ICMPV6_HEADER_LENGTH as int
    } else if spec_known_type(b[0]) {
        spec_total_len(b[0])
    } else {
        ICMPV6_HEADER_LENGTH as int
    }
}

/// How many bytes of the buffer a successful decode claims: the fixed
/// total for a recognized type, the whole buffer otherwise (an unknown
/// suffix has no known boundary).
pub open spec fn spec_consumed(b: Seq<u8>) -> int
    recommends
        b.len() >= spec_required(b),
{
    if spec_known_type(b[0]) {
        spec_total_len(b[0])
    } else {
        b.len() as int
    }
}

/// The mathematical shape of a decoded payload: every field as a plain
/// value, addresses and raw bytes as sequences.
#[verifier::ext_equal]
pub ghost enum PayloadView {
    Empty,
    Unsupported { unsupported: Seq<u8> },
    EchoRequest { identifier: u16, sequence_number: u16 },
    EchoReply { identifier: u16, sequence_number: u16 },
    PacketSizeTooBig { mtu: u32 },
    RouterAdvertisement {
        cur_hop_limit: u8,
        managed_address_flag: bool,
        other_config: bool,
        router_lifetime: u16,
        reachable_time: u32,
        retrans_timer: u32,
    },
    NeighborSolicitation { target_address: Seq<u8> },
    NeighborAdvertisement {
        from_router: bool,
        solicited_flag: bool,
        override_flag: bool,
        target_address: Seq<u8>,
    },
    Redirect { target_address: Seq<u8>, destination_address: Seq<u8> },
}

/// The mathematical shape of a whole decoded message.
#[verifier::ext_equal]
pub ghost struct MsgView {
    pub icmp_type: u8,
    pub code: u8,
    pub checksum: u16,
    pub rest_of_header: PayloadView,
}

/// The payload a buffer decodes to, by its type code. Echo requests and
/// echo replies share one wire layout and are kept under the reply
/// variant, as the decoder has always reported them.
pub open spec fn spec_payload(b: Seq<u8>) -> PayloadView
    recommends
        b.len() >= spec_required(b),
        b.len() >= ICMPV6_HEADER_LENGTH,
{
    let t = b[0];
    if t == ICMPV6_ECHO_REQUEST || t == ICMPV6_ECHO_REPLY {
        PayloadView::EchoReply {
            identifier: spec_be16(b, 4),
            sequence_number: spec_be16(b, 6),
        }
    } else if t == ICMPV6_PACKET_TOO_BIG {
        PayloadView::PacketSizeTooBig { mtu: spec_be32(b, 4) }
    } else if t == ICMPV6_DESTINATION_UNREACHABLE || t == ICMPV6_TIME_EXCEEDED || t
        == ICMPV6_ROUTER_SOLICITATION {
        PayloadView::Empty
    } else if t == ICMPV6_ROUTER_ADVERTISEMENT {
        PayloadView::RouterAdvertisement {
            cur_hop_limit: b[4],
            managed_address_flag: spec_bit(b[5], 7),
            other_config: spec_bit(b[5], 6),
            router_lifetime: spec_be16(b, 6),
            reachable_time: spec_be32(b, 8),
            retrans_timer: spec_be32(b, 12),
        }
    } else if t == ICMPV6_NEIGHBOR_SOLICITATION {
        PayloadView::NeighborSolicitation { target_address: b.subrange(8, 24) }
    } else if t == ICMPV6_NEIGHBOR_ADVERTISEMENT {
        PayloadView::NeighborAdvertisement {
            from_router: spec_bit(b[4], 7),
            solicited_flag: spec_bit(b[4], 6),
            override_flag: spec_bit(b[4], 5),
            target_address: b.subrange(8, 24),
        }
    } else if t == ICMPV6_REDIRECT {
        PayloadView::Redirect {
            target_address: b.subrange(8, 24),
            destination_address: b.subrange(24, 40),
        }
    } else {
        PayloadView::Unsupported { unsupported: b.skip(4) }
    }
}

/// The whole message a buffer decodes to.
pub open spec fn spec_msg(b: Seq<u8>) -> MsgView
    recommends
        b.len() >= spec_required(b),
{
    MsgView {
        icmp_type: b[0],
        code: b[1],
        checksum: spec_be16(b, 2),
        rest_of_header: spec_payload(b),
    }
}

/// Echo request or reply suffix.
#[derive(Debug, Clone)]
pub struct Icmpv6Echo {
    pub identifier: u16,
    pub sequence_number: u16,
}

/// Packet-too-big suffix.
#[derive(Debug, Clone)]
pub struct Icmpv6PacketSizeTooBig {
    pub mtu: u32,
}

/// Raw suffix of a message type this decoder does not interpret.
#[derive(Debug, Clone)]
pub struct Icmpv6Unsupported {
    pub unsupported: Vec<u8>,
}

/// The two router-advertisement flag bits of byte 5, most significant
/// first: managed address configuration, then other configuration.
#[derive(Debug, Clone, Copy)]
pub struct RouterAdvFlags {
    pub managed_address_flag: bool,
    pub other_config: bool,
}

/// The three neighbor-advertisement flag bits of byte 4, most
/// significant first: router, solicited, override.
#[derive(Debug, Clone, Copy)]
pub struct NeighborAdvFlags {
    pub from_router: bool,
    pub solicited_flag: bool,
    pub override_flag: bool,
}

/// Router-advertisement suffix.
#[derive(Debug, Clone)]
pub struct Icmpv6RouterAdvertisement {
    pub cur_hop_limit: u8,
    pub flags: RouterAdvFlags,
    pub router_lifetime: u16,
    pub reachable_time: u32,
    pub retrans_timer: u32,
}

/// Neighbor-solicitation suffix. Bytes 4 to 7 are reserved and skipped.
#[derive(Debug, Clone)]
pub struct Icmpv6NeighborSolicitation {
    pub target_address: IPv6Address,
}

/// Neighbor-advertisement suffix.
#[derive(Debug, Clone)]
pub struct Icmpv6NeighborAdvertisement {
    pub flags: NeighborAdvFlags,
    pub target_address: IPv6Address,
}

/// Redirect suffix. Bytes 4 to 7 are reserved and skipped.
#[derive(Debug, Clone)]
pub struct Icmpv6Redirect {
    pub target_address: IPv6Address,
    pub destination_address: IPv6Address,
}

/// The closed set of payload variants; exactly one is active, and the
/// message's type code alone determines which.
#[derive(Debug, Clone)]
pub enum Icmpv6Type {
    Empty,
    Unsupported(Icmpv6Unsupported),
    EchoRequest(Icmpv6Echo),
    EchoReply(Icmpv6Echo),
    PacketSizeTooBig(Icmpv6PacketSizeTooBig),
    RouterAdvertisement(Icmpv6RouterAdvertisement),
    NeighborSolicitation(Icmpv6NeighborSolicitation),
    NeighborAdvertisement(Icmpv6NeighborAdvertisement),
    Redirect(Icmpv6Redirect),
}

impl View for Icmpv6Type {
    type V = PayloadView;

    open spec fn view(&self) -> PayloadView {
        match self {
            Icmpv6Type::Empty => PayloadView::Empty,
            Icmpv6Type::Unsupported(u) => PayloadView::Unsupported { unsupported: u.unsupported@ },
            Icmpv6Type::EchoRequest(e) => PayloadView::EchoRequest {
                identifier: e.identifier,
                sequence_number: e.sequence_number,
            },
            Icmpv6Type::EchoReply(e) => PayloadView::EchoReply {
                identifier: e.identifier,
                sequence_number: e.sequence_number,
            },
            Icmpv6Type::PacketSizeTooBig(p) => PayloadView::PacketSizeTooBig { mtu: p.mtu },
            Icmpv6Type::RouterAdvertisement(ra) => PayloadView::RouterAdvertisement {
                cur_hop_limit: ra.cur_hop_limit,
                managed_address_flag: ra.flags.managed_address_flag,
                other_config: ra.flags.other_config,
                router_lifetime: ra.router_lifetime,
                reachable_time: ra.reachable_time,
                retrans_timer: ra.retrans_timer,
            },
            Icmpv6Type::NeighborSolicitation(ns) => PayloadView::NeighborSolicitation {
                target_address: ns.target_address@,
            },
            Icmpv6Type::NeighborAdvertisement(na) => PayloadView::NeighborAdvertisement {
                from_router: na.flags.from_router,
                solicited_flag: na.flags.solicited_flag,
                override_flag: na.flags.override_flag,
                target_address: na.target_address@,
            },
            Icmpv6Type::Redirect(rd) => PayloadView::Redirect {
                target_address: rd.target_address@,
                destination_address: rd.destination_address@,
            },
        }
    }
}

/// A decoded ICMPv6 message: the three common header fields and the
/// type-selected payload variant.
#[derive(Debug)]
pub struct ICMPv6 {
    pub icmp_type: u8,
    pub code: u8,
    pub checksum: u16,
    pub rest_of_header: Icmpv6Type,
}

impl View for ICMPv6 {
    type V = MsgView;

    open spec fn view(&self) -> MsgView {
        MsgView {
            icmp_type: self.icmp_type,
            code: self.code,
            checksum: self.checksum,
            rest_of_header: self.rest_of_header@,
        }
    }
}

/// The message value a fresh decoder starts from.
pub open spec fn spec_default_msg() -> MsgView {
    MsgView { icmp_type: 0, code: 0, checksum: 0, rest_of_header: PayloadView::Empty }
}

impl Default for ICMPv6 {
    fn default() -> (r: Self)
        ensures
            r@ == spec_default_msg(),
    {
        ICMPv6 { icmp_type: 0, code: 0, checksum: 0, rest_of_header: Icmpv6Type::Empty }
    }
}

/// Big-endian 16-bit read.
fn read_be16(bytes: &[u8], i: usize) -> (r: u16)
    requires
        i + 2 <= bytes@.len(),
    ensures
        r == spec_be16(bytes@, i as int),
{
    (bytes[i] as u16) * 256 + (bytes[i + 1] as u16)
}

/// Big-endian 32-bit read.
fn read_be32(bytes: &[u8], i: usize) -> (r: u32)
    requires
        i + 4 <= bytes@.len(),
    ensures
        r == spec_be32(bytes@, i as int),
{
    (bytes[i] as u32) * 0x1000000 + (bytes[i + 1] as u32) * 0x10000 + (bytes[i + 2] as u32) * 256
        + (bytes[i + 3] as u32)
}

/// Copies `bytes[lo..hi]` into a fresh vector.
fn copy_range(bytes: &[u8], lo: usize, hi: usize) -> (v: Vec<u8>)
    requires
        lo <= hi <= bytes@.len(),
    ensures
        v@ == bytes@.subrange(lo as int, hi as int),
{
    let mut v: Vec<u8> = Vec::new();
    let mut i: usize = lo;
    while i < hi
        invariant
            lo <= i <= hi <= bytes@.len(),
            v@ == bytes@.subrange(lo as int, i as int),
        decreases hi - i,
    {
        v.push(bytes[i]);
        proof {
            assert(bytes@.subrange(lo as int, i + 1 as int) =~= bytes@.subrange(
                lo as int,
                i as int,
            ) + seq![bytes@[i as int]]);
        }
        i = i + 1;
    }
    v
}

/// Whether bit 7, 6 or 5 of `v` is set; `shift` names the bit.
fn read_bit(v: u8, shift: u8) -> (r: bool)
    requires
        shift < 8,
    ensures
        r == spec_bit(v, shift),
{
    ((v >> shift) & 0x01) == 0x01
}

/// The least buffer length on which decoding this buffer succeeds.
pub fn required_len(bytes: &[u8]) -> (r: usize)
    ensures
        r == spec_required(bytes@),
{
    if bytes.len() < ICMPV6_HEADER_LENGTH {
        ICMPV6_HEADER_LENGTH
    } else {
        let t = bytes[0];
        if t == ICMPV6_ROUTER_ADVERTISEMENT {
            16
        } else if t == ICMPV6_NEIGHBOR_SOLICITATION || t == ICMPV6_NEIGHBOR_ADVERTISEMENT {
            24
        } else if t == ICMPV6_REDIRECT {
            40
        } else {
            ICMPV6_HEADER_LENGTH
        }
    }
}

impl ICMPv6 {
    /// A fresh decoder instance, ready for one decode call.
    pub fn creator() -> (r: ICMPv6)
        ensures
            r@ == spec_default_msg(),
    {
        ICMPv6::default()
    }

    /// Decodes one message from the front of `bytes`.
    ///
    /// On success the header and payload fields of `self` hold exactly
    /// the decoded message, and the returned count says how many bytes
    /// the message claims; no next layer ever follows (this protocol is
    /// a leaf). Decoding fails, with the buffer and `self` untouched,
    /// exactly when the buffer is shorter than the 8-byte minimum or,
    /// for a recognized type code, shorter than that type's whole fixed
    /// layout.
    pub fn decode_bytes(&mut self, bytes: &[u8]) -> (r: Result<(Option<u8>, usize), Error>)
        ensures
            r is Ok <==> bytes@.len() >= spec_required(bytes@),
            r matches Ok((next, consumed)) ==> {
                &&& next is None
                &&& consumed == spec_consumed(bytes@)
                &&& final(self)@ == spec_msg(bytes@)
            },
            r matches Err(e) ==> {
                &&& *final(self) == *old(self)
                &&& (e matches Error::TooShort { required, available, data } && required
                    == spec_required(bytes@) && available == bytes@.len() && data@ == hex_of(
                    bytes@,
                ))
            },
    {
        let available = bytes.len();
        let required = required_len(bytes);
        if available < required {
            return Err(
                Error::TooShort { required, available, data: hex_encode(bytes) },
            );
        }
        self.icmp_type = bytes[0];
        self.code = bytes[1];
        self.checksum = read_be16(bytes, 2);
        let t = self.icmp_type;
        let decoded: usize;
        if t == ICMPV6_ECHO_REQUEST || t == ICMPV6_ECHO_REPLY {
            // Requests share the reply payload shape: the wire layout is identical.
            let identifier = read_be16(bytes, 4);
            let sequence_number = read_be16(bytes, 6);
            decoded = 8;
            self.rest_of_header = Icmpv6Type::EchoReply(
                Icmpv6Echo { identifier, sequence_number },
            );
        } else if t == ICMPV6_PACKET_TOO_BIG {
            let mtu = read_be32(bytes, 4);
            decoded = 8;
            self.rest_of_header = Icmpv6Type::PacketSizeTooBig(Icmpv6PacketSizeTooBig { mtu });
        } else if t == ICMPV6_DESTINATION_UNREACHABLE || t == ICMPV6_TIME_EXCEEDED || t
            == ICMPV6_ROUTER_SOLICITATION {
            decoded = 8;
            self.rest_of_header = Icmpv6Type::Empty;
        } else if t == ICMPV6_ROUTER_ADVERTISEMENT {
            let cur_hop_limit = bytes[4];
            let flags = RouterAdvFlags {
                managed_address_flag: read_bit(bytes[5], 7),
                other_config: read_bit(bytes[5], 6),
            };
            let router_lifetime = read_be16(bytes, 6);
            let reachable_time = read_be32(bytes, 8);
            let retrans_timer = read_be32(bytes, 12);
            decoded = 16;
            self.rest_of_header = Icmpv6Type::RouterAdvertisement(
                Icmpv6RouterAdvertisement {
                    cur_hop_limit,
                    flags,
                    router_lifetime,
                    reachable_time,
                    retrans_timer,
                },
            );
        } else if t == ICMPV6_NEIGHBOR_SOLICITATION {
            let target_address = IPv6Address::new(copy_range(bytes, 8, 24));
            decoded = 24;
            self.rest_of_header = Icmpv6Type::NeighborSolicitation(
                Icmpv6NeighborSolicitation { target_address },
            );
        } else if t == ICMPV6_NEIGHBOR_ADVERTISEMENT {
            let flags = NeighborAdvFlags {
                from_router: read_bit(bytes[4], 7),
                solicited_flag: read_bit(bytes[4], 6),
                override_flag: read_bit(bytes[4], 5),
            };
            let target_address = IPv6Address::new(copy_range(bytes, 8, 24));
            decoded = 24;
            self.rest_of_header = Icmpv6Type::NeighborAdvertisement(
                Icmpv6NeighborAdvertisement { flags, target_address },
            );
        } else if t == ICMPV6_REDIRECT {
            let target_address = IPv6Address::new(copy_range(bytes, 8, 24));
            let destination_address = IPv6Address::new(copy_range(bytes, 24, 40));
            decoded = 40;
            self.rest_of_header = Icmpv6Type::Redirect(
                Icmpv6Redirect { target_address, destination_address },
            );
        } else {
            let unsupported = copy_range(bytes, 4, available);
            proof {
                assert(bytes@.skip(4) =~= bytes@.subrange(4, bytes@.len() as int));
            }
            decoded = available;
            self.rest_of_header = Icmpv6Type::Unsupported(Icmpv6Unsupported { unsupported });
        }
        Ok((None, decoded))
    }

    /// The checksum as it is reported downstream: `0x` followed by four
    /// lowercase hexadecimal digits, high byte first.
    pub fn checksum_text(&self) -> (r: String)
        ensures
            r@ == spec_checksum_text(self.checksum),
    {
        let hi: u8 = (self.checksum / 256) as u8;
        let lo: u8 = (self.checksum % 256) as u8;
        let mut v: Vec<char> = Vec::new();
        v.push('0');
        v.push('x');
        v.push(hex_digit_char(hi / 16));
        v.push(hex_digit_char(hi % 16));
        v.push(hex_digit_char(lo / 16));
        v.push(hex_digit_char(lo % 16));
        proof {
            assert(v@ =~= spec_checksum_text(self.checksum));
        }
        chars_to_string(v)
    }

    /// Stable human-readable protocol name.
    pub fn name(&self) -> (r: &'static str)
        ensures
            r@ == "ICMPV6"@,
    {
        "ICMPV6"
    }

    /// Short protocol label for logging.
    pub fn short_name(&self) -> (r: &'static str)
        ensures
            r@ == "icmpv6"@,
    {
        "icmpv6"
    }
}

/// How the checksum is reported downstream: `0x`, then four lowercase
/// hexadecimal digits, high byte first.
pub open spec fn spec_checksum_text(c: u16) -> Seq<char> {
    seq!['0', 'x'] + hex_of(seq![(c / 256) as u8, (c % 256) as u8])
}

impl Icmpv6Unsupported {
    /// The raw suffix as a lowercase hexadecimal string without
    /// separators, or nothing at all when the suffix is empty (the
    /// field is then omitted from rendered output).
    pub fn rendered(&self) -> (r: Option<String>)
        ensures
            r is Some <==> self.unsupported@.len() > 0,
            r matches Some(s) ==> s@ == hex_of(self.unsupported@),
    {
        if self.unsupported.len() == 0 {
            None
        } else {
            Some(hex_encode(self.unsupported.as_slice()))
        }
    }
}

/// A process-startup table binding an IP next-header protocol number to
/// the decoder that handles it. It is filled once, before decoding
/// begins, and read-only afterwards; this library records which numbers
/// are bound.
#[derive(Debug)]
pub struct Registry {
    pub next_headers: Vec<u8>,
}

impl Registry {
    /// Whether `protocol` is already bound.
    pub open spec fn spec_registered(&self, protocol: u8) -> bool {
        self.next_headers@.contains(protocol)
    }

    /// An empty registry, with nothing bound.
    pub fn new() -> (r: Registry)
        ensures
            forall|p: u8| !r.spec_registered(p),
    {
        Registry { next_headers: Vec::new() }
    }

    /// Binds `protocol`. Succeeds exactly when it was not bound before;
    /// on success exactly that one binding is added, and a refused call
    /// leaves the registry unchanged.
    pub fn register_next_header(&mut self, protocol: u8) -> (r: Result<(), Error>)
        ensures
            r is Ok <==> !old(self).spec_registered(protocol),
            r is Ok ==> forall|p: u8|
                final(self).spec_registered(p) <==> (old(self).spec_registered(p) || p
                    == protocol),
            r matches Err(e) ==> {
                &&& *final(self) == *old(self)
                &&& (e matches Error::RegisterError { protocol: rp } && rp == protocol)
            },
    {
        let mut i: usize = 0;
        while i < self.next_headers.len()
            invariant
                i <= self.next_headers@.len(),
                self == old(self),
                forall|j: int| 0 <= j < i ==> self.next_headers@[j] != protocol,
            decreases self.next_headers@.len() - i,
        {
            if self.next_headers[i] == protocol {
                return Err(Error::RegisterError { protocol });
            }
            i = i + 1;
        }
        self.next_headers.push(protocol);
        proof {
            let nh0 = old(self).next_headers@;
            let nh1 = self.next_headers@;
            assert forall|p: u8|
                #[trigger] nh1.contains(p) <==> (nh0.contains(p) || p == protocol) by {
                if nh0.contains(p) {
                    let w = choose|w: int| 0 <= w < nh0.len() && nh0[w] == p;
                    assert(nh1[w] == p);
                }
                if p == protocol {
                    assert(nh1[nh0.len() as int] == p);
                }
                if nh1.contains(p) {
                    let w = choose|w: int| 0 <= w < nh1.len() && nh1[w] == p;
                    if w < nh0.len() {
                        assert(nh0[w] == p);
                    }
                }
            }
        }
        Ok(())
    }
}

/// Binds this decoder's protocol number (58) in the registry, as done
/// once at process startup before any decoding.
pub fn register_defaults(registry: &mut Registry) -> (r: Result<(), Error>)
    ensures
        r is Ok <==> !old(registry).spec_registered(IPPROTO_ICMPV6),
        r is Ok ==> forall|p: u8|
            final(registry).spec_registered(p) <==> (old(registry).spec_registered(p) || p
                == IPPROTO_ICMPV6),
        r matches Err(e) ==> {
            &&& *final(registry) == *old(registry)
            &&& (e matches Error::RegisterError { protocol: rp } && rp == IPPROTO_ICMPV6)
        },
{
    registry.register_next_header(IPPROTO_ICMPV6)
}

/// Law: a buffer of exactly the tabulated header-plus-suffix length of
/// any recognized type code is long enough to decode, and the decode
/// claims exactly that length.
pub proof fn lemma_exact_length_decodes(b: Seq<u8>)
    requires
        b.len() >= ICMPV6_HEADER_LENGTH,
        spec_known_type(b[0]),
        b.len() == spec_total_len(b[0]),
    ensures
        b.len() >= spec_required(b),
        spec_consumed(b) == b.len(),
{
}

/// Law: a buffer shorter than the 8-byte minimum is always refused, and
/// the refusal reports 8 as the required length.
pub proof fn lemma_short_buffer_refused(b: Seq<u8>)
    requires
        b.len() < ICMPV6_HEADER_LENGTH,
    ensures
        b.len() < spec_required(b),
        spec_required(b) == ICMPV6_HEADER_LENGTH,
{
}

/// Law: a buffer of at least 8 bytes whose type code is unrecognized
/// always decodes; its payload keeps the raw bytes from offset 4 to the
/// end of the buffer, and the decode claims the whole buffer.
pub proof fn lemma_unknown_type_decodes(b: Seq<u8>)
    requires
        b.len() >= ICMPV6_HEADER_LENGTH,
        !spec_known_type(b[0]),
    ensures
        b.len() >= spec_required(b),
        spec_consumed(b) == b.len(),
        spec_payload(b) == (PayloadView::Unsupported { unsupported: b.skip(4) }),
{
}

/// Law: decoding holds no hidden state. The decoded message and claimed
/// length are functions of the buffer alone, so two decodes of equal
/// buffers, by independent decoder instances, yield identical results.
pub proof fn lemma_decode_deterministic(b1: Seq<u8>, b2: Seq<u8>)
    requires
        b1 == b2,
    ensures
        spec_required(b1) == spec_required(b2),
        spec_consumed(b1) == spec_consumed(b2),
        spec_msg(b1) == spec_msg(b2),
{
}

} // verus!
