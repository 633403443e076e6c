//! Classified packets and the protocols that capture sessions are scoped to.

use vstd::prelude::*;

use crate::address::{address_text, decimal, IpAddress};

verus! {

/// A transport protocol that one capture session is restricted to.
#[derive(Clone, Copy, Debug, PartialEq, Eq)]
pub enum Protocol {
    Tcp,
    Udp,
    IcmpV4,
    IcmpV6,
}

/// A captured packet, classified by its transport protocol.
#[derive(Clone, Copy, Debug, PartialEq, Eq)]
pub enum Packet {
    Tcp {
        source_address: IpAddress,
        source_port: u16,
        destination_address: IpAddress,
        destination_port: u16,
    },
    Udp {
        source_address: IpAddress,
        source_port: u16,
        destination_address: IpAddress,
        destination_port: u16,
    },
    IcmpV4 { source_address: IpAddress, destination_address: IpAddress },
    IcmpV6 { source_address: IpAddress, destination_address: IpAddress },
}

/// The name by which a protocol is written in packet descriptions and filters.
pub open spec fn protocol_name(p: Protocol) -> Seq<char> {
    match p {
        Protocol::Tcp => seq!['t', 'c', 'p'],
        Protocol::Udp => seq!['u', 'd', 'p'],
        Protocol::IcmpV4 => seq!['i', 'c', 'm', 'p', '_', 'v', '4'],
        Protocol::IcmpV6 => seq!['i', 'c', 'm', 'p', '_', 'v', '6'],
    }
}

/// The protocol of a packet.
pub open spec fn packet_protocol(p: Packet) -> Protocol {
    match p {
        Packet::Tcp { .. } => Protocol::Tcp,
        Packet::Udp { .. } => Protocol::Udp,
        Packet::IcmpV4 { .. } => Protocol::IcmpV4,
        Packet::IcmpV6 { .. } => Protocol::IcmpV6,
    }
}

/// The source address of a packet.
pub open spec fn packet_source(p: Packet) -> IpAddress {
    match p {
        Packet::Tcp { source_address, .. } => source_address,
        Packet::Udp { source_address, .. } => source_address,
        Packet::IcmpV4 { source_address, .. } => source_address,
        Packet::IcmpV6 { source_address, .. } => source_address,
    }
}

/// The destination address of a packet.
pub open spec fn packet_destination(p: Packet) -> IpAddress {
    match p {
        Packet::Tcp { destination_address, .. } => destination_address,
        Packet::Udp { destination_address, .. } => destination_address,
        Packet::IcmpV4 { destination_address, .. } => destination_address,
        Packet::IcmpV6 { destination_address, .. } => destination_address,
    }
}

/// `address:port`.
pub open spec fn endpoint_text(a: IpAddress, port: u16) -> Seq<char> {
    address_text(a) + seq![':'] + decimal(port as nat)
}

/// The human-readable description of a packet:
/// `<proto> {<src>:<port> -> <dst>:<port>}` for TCP and UDP,
/// `<proto> {<src> -> <dst>}` for the ICMP variants.
pub open spec fn packet_text(p: Packet) -> Seq<char> {
    let arrow = seq![' ', '-', '>', ' '];
    let (from, to) = match p {
        Packet::Tcp { source_address, source_port, destination_address, destination_port } => (
            endpoint_text(source_address, source_port),
            endpoint_text(destination_address, destination_port),
        ),
        Packet::Udp { source_address, source_port, destination_address, destination_port } => (
            endpoint_text(source_address, source_port),
            endpoint_text(destination_address, destination_port),
        ),
        Packet::IcmpV4 { source_address, destination_address } => (
            address_text(source_address),
            address_text(destination_address),
        ),
        Packet::IcmpV6 { source_address, destination_address } => (
            address_text(source_address),
            address_text(destination_address),
        ),
    };
    protocol_name(packet_protocol(p)) + seq![' ', '{'] + from + arrow + to + seq!['}']
}

impl Protocol {
    /// Whether two protocols are the same.
    pub fn same_as(&self, other: &Protocol) -> (r: bool)
        ensures
            r == (*self == *other),
    {
        match (self, other) {
            (Protocol::Tcp, Protocol::Tcp) => true,
            (Protocol::Udp, Protocol::Udp) => true,
            (Protocol::IcmpV4, Protocol::IcmpV4) => true,
            (Protocol::IcmpV6, Protocol::IcmpV6) => true,
            _ => false,
        }
    }

    /// The name of this protocol as packet descriptions write it.
    pub fn name(&self) -> (r: &'static str)
        ensures
            r@ == protocol_name(*self),
    {
        proof {
            reveal_strlit("tcp");
            reveal_strlit("udp");
            reveal_strlit("icmp_v4");
            reveal_strlit("icmp_v6");
        }
        match self {
            Protocol::Tcp => "tcp",
            Protocol::Udp => "udp",
            Protocol::IcmpV4 => "icmp_v4",
            Protocol::IcmpV6 => "icmp_v6",
        }
    }
}

/// Appends `address:port` to `s`.
fn append_endpoint(s: &mut String, a: &IpAddress, port: u16)
    ensures
        final(s)@ == old(s)@ + endpoint_text(*a, port),
{
    proof {
        reveal_strlit(":");
    }
    a.append_text(s);
    s.append(":");
    append_decimal_u16(s, port);
    assert(final(s)@ =~= old(s)@ + endpoint_text(*a, port));
}

/// Appends the decimal notation of a 16-bit value to `s`.
pub fn append_decimal_u16(s: &mut String, n: u16)
    ensures
        final(s)@ == old(s)@ + decimal(n as nat),
    decreases n,
{
    if n >= 10 {
        append_decimal_u16(s, n / 10);
    }
    crate::address::append_decimal(s, (n % 10) as u8);
    assert(final(s)@ =~= old(s)@ + decimal(n as nat));
}

impl Packet {
    /// The protocol of this packet.
    pub fn protocol(&self) -> (r: Protocol)
        ensures
            r == packet_protocol(*self),
    {
        match self {
            Packet::Tcp { .. } => Protocol::Tcp,
            Packet::Udp { .. } => Protocol::Udp,
            Packet::IcmpV4 { .. } => Protocol::IcmpV4,
            Packet::IcmpV6 { .. } => Protocol::IcmpV6,
        }
    }

    /// The human-readable description of this packet, as the consumer logs it.
    pub fn to_string(&self) -> (r: String)
        ensures
            r@ == packet_text(*self),
    {
        proof {
            reveal_strlit(" {");
            reveal_strlit(" -> ");
            reveal_strlit("}");
        }
        let mut s = String::from_str(self.protocol().name());
        s.append(" {");
        match self {
            Packet::Tcp { source_address, source_port, destination_address, destination_port }
            | Packet::Udp {
                source_address,
                source_port,
                destination_address,
                destination_port,
            } => {
                append_endpoint(&mut s, source_address, *source_port);
                s.append(" -> ");
                append_endpoint(&mut s, destination_address, *destination_port);
            },
            Packet::IcmpV4 { source_address, destination_address }
            | Packet::IcmpV6 { source_address, destination_address } => {
                source_address.append_text(&mut s);
                s.append(" -> ");
                destination_address.append_text(&mut s);
            },
        }
        s.append("}");
        assert(s@ =~= packet_text(*self));
        s
    }
}

} // verus!
