//! Frame classification: from the bytes of an Ethernet II frame to a typed packet.

use vstd::prelude::*;

use etherparse::{IpHeader, PacketHeaders, TransportHeader};

use crate::address::IpAddress;
use crate::packet::Packet;

verus! {

/// The network-layer header of a frame: its source and destination address.
#[derive(Clone, Copy, Debug, PartialEq, Eq)]
pub enum Network {
    V4([u8; 4], [u8; 4]),
    V6([u8; 16], [u8; 16]),
}

/// The transport-layer header of a frame, as far as classification reads it:
/// source and destination port for TCP and UDP.
#[derive(Clone, Copy, Debug, PartialEq, Eq)]
pub enum Transport {
    Tcp(u16, u16),
    Udp(u16, u16),
    Icmpv4,
    Icmpv6,
}

/// The headers decoded from a frame.
#[derive(Clone, Copy, Debug, PartialEq, Eq)]
pub struct FrameHeaders {
    pub network: Option<Network>,
    pub transport: Option<Transport>,
}

/// Why a frame could not be classified.
#[derive(Clone, Copy, Debug, PartialEq, Eq)]
pub enum DecodeError {
    /// The bytes are no well-formed Ethernet II frame.
    Undecodable,
    /// No IPv4 or IPv6 header follows the link header.
    NoNetworkHeader,
    /// No TCP, UDP, ICMPv4 or ICMPv6 header follows the network header.
    NoTransportHeader,
}

/// The headers that the Ethernet II decoder finds in `frame`, or `None` where it
/// rejects the frame.
pub uninterp spec fn ethernet_headers(frame: Seq<u8>) -> Option<FrameHeaders>;

/// Relies on etherparse::PacketHeaders::from_ethernet_slice: decodes the link,
/// network and transport headers of an Ethernet II frame; its result depends on
/// the bytes alone.
#[verifier::external_body]
fn decode_ethernet(frame: &[u8]) -> (r: Option<FrameHeaders>)
    ensures
        r == ethernet_headers(frame@),
{
    let h = PacketHeaders::from_ethernet_slice(frame).ok()?;
    let network = match h.ip {
        Some(IpHeader::Version4(ip, _)) => Some(Network::V4(ip.source, ip.destination)),
        Some(IpHeader::Version6(ip, _)) => Some(Network::V6(ip.source, ip.destination)),
        None => None,
    };
    let transport = match h.transport {
        Some(TransportHeader::Tcp(t)) => Some(Transport::Tcp(t.source_port, t.destination_port)),
        Some(TransportHeader::Udp(u)) => Some(Transport::Udp(u.source_port, u.destination_port)),
        Some(TransportHeader::Icmpv4(_)) => Some(Transport::Icmpv4),
        Some(TransportHeader::Icmpv6(_)) => Some(Transport::Icmpv6),
        None => None,
    };
    Some(FrameHeaders { network, transport })
}

/// Source and destination address of a network header.
pub open spec fn network_addresses(n: Network) -> (IpAddress, IpAddress) {
    match n {
        Network::V4(source, destination) => (IpAddress::V4(source), IpAddress::V4(destination)),
        Network::V6(source, destination) => (IpAddress::V6(source), IpAddress::V6(destination)),
    }
}

/// The packet that decoded headers describe, or why they describe none.
pub open spec fn classified(h: FrameHeaders) -> Result<Packet, DecodeError> {
    match h.network {
        None => Err(DecodeError::NoNetworkHeader),
        Some(n) => {
            let (source_address, destination_address) = network_addresses(n);
            match h.transport {
                None => Err(DecodeError::NoTransportHeader),
                Some(Transport::Tcp(source_port, destination_port)) => Ok(
                    Packet::Tcp { source_address, source_port, destination_address, destination_port },
                ),
                Some(Transport::Udp(source_port, destination_port)) => Ok(
                    Packet::Udp { source_address, source_port, destination_address, destination_port },
                ),
                Some(Transport::Icmpv4) | Some(Transport::Icmpv6) => if n is V4 {
                    Ok(Packet::IcmpV4 { source_address, destination_address })
                } else {
                    Ok(Packet::IcmpV6 { source_address, destination_address })
                },
            }
        },
    }
}

/// The classification of a frame's bytes.
pub open spec fn frame_classified(frame: Seq<u8>) -> Result<Packet, DecodeError> {
    match ethernet_headers(frame) {
        None => Err(DecodeError::Undecodable),
        Some(h) => classified(h),
    }
}

/// The packet that decoded headers describe: addresses from the network header,
/// ports and variant from the transport header.
pub fn get_packet_from_headers(headers: &FrameHeaders) -> (r: Result<Packet, DecodeError>)
    ensures
        r == classified(*headers),
{
    let (source_address, destination_address, is_v4) = match &headers.network {
        None => return Err(DecodeError::NoNetworkHeader),
        Some(Network::V4(source, destination)) => (IpAddress::V4(*source), IpAddress::V4(*destination), true),
        Some(Network::V6(source, destination)) => (IpAddress::V6(*source), IpAddress::V6(*destination), false),
    };
    match &headers.transport {
        None => Err(DecodeError::NoTransportHeader),
        Some(Transport::Tcp(source_port, destination_port)) => Ok(
            Packet::Tcp {
                source_address,
                source_port: *source_port,
                destination_address,
                destination_port: *destination_port,
            },
        ),
        Some(Transport::Udp(source_port, destination_port)) => Ok(
            Packet::Udp {
                source_address,
                source_port: *source_port,
                destination_address,
                destination_port: *destination_port,
            },
        ),
        Some(Transport::Icmpv4) | Some(Transport::Icmpv6) => if is_v4 {
            Ok(Packet::IcmpV4 { source_address, destination_address })
        } else {
            Ok(Packet::IcmpV6 { source_address, destination_address })
        },
    }
}

/// Classifies the bytes of one captured Ethernet II frame.
pub fn classify_frame(frame: &[u8]) -> (r: Result<Packet, DecodeError>)
    ensures
        r == frame_classified(frame@),
{
    match decode_ethernet(frame) {
        None => Err(DecodeError::Undecodable),
        Some(h) => get_packet_from_headers(&h),
    }
}

/// Classification keeps what the headers say: a frame whose decoded headers hold
/// network addresses and a TCP (or UDP) header becomes a TCP (or UDP) packet with
/// exactly those addresses and ports; one with an ICMP header becomes the ICMP
/// packet of the network header's IP version with exactly those addresses. Such a
/// frame always yields a packet.
pub proof fn lemma_classification_keeps_fields(frame: Seq<u8>, n: Network, t: Transport)
    requires
        ethernet_headers(frame) == Some(FrameHeaders { network: Some(n), transport: Some(t) }),
    ensures
        ({
            let (source_address, destination_address) = network_addresses(n);
            &&& t matches Transport::Tcp(sp, dp) ==> frame_classified(frame) == Ok::<Packet, DecodeError>(
                Packet::Tcp { source_address, source_port: sp, destination_address, destination_port: dp },
            )
            &&& t matches Transport::Udp(sp, dp) ==> frame_classified(frame) == Ok::<Packet, DecodeError>(
                Packet::Udp { source_address, source_port: sp, destination_address, destination_port: dp },
            )
            &&& ((t is Icmpv4 || t is Icmpv6) && n is V4) ==> frame_classified(frame) == Ok::<Packet, DecodeError>(
                Packet::IcmpV4 { source_address, destination_address },
            )
            &&& ((t is Icmpv4 || t is Icmpv6) && n is V6) ==> frame_classified(frame) == Ok::<Packet, DecodeError>(
                Packet::IcmpV6 { source_address, destination_address },
            )
            &&& frame_classified(frame) is Ok
        }),
{
}

/// Classification is total: a frame whose network header was decoded but which
/// carries no transport header that classification knows yields a decode failure,
/// not a packet.
pub proof fn lemma_missing_transport_fails(frame: Seq<u8>, n: Network)
    requires
        ethernet_headers(frame) == Some(FrameHeaders { network: Some(n), transport: None }),
    ensures
        frame_classified(frame) == Err::<Packet, DecodeError>(DecodeError::NoTransportHeader),
{
}

} // verus!
