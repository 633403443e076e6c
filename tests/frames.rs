use etherparse::PacketBuilder;
use honeypot::address::IpAddress;
use honeypot::classify::{classify_frame, get_packet_from_headers, DecodeError, FrameHeaders, Network, Transport};
use honeypot::packet::Packet;

const MAC_A: [u8; 6] = [1, 2, 3, 4, 5, 6];
const MAC_B: [u8; 6] = [7, 8, 9, 10, 11, 12];

fn v6(last: u8) -> [u8; 16] {
    let mut b = [0u8; 16];
    b[0] = 0xfe;
    b[1] = 0x80;
    b[15] = last;
    b
}

fn tcp_v4_frame(src: [u8; 4], sport: u16, dst: [u8; 4], dport: u16) -> Vec<u8> {
    let builder = PacketBuilder::ethernet2(MAC_A, MAC_B).ipv4(src, dst, 20).tcp(sport, dport, 1, 4000);
    let mut out = Vec::with_capacity(builder.size(0));
    builder.write(&mut out, &[]).unwrap();
    out
}

#[test]
fn tcp_frame_classifies_with_its_fields() {
    let frame = tcp_v4_frame([10, 0, 0, 9], 4444, [10, 0, 0, 5], 80);
    assert_eq!(
        classify_frame(&frame),
        Ok(Packet::Tcp {
            source_address: IpAddress::V4([10, 0, 0, 9]),
            source_port: 4444,
            destination_address: IpAddress::V4([10, 0, 0, 5]),
            destination_port: 80,
        })
    );
}

#[test]
fn udp_frame_over_ipv6_classifies_with_its_fields() {
    let builder = PacketBuilder::ethernet2(MAC_A, MAC_B).ipv6(v6(1), v6(2), 64).udp(5353, 53);
    let mut frame = Vec::new();
    builder.write(&mut frame, &[1, 2, 3]).unwrap();
    assert_eq!(
        classify_frame(&frame),
        Ok(Packet::Udp {
            source_address: IpAddress::V6(v6(1)),
            source_port: 5353,
            destination_address: IpAddress::V6(v6(2)),
            destination_port: 53,
        })
    );
}

#[test]
fn icmpv4_frame_classifies_with_its_addresses() {
    let builder = PacketBuilder::ethernet2(MAC_A, MAC_B).ipv4([192, 168, 1, 2], [192, 168, 1, 1], 20).icmpv4_echo_request(7, 1);
    let mut frame = Vec::new();
    builder.write(&mut frame, &[]).unwrap();
    assert_eq!(
        classify_frame(&frame),
        Ok(Packet::IcmpV4 {
            source_address: IpAddress::V4([192, 168, 1, 2]),
            destination_address: IpAddress::V4([192, 168, 1, 1]),
        })
    );
}

#[test]
fn icmpv6_frame_classifies_with_its_addresses() {
    let builder = PacketBuilder::ethernet2(MAC_A, MAC_B).ipv6(v6(3), v6(4), 64).icmpv6_echo_request(7, 1);
    let mut frame = Vec::new();
    builder.write(&mut frame, &[]).unwrap();
    assert_eq!(
        classify_frame(&frame),
        Ok(Packet::IcmpV6 { source_address: IpAddress::V6(v6(3)), destination_address: IpAddress::V6(v6(4)) })
    );
}

#[test]
fn frame_without_transport_header_is_a_decode_failure() {
    let builder = PacketBuilder::ethernet2(MAC_A, MAC_B).ipv4([10, 0, 0, 9], [10, 0, 0, 5], 20);
    let mut frame = Vec::new();
    // protocol number 47 (GRE) is none that classification knows
    builder.write(&mut frame, 47, &[0, 0, 8, 0]).unwrap();
    assert_eq!(classify_frame(&frame), Err(DecodeError::NoTransportHeader));
}

#[test]
fn truncated_frame_is_undecodable() {
    let frame = tcp_v4_frame([10, 0, 0, 9], 4444, [10, 0, 0, 5], 80);
    assert_eq!(classify_frame(&frame[..10]), Err(DecodeError::Undecodable));
    assert_eq!(classify_frame(&[]), Err(DecodeError::Undecodable));
}

#[test]
fn non_ip_frame_has_no_network_header() {
    let mut frame = vec![0u8; 14];
    frame[..6].copy_from_slice(&MAC_B);
    frame[6..12].copy_from_slice(&MAC_A);
    // ether type 0x0806: ARP
    frame[12] = 0x08;
    frame[13] = 0x06;
    frame.extend_from_slice(&[0u8; 28]);
    assert_eq!(classify_frame(&frame), Err(DecodeError::NoNetworkHeader));
}

#[test]
fn headers_without_network_are_rejected() {
    let h = FrameHeaders { network: None, transport: Some(Transport::Tcp(1, 2)) };
    assert_eq!(get_packet_from_headers(&h), Err(DecodeError::NoNetworkHeader));
}

#[test]
fn icmp_variant_follows_the_network_header() {
    let h = FrameHeaders { network: Some(Network::V6(v6(1), v6(2))), transport: Some(Transport::Icmpv4) };
    assert_eq!(
        get_packet_from_headers(&h),
        Ok(Packet::IcmpV6 { source_address: IpAddress::V6(v6(1)), destination_address: IpAddress::V6(v6(2)) })
    );
    let h = FrameHeaders { network: Some(Network::V4([1, 1, 1, 1], [2, 2, 2, 2])), transport: Some(Transport::Icmpv6) };
    assert_eq!(
        get_packet_from_headers(&h),
        Ok(Packet::IcmpV4 { source_address: IpAddress::V4([1, 1, 1, 1]), destination_address: IpAddress::V4([2, 2, 2, 2]) })
    );
}

#[test]
fn headers_keep_ports_and_addresses() {
    let h = FrameHeaders {
        network: Some(Network::V4([1, 2, 3, 4], [5, 6, 7, 8])),
        transport: Some(Transport::Udp(1000, 2000)),
    };
    assert_eq!(
        get_packet_from_headers(&h),
        Ok(Packet::Udp {
            source_address: IpAddress::V4([1, 2, 3, 4]),
            source_port: 1000,
            destination_address: IpAddress::V4([5, 6, 7, 8]),
            destination_port: 2000,
        })
    );
    let h = FrameHeaders { network: Some(Network::V4([1, 2, 3, 4], [5, 6, 7, 8])), transport: None };
    assert_eq!(get_packet_from_headers(&h), Err(DecodeError::NoTransportHeader));
}
