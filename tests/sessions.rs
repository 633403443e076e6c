use std::sync::mpsc;

use etherparse::PacketBuilder;
use honeypot::address::IpAddress;
use honeypot::classify::{classify_frame, DecodeError};
use honeypot::filter::{build_filter, filter_admits_packet};
use honeypot::packet::{Packet, Protocol};
use honeypot::session::{CaptureSession, DropReason, SessionAction, SessionEvent};

fn tcp_frame(src: [u8; 4], sport: u16, dst: [u8; 4], dport: u16) -> Vec<u8> {
    let builder = PacketBuilder::ethernet2([1, 2, 3, 4, 5, 6], [7, 8, 9, 10, 11, 12]).ipv4(src, dst, 20).tcp(sport, dport, 1, 4000);
    let mut out = Vec::new();
    builder.write(&mut out, &[]).unwrap();
    out
}

fn udp_frame(src: [u8; 4], sport: u16, dst: [u8; 4], dport: u16) -> Vec<u8> {
    let builder = PacketBuilder::ethernet2([1, 2, 3, 4, 5, 6], [7, 8, 9, 10, 11, 12]).ipv4(src, dst, 20).udp(sport, dport);
    let mut out = Vec::new();
    builder.write(&mut out, &[]).unwrap();
    out
}

#[test]
fn malformed_frame_leaves_the_session_running() {
    let mut s = CaptureSession::new(Protocol::Tcp);
    let a = s.step(&SessionEvent::Frame(vec![1, 2, 3]));
    assert_eq!(a, SessionAction::Drop(DropReason::Malformed(DecodeError::Undecodable)));
    assert!(s.running);
    let next = s.step(&SessionEvent::Frame(tcp_frame([10, 0, 0, 9], 1, [10, 0, 0, 5], 2)));
    assert!(matches!(next, SessionAction::Send(Packet::Tcp { source_port: 1, destination_port: 2, .. })));
    assert!(s.running);
}

#[test]
fn read_and_send_failures_leave_the_session_running() {
    let mut s = CaptureSession::new(Protocol::Udp);
    assert_eq!(s.step(&SessionEvent::ReadFailed), SessionAction::ReportReadFailure);
    assert!(s.running);
    assert_eq!(s.step(&SessionEvent::SendFailed), SessionAction::ReportSendFailure);
    assert!(s.running);
    assert_eq!(s.step(&SessionEvent::EndOfCapture), SessionAction::Stop);
    assert!(!s.running);
    assert_eq!(s.protocol, Protocol::Udp);
}

#[test]
fn frame_of_another_protocol_is_dropped() {
    let mut s = CaptureSession::new(Protocol::Tcp);
    let a = s.step(&SessionEvent::Frame(udp_frame([10, 0, 0, 9], 1, [10, 0, 0, 5], 2)));
    assert_eq!(a, SessionAction::Drop(DropReason::OtherProtocol(Protocol::Udp)));
    assert!(s.running);
}

#[test]
fn fan_in_keeps_each_sessions_order() {
    let (tx, rx) = mpsc::channel();
    let mut tcp = CaptureSession::new(Protocol::Tcp);
    let mut udp = CaptureSession::new(Protocol::Udp);
    let tcp_tx = tx.clone();
    let udp_tx = tx;
    for i in 0..3u16 {
        if let SessionAction::Send(p) = tcp.step(&SessionEvent::Frame(tcp_frame([10, 0, 0, 9], 100 + i, [10, 0, 0, 5], 80))) {
            tcp_tx.send(p).unwrap();
        }
        if let SessionAction::Send(p) = udp.step(&SessionEvent::Frame(udp_frame([10, 0, 0, 9], 200 + i, [10, 0, 0, 5], 53))) {
            udp_tx.send(p).unwrap();
        }
    }
    drop(tcp_tx);
    drop(udp_tx);
    let got: Vec<Packet> = rx.iter().collect();
    assert_eq!(got.len(), 6);
    let tcp_ports: Vec<u16> = got
        .iter()
        .filter_map(|p| match p {
            Packet::Tcp { source_port, .. } => Some(*source_port),
            _ => None,
        })
        .collect();
    let udp_ports: Vec<u16> = got
        .iter()
        .filter_map(|p| match p {
            Packet::Udp { source_port, .. } => Some(*source_port),
            _ => None,
        })
        .collect();
    assert_eq!(tcp_ports, vec![100, 101, 102]);
    assert_eq!(udp_ports, vec![200, 201, 202]);
}

#[test]
fn end_to_end_inbound_tcp_frame_reaches_the_consumer() {
    let local = [IpAddress::V4([10, 0, 0, 5])];
    let filter = build_filter(&local, Protocol::Tcp);
    assert_eq!(filter, "(! src host 10.0.0.5) && (dst host 10.0.0.5) && tcp");
    let frame = tcp_frame([10, 0, 0, 9], 4444, [10, 0, 0, 5], 80);
    let expected = Packet::Tcp {
        source_address: IpAddress::V4([10, 0, 0, 9]),
        source_port: 4444,
        destination_address: IpAddress::V4([10, 0, 0, 5]),
        destination_port: 80,
    };
    assert_eq!(classify_frame(&frame), Ok(expected));
    assert!(filter_admits_packet(&local, Protocol::Tcp, &expected));
    let (tx, rx) = mpsc::channel();
    let mut s = CaptureSession::new(Protocol::Tcp);
    match s.step(&SessionEvent::Frame(frame)) {
        SessionAction::Send(p) => tx.send(p).unwrap(),
        other => panic!("unexpected action {other:?}"),
    }
    assert_eq!(rx.recv().unwrap(), expected);
}

#[test]
fn frame_from_a_local_address_is_rejected_by_the_filter() {
    let local = [IpAddress::V4([10, 0, 0, 5])];
    let frame = tcp_frame([10, 0, 0, 5], 4444, [10, 0, 0, 5], 80);
    let packet = classify_frame(&frame).unwrap();
    assert!(!filter_admits_packet(&local, Protocol::Tcp, &packet));
    let outbound = Packet::Tcp {
        source_address: IpAddress::V4([10, 0, 0, 5]),
        source_port: 80,
        destination_address: IpAddress::V4([10, 0, 0, 9]),
        destination_port: 4444,
    };
    assert!(!filter_admits_packet(&local, Protocol::Tcp, &outbound));
}

#[test]
fn filter_admits_only_its_protocol() {
    let local = [IpAddress::V4([10, 0, 0, 5]), IpAddress::V4([10, 0, 0, 6])];
    let udp = Packet::Udp {
        source_address: IpAddress::V4([10, 0, 0, 9]),
        source_port: 1,
        destination_address: IpAddress::V4([10, 0, 0, 6]),
        destination_port: 2,
    };
    assert!(filter_admits_packet(&local, Protocol::Udp, &udp));
    assert!(!filter_admits_packet(&local, Protocol::Tcp, &udp));
    let elsewhere = Packet::IcmpV4 { source_address: IpAddress::V4([10, 0, 0, 9]), destination_address: IpAddress::V4([10, 0, 0, 7]) };
    assert!(!filter_admits_packet(&local, Protocol::IcmpV4, &elsewhere));
}
