use packet_parser::checksum::ChecksumStatus;
use packet_parser::errors::AppError;
use packet_parser::frame::{EthernetPayload, Frame, Ipv4Payload};
use packet_parser::layer2::ethernet::{EtherType, EthernetError};
use packet_parser::layer3::icmp::message::IcmpBody;
use packet_parser::layer3::icmp::types::IcmpType;
use packet_parser::layer3::ipv4::errors::Ipv4Error;
use packet_parser::layer3::ipv4::packet::Ipv4Address;
use packet_parser::layer3::ipv4::protocol::IpProtocol;

// ICMP echo request (ping): src 192.168.1.104 -> dst 8.8.8.8.
const PACKET_TEST: &[u8] = &[
    // Ethernet II
    0xff, 0xff, 0xff, 0xff, 0xff, 0xff, 0x00, 0x11, 0x22, 0x33, 0x44, 0x55, 0x08, 0x00,
    // IPv4
    0x45, 0x00, 0x00, 0x54, 0xc6, 0x4a, 0x40, 0x00, 0x40, 0x01, 0xa2, 0x3e, 0xc0, 0xa8, 0x01, 0x68,
    0x08, 0x08, 0x08, 0x08,
    // ICMP header + echo payload (64 bytes)
    0x08, 0x00, 0x0e, 0xe4, 0x1e, 0x08, 0x00, 0x01, 0x07, 0xe5, 0x8e, 0x6a, 0x00, 0x00, 0x00, 0x00,
    0x6f, 0xf0, 0x06, 0x00, 0x00, 0x00, 0x00, 0x00, 0x10, 0x11, 0x12, 0x13, 0x14, 0x15, 0x16, 0x17,
    0x18, 0x19, 0x1a, 0x1b, 0x1c, 0x1d, 0x1e, 0x1f, 0x20, 0x21, 0x22, 0x23, 0x24, 0x25, 0x26, 0x27,
    0x28, 0x29, 0x2a, 0x2b, 0x2c, 0x2d, 0x2e, 0x2f, 0x30, 0x31, 0x32, 0x33, 0x34, 0x35, 0x36, 0x37,
];

#[test]
fn frame_tree_carries_the_dissection() {
    let frame = Frame::parse(PACKET_TEST).unwrap();
    let EthernetPayload::Ipv4 { header, payload } = &frame.payload else {
        panic!("expected IPv4");
    };
    let Ipv4Payload::Icmp(message) = payload else {
        panic!("expected ICMP");
    };
    assert_eq!(header.destination_address, Ipv4Address::new(8, 8, 8, 8));
    assert_eq!(message.type_, IcmpType::EchoRequest);
}

#[test]
fn frame_padding_beyond_the_datagram_stays_out_of_the_data() {
    let mut padded = PACKET_TEST.to_vec();
    padded.extend_from_slice(&[0xAA; 6]); // fake Ethernet padding
    let frame = Frame::parse(&padded).unwrap();
    let EthernetPayload::Ipv4 { payload, .. } = &frame.payload else {
        panic!("expected IPv4");
    };
    let Ipv4Payload::Icmp(message) = payload else {
        panic!("expected ICMP");
    };
    let IcmpBody::Echo(Some(echo)) = message.body else {
        panic!("expected a complete echo body");
    };
    assert_eq!(echo.data.len(), 56); // 64 - 8, padding excluded
    assert_eq!(message.checksum_status, ChecksumStatus::Good);
}

#[test]
fn bogus_ihl_leaves_the_payload_unlocatable() {
    let mut pkt = PACKET_TEST.to_vec();
    pkt[14] = 0x44; // IPv4 byte 0: version 4, IHL 4
    let frame = Frame::parse(&pkt).unwrap();
    let EthernetPayload::Ipv4 { header, payload } = &frame.payload else {
        panic!("expected IPv4");
    };
    assert!(matches!(payload, Ipv4Payload::Unlocatable));
    assert_eq!(header.checksum_status, ChecksumStatus::NotVerifiable);
}

#[test]
fn datagram_smaller_than_its_header_leaves_the_payload_unlocatable() {
    let mut pkt = PACKET_TEST.to_vec();
    pkt[17] = 0x13; // total_length = 19
    let frame = Frame::parse(&pkt).unwrap();
    let EthernetPayload::Ipv4 { payload, .. } = &frame.payload else {
        panic!("expected IPv4");
    };
    assert!(matches!(payload, Ipv4Payload::Unlocatable));
}

#[test]
fn truncated_header_reports_not_captured() {
    let mut pkt = PACKET_TEST.to_vec();
    pkt[14] = 0x46; // version 4, IHL 6: 24-byte declared header
    let frame = Frame::parse(&pkt[..34]).unwrap(); // Ethernet 14 + 20 of the 24
    let EthernetPayload::Ipv4 { payload, .. } = &frame.payload else {
        panic!("expected IPv4");
    };
    assert!(matches!(payload, Ipv4Payload::NotCaptured));
}

#[test]
fn capture_that_reaches_no_payload_bytes_reports_not_captured() {
    let frame = Frame::parse(&PACKET_TEST[..34]).unwrap();
    let EthernetPayload::Ipv4 { payload, .. } = &frame.payload else {
        panic!("expected IPv4");
    };
    assert!(matches!(payload, Ipv4Payload::NotCaptured));
}

#[test]
fn valid_ihl_with_options_still_descends() {
    let mut pkt = PACKET_TEST.to_vec();
    pkt[14] = 0x46; // IPv4 byte 0: version 4, IHL 6: 24-byte header
    let frame = Frame::parse(&pkt).unwrap();
    let EthernetPayload::Ipv4 { header, payload } = &frame.payload else {
        panic!("expected IPv4");
    };
    assert!(header.locates_payload());
    assert!(header.header_fits_capture());
    assert!(header.anomalies.is_empty());
    let Ipv4Payload::Icmp(message) = payload else {
        panic!("expected the descent to happen");
    };
    let IcmpBody::Other(raw_body) = message.body else {
        panic!("expected the reinterpreted raw body");
    };
    assert!(matches!(message.type_, IcmpType::Unknown(30)));
    assert_eq!(message.code, 8);
    assert_eq!(raw_body.len(), 56); // 60 declared - 4 common header
    assert_eq!(header.checksum_status, ChecksumStatus::Bad);
}

#[test]
fn short_frame_is_an_ethernet_error() {
    let err = Frame::parse(&PACKET_TEST[..10]).unwrap_err();
    assert_eq!(
        err,
        AppError::Ethernet(EthernetError::BufferTooShortForHeader { expected: 14, got: 10 })
    );
}

#[test]
fn short_datagram_is_an_ipv4_error() {
    let err = Frame::parse(&PACKET_TEST[..30]).unwrap_err();
    assert_eq!(
        err,
        AppError::Ipv4(Ipv4Error::BufferTooShortForHeader { expected: 20, got: 16 })
    );
    let mut pkt = PACKET_TEST.to_vec();
    pkt[14] = 0x65;
    let err = Frame::parse(&pkt).unwrap_err();
    assert_eq!(err, AppError::Ipv4(Ipv4Error::InvalidVersion { version: 6, raw: 0x65 }));
}

#[test]
fn other_ethertypes_are_not_dissected() {
    let mut pkt = PACKET_TEST.to_vec();
    pkt[12] = 0x08;
    pkt[13] = 0x06;
    let frame = Frame::parse(&pkt).unwrap();
    assert!(matches!(frame.payload, EthernetPayload::Unsupported(EtherType::Arp)));
    // An ARP frame too short for an IPv4 header is not an IPv4 error.
    let frame = Frame::parse(&pkt[..16]).unwrap();
    assert!(matches!(frame.payload, EthernetPayload::Unsupported(EtherType::Arp)));
}

#[test]
fn other_protocols_are_not_dissected() {
    let mut pkt = PACKET_TEST.to_vec();
    pkt[23] = 6; // TCP
    let frame = Frame::parse(&pkt).unwrap();
    let EthernetPayload::Ipv4 { payload, .. } = &frame.payload else {
        panic!("expected IPv4");
    };
    assert!(matches!(payload, Ipv4Payload::Unsupported(IpProtocol::Tcp)));
}

#[test]
fn ipv4_payload_dispatch() {
    assert!(matches!(
        Ipv4Payload::parse(IpProtocol::Icmp, 64, &[0x08, 0x00]),
        Ipv4Payload::NotCaptured
    ));
    assert!(matches!(
        Ipv4Payload::parse(IpProtocol::Udp, 8, &[0; 8]),
        Ipv4Payload::Unsupported(IpProtocol::Udp)
    ));
    let Ipv4Payload::Icmp(m) = Ipv4Payload::parse(IpProtocol::Icmp, 8, &[0, 0, 0xff, 0xff, 0, 0, 0, 0]) else {
        panic!("expected ICMP");
    };
    assert_eq!(m.type_, IcmpType::EchoReply);
    assert_eq!(m.checksum_status, ChecksumStatus::Good);
}

#[test]
fn app_error_from_layer_errors() {
    let e = EthernetError::BufferTooShortForHeader { expected: 14, got: 0 };
    assert_eq!(AppError::from(e), AppError::Ethernet(e));
    let e = Ipv4Error::InvalidVersion { version: 6, raw: 0x60 };
    assert_eq!(AppError::from(e), AppError::Ipv4(e));
}

#[test]
fn ethernet_payload_dispatch() {
    let payload = EthernetPayload::parse(EtherType::Ipv4, &PACKET_TEST[14..]).unwrap();
    let EthernetPayload::Ipv4 { header, payload } = payload else {
        panic!("expected IPv4");
    };
    assert_eq!(header.total_length, 84);
    assert!(matches!(payload, Ipv4Payload::Icmp(_)));
    assert!(matches!(
        EthernetPayload::parse(EtherType::Unknown(0x1234), &[]),
        Ok(EthernetPayload::Unsupported(EtherType::Unknown(0x1234)))
    ));
    assert_eq!(
        EthernetPayload::parse(EtherType::Ipv4, &[0x45; 4]).unwrap_err(),
        AppError::Ipv4(Ipv4Error::BufferTooShortForHeader { expected: 20, got: 4 })
    );
}
