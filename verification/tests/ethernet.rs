use packet_parser::layer2::ethernet::{EtherType, EthernetError, EthernetHeader, MacAddress};

const FRAME_TEST: &[u8] = &[
    0xff, 0xff, 0xff, 0xff, 0xff, 0xff, // destination (broadcast)
    0x00, 0x11, 0x22, 0x33, 0x44, 0x55, // source
    0x08, 0x00, // EtherType: IPv4
];

#[test]
fn parses_a_frame() {
    let (h, payload) = EthernetHeader::parse(FRAME_TEST).unwrap();
    assert_eq!(h.dst_mac, MacAddress([0xff; 6]));
    assert_eq!(h.src_mac, MacAddress([0x00, 0x11, 0x22, 0x33, 0x44, 0x55]));
    assert_eq!(h.ethertype, EtherType::Ipv4);
    assert!(payload.is_empty());
}

#[test]
fn ethernet_rejects_buffer_below_minimum() {
    let err = EthernetHeader::parse(&FRAME_TEST[..13]).unwrap_err();
    assert!(matches!(
        err,
        EthernetError::BufferTooShortForHeader {
            expected: 14,
            got: 13
        }
    ));
}

#[test]
fn payload_is_everything_after_the_header() {
    let mut frame = FRAME_TEST.to_vec();
    frame.extend_from_slice(&[1, 2, 3]);
    let (_, payload) = EthernetHeader::parse(&frame).unwrap();
    assert_eq!(payload, &[1, 2, 3]);
}

#[test]
fn ethertype_values_round_trip() {
    assert_eq!(EtherType::from(0x0806), EtherType::Arp);
    assert_eq!(EtherType::from(0x86DD), EtherType::Ipv6);
    assert_eq!(EtherType::from(0x1234), EtherType::Unknown(0x1234));
    for v in [0x0800u16, 0x0806, 0x86DD, 0x0000, 0x1234, 0xffff] {
        assert_eq!(EtherType::from(v).value(), v);
    }
}

#[test]
fn ethertype_is_read_big_endian() {
    let mut frame = FRAME_TEST.to_vec();
    frame[12] = 0x86;
    frame[13] = 0xdd;
    let (h, _) = EthernetHeader::parse(&frame).unwrap();
    assert_eq!(h.ethertype, EtherType::Ipv6);
}
