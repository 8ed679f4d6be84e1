use packet_parser::checksum::ChecksumStatus;
use packet_parser::layer3::ipv4::anomalies::{HeaderField, Ipv4Anomaly};
use packet_parser::layer3::ipv4::dscp_ecn::{dscp_name, ecn_keyword};
use packet_parser::layer3::ipv4::errors::Ipv4Error;
use packet_parser::layer3::ipv4::flags::IpFlags;
use packet_parser::layer3::ipv4::packet::{Ipv4Address, Ipv4Header};
use packet_parser::layer3::ipv4::protocol::IpProtocol;

// The IPv4 datagram of an ICMP echo request: 192.168.1.104 -> 8.8.8.8.
const PACKET_TEST: &[u8] = &[
    0x45, 0x00, 0x00, 0x54, 0xc6, 0x4a, 0x40, 0x00, 0x40, 0x01, 0xa2, 0x3e, 0xc0, 0xa8, 0x01, 0x68,
    0x08, 0x08, 0x08, 0x08,
    0x08, 0x00, 0x0e, 0xe4, 0x1e, 0x08, 0x00, 0x01, 0x07, 0xe5, 0x8e, 0x6a, 0x00, 0x00, 0x00, 0x00,
    0x6f, 0xf0, 0x06, 0x00, 0x00, 0x00, 0x00, 0x00, 0x10, 0x11, 0x12, 0x13, 0x14, 0x15, 0x16, 0x17,
    0x18, 0x19, 0x1a, 0x1b, 0x1c, 0x1d, 0x1e, 0x1f, 0x20, 0x21, 0x22, 0x23, 0x24, 0x25, 0x26, 0x27,
    0x28, 0x29, 0x2a, 0x2b, 0x2c, 0x2d, 0x2e, 0x2f, 0x30, 0x31, 0x32, 0x33, 0x34, 0x35, 0x36, 0x37,
];

#[test]
fn parses_the_sample_packet() {
    let h = Ipv4Header::parse(PACKET_TEST).unwrap();
    assert_eq!(h.version, 4);
    assert_eq!(h.ihl, 5);
    assert_eq!(h.total_length, 84);
    assert_eq!(h.identification, 0xc64a);
    assert_eq!(
        h.flags,
        IpFlags {
            reserved: false,
            dont_fragment: true,
            more_fragments: false
        }
    );
    assert_eq!(h.fragment_offset, 0);
    assert_eq!(h.ttl, 64);
    assert_eq!(h.protocol, IpProtocol::Icmp);
    assert_eq!(h.header_checksum, 0xa23e);
    assert_eq!(h.source_address, Ipv4Address::new(192, 168, 1, 104));
    assert_eq!(h.destination_address, Ipv4Address::new(8, 8, 8, 8));
    assert_eq!(h.checksum_status, ChecksumStatus::Good);
    assert!(h.anomalies.is_empty());
}

#[test]
fn rejects_buffer_one_byte_below_minimum() {
    let err = Ipv4Header::parse(&PACKET_TEST[..19]).unwrap_err();
    assert!(matches!(
        err,
        Ipv4Error::BufferTooShortForHeader {
            expected: 20,
            got: 19
        }
    ));
}

#[test]
fn rejects_ipv6_fed_to_ipv4_parser() {
    let mut pkt = PACKET_TEST.to_vec();
    pkt[0] = 0x60;
    assert!(matches!(
        Ipv4Header::parse(&pkt).unwrap_err(),
        Ipv4Error::InvalidVersion {
            version: 6,
            raw: 0x60
        }
    ));
}

#[test]
fn anomaly_invalid_ihl_below_minimum() {
    // IHL 4 (16-byte header) is below the minimum of 5 (20 bytes).
    let mut pkt = PACKET_TEST.to_vec();
    pkt[0] = 0x44;
    let h = Ipv4Header::parse(&pkt).unwrap();
    assert!(h.anomalies.contains(&Ipv4Anomaly::InvalidIhl(4)));
}

#[test]
fn anomaly_header_longer_than_capture() {
    // IHL 6 declares a 24-byte header, but only 20 bytes were captured.
    let mut pkt = PACKET_TEST.to_vec();
    pkt[0] = 0x46;
    let h = Ipv4Header::parse(&pkt[..20]).unwrap();
    assert!(h.anomalies.contains(&Ipv4Anomaly::HeaderLongerThanCapture {
        captured: 20,
        declared: 24,
    }));
    assert!(
        h.anomalies
            .contains(&Ipv4Anomaly::TotalLengthExceedsCapture { captured: 20 })
    );
    assert_eq!(h.checksum_status, ChecksumStatus::NotVerifiable);
}

#[test]
fn anomaly_header_exceeding_total_length() {
    let mut pkt = PACKET_TEST.to_vec();
    pkt[3] = 0x13; // total_length = 19
    let h = Ipv4Header::parse(&pkt).unwrap();
    assert_eq!(h.total_length, 19);
    assert!(
        h.anomalies
            .contains(&Ipv4Anomaly::HeaderExceedsTotalLength {
                header_length: 20,
                total_length: 19,
            })
    );
}

#[test]
fn anomaly_total_length_exceeding_capture() {
    let h = Ipv4Header::parse(&PACKET_TEST[..83]).unwrap();
    assert!(
        h.anomalies
            .contains(&Ipv4Anomaly::TotalLengthExceedsCapture { captured: 83 })
    );
    assert_eq!(h.checksum_status, ChecksumStatus::Good);
}

#[test]
fn anomaly_reserved_bit_set() {
    // word = 0xA000: flags = 0b101 (Reserved + More Fragments).
    let mut pkt = PACKET_TEST.to_vec();
    pkt[6] = 0xA0;
    let h = Ipv4Header::parse(&pkt).unwrap();
    assert!(h.flags.reserved);
    assert_eq!(h.anomalies, vec![Ipv4Anomaly::ReservedFlagSet]);
}

#[test]
fn records_bad_checksum_instead_of_failing() {
    let mut pkt = PACKET_TEST.to_vec();
    pkt[8] ^= 0xFF; // TTL: 0x40 -> 0xBF
    let h = Ipv4Header::parse(&pkt).unwrap();
    assert_eq!(h.checksum_status, ChecksumStatus::Bad);
    assert_eq!(h.ttl, 0xBF);
    assert!(h.anomalies.is_empty());
}

#[test]
fn reports_every_lie_a_packet_tells() {
    // buf=20, IHL=6 (declares 24), total=22.
    let mut pkt = PACKET_TEST.to_vec();
    pkt[0] = 0x46;
    pkt[3] = 0x16; // total_length = 22
    let h = Ipv4Header::parse(&pkt[..20]).unwrap();
    assert!(h.anomalies.contains(&Ipv4Anomaly::HeaderLongerThanCapture {
        captured: 20,
        declared: 24,
    }));
    assert!(
        h.anomalies
            .contains(&Ipv4Anomaly::HeaderExceedsTotalLength {
                header_length: 24,
                total_length: 22,
            })
    );
    assert!(
        h.anomalies
            .contains(&Ipv4Anomaly::TotalLengthExceedsCapture { captured: 20 })
    );
}

#[test]
fn accepts_padding_beyond_total_length() {
    let mut padded = PACKET_TEST.to_vec();
    padded.extend_from_slice(&[0x00; 6]); // fake Ethernet padding
    let h = Ipv4Header::parse(&padded).unwrap();
    assert!(h.anomalies.is_empty());
    assert_eq!(h.checksum_status, ChecksumStatus::Good);
}

#[test]
fn anomalies_come_in_detection_order() {
    let mut pkt = PACKET_TEST.to_vec();
    pkt[0] = 0x46;
    pkt[3] = 0x16;
    pkt[6] = 0x80;
    let h = Ipv4Header::parse(&pkt[..20]).unwrap();
    assert_eq!(
        h.anomalies,
        vec![
            Ipv4Anomaly::HeaderLongerThanCapture { captured: 20, declared: 24 },
            Ipv4Anomaly::HeaderExceedsTotalLength { header_length: 24, total_length: 22 },
            Ipv4Anomaly::TotalLengthExceedsCapture { captured: 20 },
            Ipv4Anomaly::ReservedFlagSet,
        ]
    );
    assert!(!h.header_fits_capture());
    assert!(!h.locates_payload());
}

#[test]
fn invalid_ihl_checksum_is_not_verifiable() {
    let mut pkt = PACKET_TEST.to_vec();
    pkt[0] = 0x44;
    let h = Ipv4Header::parse(&pkt).unwrap();
    assert_eq!(h.anomalies, vec![Ipv4Anomaly::InvalidIhl(4)]);
    assert_eq!(h.checksum_status, ChecksumStatus::NotVerifiable);
    assert!(!h.locates_payload());
    assert!(h.header_fits_capture());
}

#[test]
fn payload_length_is_total_less_header() {
    let h = Ipv4Header::parse(PACKET_TEST).unwrap();
    assert!(h.locates_payload());
    assert!(h.header_fits_capture());
    assert_eq!(h.payload_length(), 64);
}

#[test]
fn fields_are_split_at_their_bits() {
    let mut pkt = PACKET_TEST.to_vec();
    pkt[1] = 0xb9; // DSCP 46, ECN 1
    pkt[6] = 0x7f; // DF + MF, offset 0x1fff
    pkt[7] = 0xff;
    let h = Ipv4Header::parse(&pkt).unwrap();
    assert_eq!(h.dscp, 46);
    assert_eq!(h.ecn, 1);
    assert_eq!(h.flags, IpFlags { reserved: false, dont_fragment: true, more_fragments: true });
    assert_eq!(h.fragment_offset, 0x1fff);
}

#[test]
fn anomaly_fields() {
    assert_eq!(Ipv4Anomaly::InvalidIhl(3).field(), HeaderField::HeaderLength);
    assert_eq!(
        Ipv4Anomaly::HeaderLongerThanCapture { captured: 1, declared: 2 }.field(),
        HeaderField::HeaderLength
    );
    assert_eq!(
        Ipv4Anomaly::HeaderExceedsTotalLength { header_length: 1, total_length: 2 }.field(),
        HeaderField::TotalLength
    );
    assert_eq!(Ipv4Anomaly::TotalLengthExceedsCapture { captured: 1 }.field(), HeaderField::TotalLength);
    assert_eq!(Ipv4Anomaly::ReservedFlagSet.field(), HeaderField::Flags);
}

#[test]
fn flags_round_trip() {
    for v in 0u8..=255 {
        assert_eq!(IpFlags::parse(v).as_byte(), v & 7);
    }
    let f = IpFlags { reserved: true, dont_fragment: false, more_fragments: true };
    assert_eq!(f.as_byte(), 0b101);
    assert_eq!(IpFlags::parse(f.as_byte()), f);
    assert!(f.is_anomalous());
}

#[test]
fn protocol_values_round_trip() {
    assert_eq!(IpProtocol::from(6), IpProtocol::Tcp);
    assert_eq!(IpProtocol::from(17), IpProtocol::Udp);
    assert_eq!(IpProtocol::from(50), IpProtocol::Unknown(50));
    for v in [1u8, 6, 17, 0, 50, 255] {
        assert_eq!(IpProtocol::from(v).value(), v);
    }
}

#[test]
fn dscp_and_ecn_names() {
    assert_eq!(dscp_name(0), "CS0");
    assert_eq!(dscp_name(8), "CS1");
    assert_eq!(dscp_name(16), "CS2");
    assert_eq!(dscp_name(24), "CS3");
    assert_eq!(dscp_name(56), "CS7");
    assert_eq!(dscp_name(10), "AF11");
    assert_eq!(dscp_name(34), "AF41");
    assert_eq!(dscp_name(38), "AF43");
    assert_eq!(dscp_name(46), "EF");
    assert_eq!(dscp_name(44), "VOICE-ADMIT");
    assert_eq!(dscp_name(1), "LE");
    assert_eq!(dscp_name(2), "Unknown");
    assert_eq!(dscp_name(63), "Unknown");
    assert_eq!(ecn_keyword(0), "Not-ECT");
    assert_eq!(ecn_keyword(1), "ECT(1)");
    assert_eq!(ecn_keyword(2), "ECT(0)");
    assert_eq!(ecn_keyword(3), "CE");
    assert_eq!(ecn_keyword(4), "Unknown");
}

#[test]
fn addresses_keep_their_octets() {
    assert_eq!(Ipv4Address::new(10, 0, 0, 1).octets(), [10, 0, 0, 1]);
}
