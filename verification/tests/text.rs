use packet_parser::checksum::ChecksumStatus;
use packet_parser::errors::AppError;
use packet_parser::frame::{packet_dump, Frame};
use packet_parser::layer2::ethernet::{EthernetError, EthernetHeader};
use packet_parser::layer3::icmp::anomalies::IcmpAnomaly;
use packet_parser::layer3::icmp::message::{IcmpError, IcmpMessage};
use packet_parser::layer3::ipv4::anomalies::Ipv4Anomaly;
use packet_parser::layer3::ipv4::errors::Ipv4Error;
use packet_parser::layer3::ipv4::flags::IpFlags;
use packet_parser::layer3::ipv4::packet::Ipv4Header;

// ICMP echo request (ping): src 192.168.1.104 -> dst 8.8.8.8.
const PACKET_TEST: &[u8] = &[
    // Ethernet II
    0xff, 0xff, 0xff, 0xff, 0xff, 0xff, 0x00, 0x11, 0x22, 0x33, 0x44, 0x55, 0x08, 0x00,
    // IPv4
    0x45, 0x00, 0x00, 0x54, 0xc6, 0x4a, 0x40, 0x00, 0x40, 0x01, 0xa2, 0x3e, 0xc0, 0xa8, 0x01, 0x68,
    0x08, 0x08, 0x08, 0x08,
    // ICMP header + echo payload (64 bytes)
    0x08, 0x00, 0x0e, 0xe4, 0x1e, 0x08, 0x00, 0x01, 0x07, 0xe5, 0x8e, 0x6a, 0x00, 0x00, 0x00, 0x00,
    0x6f, 0xf0, 0x06, 0x00, 0x00, 0x00, 0x00, 0x00, 0x10, 0x11, 0x12, 0x13, 0x14, 0x15, 0x16, 0x17,
    0x18, 0x19, 0x1a, 0x1b, 0x1c, 0x1d, 0x1e, 0x1f, 0x20, 0x21, 0x22, 0x23, 0x24, 0x25, 0x26, 0x27,
    0x28, 0x29, 0x2a, 0x2b, 0x2c, 0x2d, 0x2e, 0x2f, 0x30, 0x31, 0x32, 0x33, 0x34, 0x35, 0x36, 0x37,
];

const ETHERNET_TEXT: &str =
    "Destination: (ff:ff:ff:ff:ff:ff)\nSource: (00:11:22:33:44:55)\nType: IPv4 (0x0800)\n";

const IPV4_TEXT: &str = "Version: 4\n\
Header Length: 20 bytes (5)\n\
Differentiated Services Field: 0x00 (DSCP: CS0, ECN: Not-ECT)\n\
Total Length: 84\n\
Identification: 0xc64a (50762)\n\
Flags: 0x02, Don't Fragment\n\
Fragment Offset: 0\n\
Time to Live: 64\n\
Protocol: ICMP (1)\n\
Header Checksum: 0xa23e [correct]\n\
[Header Checksum status: Good]\n\
Source Address: 192.168.1.104\n\
Destination Address: 8.8.8.8\n";

const ICMP_TEXT: &str = "Internet Control Message Protocol\n\
Type: Echo (ping) request (8)\n\
Code: 0\n\
Checksum: 0x0ee4 [correct]\n\
[Checksum status: Good]\n\
Identifier: 7688 (0x1e08)\n\
Sequence Number: 1 (0x0001)\n\
Data (56 bytes)\n\
\n\
0000  07 e5 8e 6a 00 00 00 00 6f f0 06 00 00 00 00 00 \n\
0010  10 11 12 13 14 15 16 17 18 19 1a 1b 1c 1d 1e 1f \n\
0020  20 21 22 23 24 25 26 27 28 29 2a 2b 2c 2d 2e 2f \n\
0030  30 31 32 33 34 35 36 37 \n";

#[test]
fn ethernet_header_text() {
    let (h, _) = EthernetHeader::parse(PACKET_TEST).unwrap();
    let mut t = String::new();
    h.write_text(&mut t);
    assert_eq!(t, ETHERNET_TEXT);
}

#[test]
fn ipv4_header_text() {
    let h = Ipv4Header::parse(&PACKET_TEST[14..]).unwrap();
    assert_eq!(h.to_text(), IPV4_TEXT);
}

#[test]
fn icmp_message_text() {
    let m = IcmpMessage::parse(&PACKET_TEST[34..], 64).unwrap();
    assert_eq!(m.to_text(), ICMP_TEXT);
}

#[test]
fn frame_text_is_the_layers_in_turn() {
    let f = Frame::parse(PACKET_TEST).unwrap();
    assert_eq!(f.to_text(), format!("{ETHERNET_TEXT}\n{IPV4_TEXT}\n{ICMP_TEXT}"));
}

#[test]
fn packet_dump_text() {
    let expected = "Frame: 98 bytes (784 bits):\n\
0000  ff ff ff ff ff ff 00 11  22 33 44 55 08 00 45 00 \n\
0010  00 54 c6 4a 40 00 40 01  a2 3e c0 a8 01 68 08 08 \n\
0020  08 08 08 00 0e e4 1e 08  00 01 07 e5 8e 6a 00 00 \n\
0030  00 00 6f f0 06 00 00 00  00 00 10 11 12 13 14 15 \n\
0040  16 17 18 19 1a 1b 1c 1d  1e 1f 20 21 22 23 24 25 \n\
0050  26 27 28 29 2a 2b 2c 2d  2e 2f 30 31 32 33 34 35 \n\
0060  36 37 \n\n";
    assert_eq!(packet_dump(PACKET_TEST), expected);
    assert_eq!(packet_dump(&[]), "Frame: 0 bytes (0 bits):\n\n");
}

#[test]
fn anomalies_are_listed_under_their_fields() {
    let mut pkt = PACKET_TEST[14..].to_vec();
    pkt[0] = 0x46;
    pkt[3] = 0x16;
    pkt[6] = 0x80;
    let h = Ipv4Header::parse(&pkt[..20]).unwrap();
    let t = h.to_text();
    assert!(t.contains(
        "Header Length: 24 bytes (6)\n   [Expert Info: IPv4 Header Length exceeds capture length (20 bytes)]\nDifferentiated"
    ));
    assert!(t.contains(
        "Total Length: 22\n   [Expert Info: IPv4 header length (24) exceeds Total Length (22)]\n   [Expert Info: IPv4 Total Length exceeds capture length (20 bytes)]\nIdentification"
    ));
    assert!(t.contains("Differentiated Services Field: 0x00 (DSCP: CS0, ECN: Not-ECT)\n"));
    assert!(t.contains(
        "Flags: 0x04, Reserved\n   [Expert Info: Reserved bit is set (must be zero)]\nFragment Offset: 0\n"
    ));
    assert!(t.contains("Header Checksum: 0xa23e [unverified]\n[Header Checksum status: Unverified]\n"));
}

#[test]
fn anomaly_messages() {
    let mut t = String::new();
    Ipv4Anomaly::InvalidIhl(4).write_text(&mut t);
    assert_eq!(t, "Invalid IHL: 4, minimum 5");
    let mut t = String::new();
    IcmpAnomaly::BodyTruncated { expected: 8, got: 7 }.write_text(&mut t);
    assert_eq!(t, "Malformed Packet (Exception occurred): 8 bytes needed, 7 captured");
}

#[test]
fn truncated_echo_text() {
    let m = IcmpMessage::parse(&PACKET_TEST[34..41], 64).unwrap();
    assert_eq!(
        m.to_text(),
        "Internet Control Message Protocol\nType: Echo (ping) request (8)\nCode: 0\nChecksum: 0x0ee4 [unverified]\n[Checksum status: Unverified]\n[Expert Info: Malformed Packet (Exception occurred): 8 bytes needed, 7 captured]\n"
    );
}

#[test]
fn flag_names() {
    let all = IpFlags { reserved: true, dont_fragment: true, more_fragments: true };
    let mut t = String::new();
    all.write_text(&mut t);
    assert_eq!(t, "Reserved, Don't Fragment, More Fragments");
    let none = IpFlags::parse(0);
    let mut t = String::new();
    none.write_text(&mut t);
    assert_eq!(t, "none");
    let mf = IpFlags::parse(1);
    let mut t = String::new();
    mf.write_text(&mut t);
    assert_eq!(t, "More Fragments");
}

#[test]
fn error_messages() {
    let e = AppError::Ethernet(EthernetError::BufferTooShortForHeader { expected: 14, got: 13 });
    assert_eq!(
        e.to_text(),
        "Ethernet Error: Buffer too short for an Ethernet header: need at least 14 bytes, got 13"
    );
    let e = AppError::Ipv4(Ipv4Error::InvalidVersion { version: 6, raw: 0x60 });
    assert_eq!(e.to_text(), "IPv4 Error: Invalid Version: 6, expected 4 (raw byte 0 = 0x60)");
    let e = AppError::Ipv4(Ipv4Error::BufferTooShortForHeader { expected: 20, got: 19 });
    assert_eq!(
        e.to_text(),
        "IPv4 Error: Buffer too short for a minimal IPv4 header: need at least 20 bytes, got 19"
    );
    let mut t = String::new();
    IcmpError::BufferTooShortForHeader { expected: 4, got: 3 }.write_text(&mut t);
    assert_eq!(t, "Buffer too short for an ICMP header: need at least 4 bytes, got 3");
}

#[test]
fn status_labels() {
    assert_eq!(ChecksumStatus::Good.label(), "correct");
    assert_eq!(ChecksumStatus::Bad.label(), "incorrect");
    assert_eq!(ChecksumStatus::NotVerifiable.label(), "unverified");
}

#[test]
fn unsupported_layers_text() {
    let mut pkt = PACKET_TEST.to_vec();
    pkt[23] = 17;
    let f = Frame::parse(&pkt).unwrap();
    assert!(f.to_text().ends_with("\nUDP: not dissected yet\n"));
    pkt[12] = 0x86;
    pkt[13] = 0xdd;
    let f = Frame::parse(&pkt).unwrap();
    assert!(f.to_text().ends_with("Type: IPv6 (0x86dd)\n\nIPv6: not dissected yet\n"));
    let mut pkt = PACKET_TEST.to_vec();
    pkt[14] = 0x44;
    let f = Frame::parse(&pkt).unwrap();
    assert!(f.to_text().ends_with("\npayload not dissected: unlocatable\n"));
    let f = Frame::parse(&PACKET_TEST[..34]).unwrap();
    assert!(f.to_text().ends_with("\npayload not captured\n"));
}

#[test]
fn padding_changes_nothing_of_the_dissection() {
    let mut padded = PACKET_TEST.to_vec();
    padded.extend_from_slice(&[0xAA; 6]);
    let plain = Frame::parse(PACKET_TEST).unwrap();
    let padded_frame = Frame::parse(&padded).unwrap();
    assert_eq!(padded_frame.to_text(), plain.to_text());
    let h1 = Ipv4Header::parse(&PACKET_TEST[14..]).unwrap();
    let h2 = Ipv4Header::parse(&padded[14..]).unwrap();
    assert_eq!(h1.to_text(), h2.to_text());
    let m1 = IcmpMessage::parse(&PACKET_TEST[34..], 64).unwrap();
    let m2 = IcmpMessage::parse(&padded[34..], 64).unwrap();
    assert_eq!(m1.to_text(), m2.to_text());
}

#[test]
fn summaries() {
    let (h, _) = EthernetHeader::parse(PACKET_TEST).unwrap();
    assert_eq!(h.summary(), "Ethernet II, Src: (00:11:22:33:44:55), Dst: (ff:ff:ff:ff:ff:ff)");
    assert_eq!(h.to_text(), ETHERNET_TEXT);
    let ip = Ipv4Header::parse(&PACKET_TEST[14..]).unwrap();
    assert_eq!(ip.summary(), "Internet Protocol Version 4, Src: 192.168.1.104, Dst: 8.8.8.8");
}

#[test]
fn wide_offsets_keep_growing() {
    let data = vec![0u8; 0x10010];
    let m_bytes: Vec<u8> = [vec![47u8, 0, 0, 0], data].concat();
    let m = IcmpMessage::parse(&m_bytes, m_bytes.len()).unwrap();
    let t = m.to_text();
    assert!(t.contains("\nfff0  00 "));
    assert!(t.contains("\n10000  00 "));
}

#[test]
fn ds_field_names_the_codepoint() {
    let mut pkt = PACKET_TEST[14..].to_vec();
    pkt[1] = 0xb9; // DSCP 46 (EF), ECN 1
    let h = Ipv4Header::parse(&pkt).unwrap();
    assert!(h.to_text().contains("Differentiated Services Field: 0xb9 (DSCP: EF, ECN: ECT(1))\n"));
}
