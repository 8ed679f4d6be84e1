use packet_parser::checksum::checksum;

#[test]
fn checksum_of_empty_buffer_is_all_ones() {
    assert_eq!(checksum(&[]), 0xffff);
}

#[test]
fn odd_final_byte_is_the_high_byte() {
    assert_eq!(checksum(&[0x12]), !0x1200u16);
    assert_eq!(checksum(&[0x00, 0x01, 0xf2]), !0xf201u16);
}

#[test]
fn end_around_carry_is_folded() {
    // 0xffff + 0x0001 = 0x10000, folded to 0x0001.
    assert_eq!(checksum(&[0xff, 0xff, 0x00, 0x01]), !0x0001u16);
    // A sum equal to 0xffff verifies to zero.
    assert_eq!(checksum(&[0xff, 0xfe, 0x00, 0x01]), 0);
}

#[test]
fn rfc1071_example() {
    // RFC 1071, section 3: the one's complement sum of these words is 0xddf2.
    let data = [0x00, 0x01, 0xf2, 0x03, 0xf4, 0xf5, 0xf6, 0xf7];
    assert_eq!(checksum(&data), !0xddf2u16);
}

#[test]
fn filling_the_checksum_field_makes_the_sum_verify() {
    let mut header = vec![
        0x45, 0x00, 0x00, 0x54, 0xc6, 0x4a, 0x40, 0x00, 0x40, 0x01, 0x00, 0x00, 0xc0, 0xa8,
        0x01, 0x68, 0x08, 0x08, 0x08, 0x08,
    ];
    let c = checksum(&header);
    assert_eq!(c, 0xa23e);
    header[10] = (c >> 8) as u8;
    header[11] = (c & 0xff) as u8;
    assert_eq!(checksum(&header), 0);
}

#[test]
fn all_zero_buffer_filled_verifies() {
    let mut buf = vec![0u8; 6];
    let c = checksum(&buf);
    assert_eq!(c, 0xffff);
    buf[2] = (c >> 8) as u8;
    buf[3] = (c & 0xff) as u8;
    assert_eq!(checksum(&buf), 0);
}

#[test]
fn word_order_and_zero_padding_do_not_matter() {
    let a = [0x12u8, 0x34, 0xff, 0x01];
    let b = [0xab, 0xcd];
    assert_eq!(checksum(&[a.as_slice(), &b].concat()), checksum(&[b.as_slice(), &a].concat()));
    assert_eq!(checksum(&[a.as_slice(), &[0, 0]].concat()), checksum(&a));
    let c = [0x12u8, 0x34, 0x56];
    assert_eq!(checksum(&[c.as_slice(), &[0]].concat()), checksum(&c));
    assert_eq!(checksum(&[c.as_slice(), &[0, 0]].concat()), checksum(&c));
}
