use mrt_rs::address::parse_address;
use mrt_rs::address::parse_ipv4_address;
use mrt_rs::address::parse_ipv6_address;
use mrt_rs::address::AddressFamily;
use mrt_rs::address::IpAddress;
use mrt_rs::error::DecodeError;
use mrt_rs::wire::u16_at;
use mrt_rs::wire::u32_at;

#[test]
fn u16_is_big_endian() {
    assert_eq!(u16_at(&[0x12, 0x34], 0), 0x1234);
    assert_eq!(u16_at(&[0x00, 0x01], 0), 1);
    assert_eq!(u16_at(&[0x01, 0x00], 0), 256);
    assert_eq!(u16_at(&[0xFF, 0xFF], 0), 65535);
}

#[test]
fn u16_is_read_at_the_offset() {
    assert_eq!(u16_at(&[9, 0x12, 0x34, 7], 1), 0x1234);
    assert_eq!(u16_at(&[9, 0x12, 0x34, 7], 2), 0x3407);
}

#[test]
fn u32_is_big_endian() {
    assert_eq!(u32_at(&[0x01, 0x02, 0x03, 0x04], 0), 0x0102_0304);
    assert_eq!(u32_at(&[0, 0, 0, 1], 0), 1);
    assert_eq!(u32_at(&[1, 0, 0, 0], 0), 16_777_216);
    assert_eq!(u32_at(&[0xFF, 0xFF, 0xFF, 0xFF], 0), u32::MAX);
}

#[test]
fn u32_is_read_at_the_offset() {
    assert_eq!(u32_at(&[7, 7, 0x56, 0x7C, 0x9A, 0x10, 7], 2), 0x567C_9A10);
}

#[test]
fn ipv4_address_is_four_octets_in_order() {
    assert_eq!(parse_ipv4_address(&[192, 168, 0, 1], 0), Ok(IpAddress::V4(192, 168, 0, 1)));
    assert_eq!(parse_ipv4_address(&[0, 0, 10, 20, 30, 40, 0], 2), Ok(IpAddress::V4(10, 20, 30, 40)));
}

#[test]
fn ipv4_address_needs_four_bytes() {
    assert_eq!(parse_ipv4_address(&[192, 168, 0], 0), Err(DecodeError::Truncated));
    assert_eq!(parse_ipv4_address(&[192, 168, 0, 1], 1), Err(DecodeError::Truncated));
    assert_eq!(parse_ipv4_address(&[], 0), Err(DecodeError::Truncated));
    assert_eq!(parse_ipv4_address(&[1, 2, 3, 4], 9), Err(DecodeError::Truncated));
}

#[test]
fn ipv6_address_is_eight_big_endian_groups() {
    let bytes = [
        0x20, 0x01, 0x0d, 0xb8, 0x00, 0x00, 0x00, 0x01, 0x00, 0x02, 0x00, 0x03, 0xff, 0xfe, 0x12,
        0x34,
    ];
    assert_eq!(
        parse_ipv6_address(&bytes, 0),
        Ok(IpAddress::V6(0x2001, 0x0db8, 0, 1, 2, 3, 0xfffe, 0x1234))
    );
}

#[test]
fn ipv6_address_needs_sixteen_bytes() {
    assert_eq!(parse_ipv6_address(&[0u8; 15], 0), Err(DecodeError::Truncated));
    assert_eq!(parse_ipv6_address(&[0u8; 16], 1), Err(DecodeError::Truncated));
    assert_eq!(parse_ipv6_address(&[0u8; 16], 0), Ok(IpAddress::V6(0, 0, 0, 0, 0, 0, 0, 0)));
}

#[test]
fn address_is_read_in_the_width_of_its_family() {
    let bytes = [1u8, 2, 3, 4, 5, 6, 7, 8, 9, 10, 11, 12, 13, 14, 15, 16];
    assert_eq!(parse_address(&bytes, 0, AddressFamily::IpV4), Ok(IpAddress::V4(1, 2, 3, 4)));
    assert_eq!(
        parse_address(&bytes, 0, AddressFamily::IpV6),
        Ok(IpAddress::V6(0x0102, 0x0304, 0x0506, 0x0708, 0x090a, 0x0b0c, 0x0d0e, 0x0f10))
    );
    assert_eq!(parse_address(&bytes, 13, AddressFamily::IpV4), Err(DecodeError::Truncated));
    assert_eq!(parse_address(&bytes, 1, AddressFamily::IpV6), Err(DecodeError::Truncated));
}

#[test]
fn family_and_width_follow_the_variant() {
    assert_eq!(IpAddress::V4(1, 2, 3, 4).family(), AddressFamily::IpV4);
    assert_eq!(IpAddress::V6(1, 2, 3, 4, 5, 6, 7, 8).family(), AddressFamily::IpV6);
    assert_eq!(AddressFamily::IpV4.width(), 4);
    assert_eq!(AddressFamily::IpV6.width(), 16);
}

#[test]
fn family_codes() {
    assert_eq!(AddressFamily::from_code(1), Ok(AddressFamily::IpV4));
    assert_eq!(AddressFamily::from_code(2), Ok(AddressFamily::IpV6));
    assert_eq!(AddressFamily::from_code(0), Err(DecodeError::UnknownAddressFamily(0)));
    assert_eq!(AddressFamily::from_code(3), Err(DecodeError::UnknownAddressFamily(3)));
    assert_eq!(AddressFamily::from_code(65535), Err(DecodeError::UnknownAddressFamily(65535)));
}

#[test]
fn octets_are_in_network_order() {
    assert_eq!(IpAddress::V4(10, 20, 30, 40).to_octets(), vec![10, 20, 30, 40]);
    assert_eq!(
        IpAddress::V6(0x2001, 0x0db8, 0, 1, 2, 3, 0xfffe, 0x1234).to_octets(),
        vec![
            0x20, 0x01, 0x0d, 0xb8, 0x00, 0x00, 0x00, 0x01, 0x00, 0x02, 0x00, 0x03, 0xff, 0xfe,
            0x12, 0x34
        ]
    );
}

#[test]
fn octets_read_back_as_the_address() {
    let v4 = IpAddress::V4(172, 16, 254, 1);
    assert_eq!(parse_ipv4_address(&v4.to_octets(), 0), Ok(v4));
    let v6 = IpAddress::V6(0xfe80, 0, 0, 0, 0x0202, 0xb3ff, 0xfe1e, 0x8329);
    assert_eq!(parse_ipv6_address(&v6.to_octets(), 0), Ok(v6));
}
