use icann_rdap::ip::text::{format_v4, parse_v4, parse_v4_cidr};
use icann_rdap::ip::{IpAddress, IpCidr};
use icann_rdap::storage::mem::interval::Span;

#[test]
fn dotted_decimal_is_parsed() {
    assert_eq!(parse_v4("10.0.0.0"), Some(0x0a00_0000));
    assert_eq!(parse_v4("0.0.0.0"), Some(0));
    assert_eq!(parse_v4("255.255.255.255"), Some(u32::MAX));
    assert_eq!(parse_v4("192.0.2.17"), Some(0xc000_0211));
    assert_eq!(parse_v4("1.2.3.4"), Some(0x0102_0304));
}

#[test]
fn malformed_addresses_are_refused() {
    for text in [
        "", "1", "1.2.3", "1.2.3.4.5", "1.2.3.", ".1.2.3", "1..2.3", "256.0.0.1", "1.2.3.256",
        "01.2.3.4", "1.2.3.04", "1.2.3.4 ", " 1.2.3.4", "1.2.3.a", "1.2.3.4/24", "1000.1.1.1",
        "1.2.3.-4", "::1", "١.٢.٣.٤",
    ] {
        assert_eq!(parse_v4(text), None, "{}", text);
    }
}

#[test]
fn addresses_are_written_in_dotted_decimal() {
    assert_eq!(format_v4(0), "0.0.0.0");
    assert_eq!(format_v4(u32::MAX), "255.255.255.255");
    assert_eq!(format_v4(0x0a00_0100), "10.0.1.0");
    assert_eq!(format_v4(0xc000_0211), "192.0.2.17");
    assert_eq!(format_v4(0x6409_0a63), "100.9.10.99");
}

#[test]
fn writing_and_parsing_are_inverse() {
    for addr in [0u32, 1, 9, 10, 99, 100, 255, 256, 0x0a00_0000, 0x7f00_0001, u32::MAX, 0xdead_beef] {
        assert_eq!(parse_v4(&format_v4(addr)), Some(addr));
    }
}

#[test]
fn blocks_are_parsed() {
    let block = parse_v4_cidr("10.0.0.0/24").expect("block");
    assert_eq!(block.first_address(), IpAddress::V4(0x0a00_0000));
    assert_eq!(block.last_address(), IpAddress::V4(0x0a00_00ff));
    assert_eq!(block.prefix_length(), 24);
    assert_eq!(block.to_span(), Span { lo: 0x0a00_0000, hi: 0x0a00_00ff });

    let host = parse_v4_cidr("1.1.1.1/32").expect("block");
    assert_eq!(host.first_address(), IpAddress::V4(0x0101_0101));
    assert_eq!(host.last_address(), IpAddress::V4(0x0101_0101));

    let all = parse_v4_cidr("0.0.0.0/0").expect("block");
    assert_eq!(all.first_address(), IpAddress::V4(0));
    assert_eq!(all.last_address(), IpAddress::V4(u32::MAX));

    let inside = parse_v4_cidr("10.1.2.3/16").expect("block");
    assert_eq!(inside.first_address(), IpAddress::V4(0x0a01_0000));
    assert_eq!(inside.last_address(), IpAddress::V4(0x0a01_ffff));
    assert_eq!(inside, parse_v4_cidr("10.1.0.0/16").expect("block"));
}

#[test]
fn malformed_blocks_are_refused() {
    for text in ["10.0.0.0", "10.0.0.0/", "10.0.0.0/33", "10.0.0.0/024", "10.0.0/24", "10.0.0.0/2 4", "/24", "10.0.0.0/24/1", "10.0.0.0/-1", "10.0.0.0/999"] {
        assert!(parse_v4_cidr(text).is_none(), "{}", text);
    }
}

#[test]
fn blocks_of_both_families_are_made_from_numbers() {
    assert!(IpCidr::new(IpAddress::V4(0), 33).is_none());
    assert!(IpCidr::new(IpAddress::V6(0), 129).is_none());
    let v6 = IpCidr::new(IpAddress::V6(0x2001_0db8_0000_0000_0000_0000_0000_0001), 32).expect("block");
    assert_eq!(v6.first_address(), IpAddress::V6(0x2001_0db8 << 96));
    assert_eq!(v6.last_address(), IpAddress::V6((0x2001_0db8 << 96) | ((1u128 << 96) - 1)));
    assert_eq!(v6.prefix_length(), 32);
    let everything = IpCidr::new(IpAddress::V6(12345), 0).expect("block");
    assert_eq!(everything.to_span(), Span { lo: 0, hi: u128::MAX });
    let one = IpCidr::new(IpAddress::V6(12345), 128).expect("block");
    assert_eq!(one.to_span(), Span { lo: 12345, hi: 12345 });
    let v4_all = IpCidr::new(IpAddress::V4(0xffff_ffff), 0).expect("block");
    assert_eq!(v4_all.to_span(), Span { lo: 0, hi: 0xffff_ffff });
    let odd = IpCidr::new(IpAddress::V4(0x0a00_00ff), 31).expect("block");
    assert_eq!(odd.to_span(), Span { lo: 0x0a00_00fe, hi: 0x0a00_00ff });
}

#[test]
fn addresses_know_their_family() {
    assert!(IpAddress::V4(1).is_ipv4());
    assert!(!IpAddress::V6(1).is_ipv4());
    assert_eq!(IpAddress::V4(1).version(), "v4");
    assert_eq!(IpAddress::V6(1).version(), "v6");
    assert_eq!(IpAddress::V4(7).to_number(), 7);
    assert_eq!(IpAddress::V6(u128::MAX).to_number(), u128::MAX);
}
