use esparrier_config::text::append_decimal;
use esparrier_config::text::bytes_eq;
use esparrier_config::text::contains;
use esparrier_config::text::ends_with;
use esparrier_config::text::find_byte;
use esparrier_config::text::parse_endpoint;
use esparrier_config::text::parse_ipv4;
use esparrier_config::text::parse_number;
use esparrier_config::text::parse_octet;
use esparrier_config::text::parse_unsigned;
use esparrier_config::text::starts_with;
use esparrier_config::text::str_eq;

fn decimal(n: usize) -> String {
    let mut s = String::new();
    append_decimal(&mut s, n);
    s
}

#[test]
fn decimal_numerals() {
    assert_eq!(decimal(0), "0");
    assert_eq!(decimal(7), "7");
    assert_eq!(decimal(10), "10");
    assert_eq!(decimal(1048576), "1048576");
    assert_eq!(decimal(1234567890), "1234567890");
    assert_eq!(decimal(usize::MAX), usize::MAX.to_string());
}

#[test]
fn decimal_is_appended() {
    let mut s = "n=".to_string();
    append_decimal(&mut s, 42);
    assert_eq!(s, "n=42");
}

#[test]
fn numbers_are_runs_of_digits() {
    assert_eq!(parse_number(b"0", 255), Some(0));
    assert_eq!(parse_number(b"255", 255), Some(255));
    assert_eq!(parse_number(b"0255", 255), Some(255));
    assert_eq!(parse_number(b"256", 255), None);
    assert_eq!(parse_number(b"", 255), None);
    assert_eq!(parse_number(b"+1", 255), None);
    assert_eq!(parse_number(b"-1", 255), None);
    assert_eq!(parse_number(b"1 ", 255), None);
    assert_eq!(parse_number(b"1_0", 255), None);
    assert_eq!(parse_number(b"12a", 255), None);
    assert_eq!(parse_number(b"7", 5), None);
    assert_eq!(parse_number(b"5", 5), Some(5));
}

#[test]
fn numbers_up_to_the_largest() {
    assert_eq!(parse_number(b"18446744073709551615", u64::MAX), Some(u64::MAX));
    assert_eq!(parse_number(b"18446744073709551616", u64::MAX), None);
    assert_eq!(parse_number(b"99999999999999999999999", u64::MAX), None);
    assert_eq!(parse_number(b"4294967295", 0xFFFF_FFFF), Some(4294967295));
    assert_eq!(parse_number(b"4294967296", 0xFFFF_FFFF), None);
}

#[test]
fn unsigned_takes_a_plus() {
    assert_eq!(parse_unsigned(b"+3", 255), Some(3));
    assert_eq!(parse_unsigned(b"3", 255), Some(3));
    assert_eq!(parse_unsigned(b"03", 255), Some(3));
    assert_eq!(parse_unsigned(b"+", 255), None);
    assert_eq!(parse_unsigned(b"++3", 255), None);
    assert_eq!(parse_unsigned(b"-3", 255), None);
    assert_eq!(parse_unsigned(b"", 255), None);
    assert_eq!(parse_unsigned(b"+256", 255), None);
    assert_eq!(parse_unsigned(b"3+", 255), None);
}

#[test]
fn octets() {
    assert_eq!(parse_octet(b"0"), Some(0));
    assert_eq!(parse_octet(b"9"), Some(9));
    assert_eq!(parse_octet(b"10"), Some(10));
    assert_eq!(parse_octet(b"255"), Some(255));
    assert_eq!(parse_octet(b"256"), None);
    assert_eq!(parse_octet(b"00"), None);
    assert_eq!(parse_octet(b"01"), None);
    assert_eq!(parse_octet(b"001"), None);
    assert_eq!(parse_octet(b"1000"), None);
    assert_eq!(parse_octet(b""), None);
    assert_eq!(parse_octet(b"1a"), None);
    assert_eq!(parse_octet(b"+1"), None);
}

#[test]
fn ipv4_addresses() {
    assert_eq!(parse_ipv4(b"192.168.1.42"), Some([192, 168, 1, 42]));
    assert_eq!(parse_ipv4(b"0.0.0.0"), Some([0, 0, 0, 0]));
    assert_eq!(parse_ipv4(b"255.255.255.255"), Some([255, 255, 255, 255]));
    assert_eq!(parse_ipv4(b"1.2.3.4"), Some([1, 2, 3, 4]));
}

#[test]
fn what_is_no_ipv4_address() {
    for s in [
        "", ".", "...", "1", "1.2", "1.2.3", "1.2.3.", ".1.2.3", "1.2.3.4.", "1.2.3.4.5", "1..2.3",
        "256.0.0.0", "0.0.0.256", "01.2.3.4", "1.2.3.04", "1.2.3.4 ", " 1.2.3.4", "1.2.3.a",
        "1.2.3.-4", "1.2.3.+4", "1,2,3,4", "0x1.2.3.4", "1.2.3.4/24", "::1", "1.2.3.1000",
    ] {
        assert_eq!(parse_ipv4(s.as_bytes()), None, "{:?}", s);
    }
}

#[test]
fn ipv4_octets_have_no_leading_zero() {
    assert_eq!(parse_ipv4(b"00.0.0.0"), None);
    assert_eq!(parse_ipv4(b"9.9.9.09"), None);
    assert_eq!(parse_ipv4(b"10.0.0.1"), Some([10, 0, 0, 1]));
    assert_eq!(parse_ipv4(b"127.0.0.1"), Some([127, 0, 0, 1]));
}

#[test]
fn endpoints() {
    assert_eq!(parse_endpoint(b"192.168.2.59:24800"), Some(([192, 168, 2, 59], 24800)));
    assert_eq!(parse_endpoint(b"0.0.0.0:0"), Some(([0, 0, 0, 0], 0)));
    assert_eq!(parse_endpoint(b"1.2.3.4:65535"), Some(([1, 2, 3, 4], 65535)));
    assert_eq!(parse_endpoint(b"1.2.3.4:080"), Some(([1, 2, 3, 4], 80)));
    assert_eq!(parse_endpoint(b"1.2.3.4:65536"), None);
    assert_eq!(parse_endpoint(b"1.2.3.4"), None);
    assert_eq!(parse_endpoint(b"1.2.3.4:"), None);
    assert_eq!(parse_endpoint(b":80"), None);
    assert_eq!(parse_endpoint(b"1.2.3.4:80:80"), None);
    assert_eq!(parse_endpoint(b"not-an-endpoint"), None);
}

#[test]
fn ports_are_plain_digits() {
    assert_eq!(parse_endpoint(b"1.2.3.4:+80"), None);
    assert_eq!(parse_endpoint(b"1.2.3.4: 80"), None);
    assert_eq!(parse_endpoint(b"01.2.3.4:80"), None);
    assert_eq!(parse_endpoint(b"1.2.3.4:00000000000000000001"), Some(([1, 2, 3, 4], 1)));
    assert_eq!(parse_endpoint(b"1.2.3.4:99999999999999999999"), None);
}

#[test]
fn unsigned_agrees_with_the_standard_library() {
    for s in ["0", "3", "03", "+3", "-3", "", "+", "255", "256", "0256", " 3", "3 ", "1_0", "٣", "+0", "000"] {
        let ours = parse_unsigned(s.as_bytes(), 255);
        let theirs = s.parse::<u8>().ok().map(|v| v as u64);
        assert_eq!(ours, theirs, "{:?}", s);
        let ours = parse_unsigned(s.as_bytes(), 0xFFFF_FFFF);
        let theirs = s.parse::<u32>().ok().map(|v| v as u64);
        assert_eq!(ours, theirs, "{:?}", s);
    }
}

#[test]
fn find_byte_finds_the_first() {
    assert_eq!(find_byte(b"a/b/c", 0, b'/'), 1);
    assert_eq!(find_byte(b"a/b/c", 1, b'/'), 1);
    assert_eq!(find_byte(b"a/b/c", 2, b'/'), 3);
    assert_eq!(find_byte(b"a/b/c", 4, b'/'), 5);
    assert_eq!(find_byte(b"a/b/c", 5, b'/'), 5);
    assert_eq!(find_byte(b"", 0, b'/'), 0);
    assert_eq!(find_byte(b"abc", 0, b'/'), 3);
}

#[test]
fn equality_of_bytes_and_strings() {
    assert!(bytes_eq(b"", b""));
    assert!(bytes_eq(b"abc", b"abc"));
    assert!(!bytes_eq(b"abc", b"abd"));
    assert!(!bytes_eq(b"abc", b"ab"));
    assert!(!bytes_eq(b"ab", b"abc"));
    assert!(str_eq("usb1", "usb1"));
    assert!(!str_eq("usb1", "usb2"));
    assert!(!str_eq("3", "03"));
    assert!(str_eq("", ""));
}

#[test]
fn prefixes_suffixes_and_parts() {
    assert!(starts_with(b"esparrier-generic-v1", b"esparrier-generic-v"));
    assert!(starts_with(b"abc", b""));
    assert!(starts_with(b"abc", b"abc"));
    assert!(!starts_with(b"abc", b"abcd"));
    assert!(!starts_with(b"abc", b"bc"));
    assert!(ends_with(b"firmware.bin", b".bin"));
    assert!(ends_with(b"abc", b""));
    assert!(!ends_with(b"firmware.bin.sig", b".bin"));
    assert!(!ends_with(b"in", b".bin"));
    assert!(contains(b"merged-firmware.bin", b"merged"));
    assert!(contains(b"a-merged", b"merged"));
    assert!(contains(b"abc", b""));
    assert!(contains(b"", b""));
    assert!(!contains(b"merge", b"merged"));
    assert!(!contains(b"", b"m"));
    assert!(!contains(b"mergxed", b"merged"));
}
