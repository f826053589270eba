use std::collections::HashSet;

use udp_capture::decimal::append_decimal;
use udp_capture::naming::{capture_path, Sender};

fn decimal_string(n: u128) -> String {
    let mut text = String::new();
    append_decimal(&mut text, n);
    text
}

fn sender(ip: &str, port: u16) -> Sender {
    Sender { ip: ip.to_string(), port }
}

#[test]
fn decimal_of_small_numbers() {
    assert_eq!(decimal_string(0), "0");
    assert_eq!(decimal_string(7), "7");
    assert_eq!(decimal_string(9), "9");
    assert_eq!(decimal_string(10), "10");
    assert_eq!(decimal_string(42), "42");
    assert_eq!(decimal_string(100), "100");
    assert_eq!(decimal_string(65535), "65535");
}

#[test]
fn decimal_of_the_largest_number() {
    assert_eq!(decimal_string(u128::MAX), "340282366920938463463374607431768211455");
}

#[test]
fn decimal_agrees_with_the_standard_library() {
    let mut n: u128 = 1;
    for _ in 0..200 {
        assert_eq!(decimal_string(n), n.to_string());
        assert_eq!(decimal_string(n - 1), (n - 1).to_string());
        n = n.wrapping_mul(6364136223846793005).wrapping_add(1442695040888963407);
    }
}

#[test]
fn decimal_at_the_powers_of_ten() {
    let mut power: u128 = 1;
    for _ in 0..38 {
        assert_eq!(decimal_string(power - 1), (power - 1).to_string());
        assert_eq!(decimal_string(power), power.to_string());
        assert_eq!(decimal_string(power + 1), (power + 1).to_string());
        power *= 10;
    }
    assert_eq!(decimal_string(power), "100000000000000000000000000000000000000");
}

#[test]
fn append_decimal_keeps_what_was_there() {
    let mut text = String::from("port ");
    append_decimal(&mut text, 12060);
    assert_eq!(text, "port 12060");
    append_decimal(&mut text, 0);
    assert_eq!(text, "port 120600");
}

#[test]
fn file_name_has_the_documented_shape() {
    let name = sender("127.0.0.1", 54321).file_name(1_700_000_000_123_456_789);
    assert_eq!(name, "packet_127.0.0.1_54321_1700000000123456789.dump");
}

#[test]
fn file_name_of_an_ipv6_sender() {
    let name = sender("fe80::1", 9).file_name(0);
    assert_eq!(name, "packet_fe80::1_9_0.dump");
}

#[test]
fn file_name_at_the_limits() {
    let name = sender("255.255.255.255", u16::MAX).file_name(u128::MAX);
    assert_eq!(
        name,
        "packet_255.255.255.255_65535_340282366920938463463374607431768211455.dump"
    );
    assert_eq!(sender("", 0).file_name(0), "packet__0_0.dump");
}

#[test]
fn endpoint_joins_address_and_port() {
    assert_eq!(sender("10.0.0.7", 12060).endpoint(), "10.0.0.7:12060");
    assert_eq!(sender("::1", 0).endpoint(), "::1:0");
}

#[test]
fn capture_path_joins_with_a_slash() {
    assert_eq!(capture_path("out", "a.dump"), "out/a.dump");
    assert_eq!(capture_path("C:/ftpup/N1MM/newfiles", "x"), "C:/ftpup/N1MM/newfiles/x");
    assert_eq!(capture_path("", ""), "/");
}

#[test]
fn names_differ_when_the_instant_differs() {
    let from = sender("127.0.0.1", 40000);
    let mut names = HashSet::new();
    for nanos in 1_700_000_000_000_000_000u128..1_700_000_000_000_001_000u128 {
        assert!(names.insert(from.file_name(nanos)));
    }
    assert_eq!(names.len(), 1000);
}

#[test]
fn names_differ_when_digits_move_between_port_and_instant() {
    // The same digits, split differently between port and instant.
    let a = sender("10.0.0.1", 12).file_name(345);
    let b = sender("10.0.0.1", 123).file_name(45);
    let c = sender("10.0.0.1", 1).file_name(2345);
    assert_ne!(a, b);
    assert_ne!(a, c);
    assert_ne!(b, c);
}

#[test]
fn names_differ_when_the_address_holds_the_separator() {
    let a = sender("a_1", 2).file_name(3);
    let b = sender("a", 1).file_name(23);
    assert_eq!(a, "packet_a_1_2_3.dump");
    assert_eq!(b, "packet_a_1_23.dump");
    assert_ne!(a, b);
}
