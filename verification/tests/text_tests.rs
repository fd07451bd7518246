use kakuremino::text::{contains, ends_with, push_decimal, push_host_port};

fn decimal(n: u16) -> String {
    let mut s = String::new();
    push_decimal(&mut s, n);
    s
}

#[test]
fn decimal_renders_without_leading_zeros() {
    assert_eq!(decimal(0), "0");
    assert_eq!(decimal(7), "7");
    assert_eq!(decimal(10), "10");
    assert_eq!(decimal(80), "80");
    assert_eq!(decimal(9050), "9050");
    assert_eq!(decimal(65535), "65535");
}

#[test]
fn decimal_is_appended() {
    let mut s = String::from("port ");
    push_decimal(&mut s, 443);
    assert_eq!(s, "port 443");
}

#[test]
fn host_port_joins_with_colon() {
    let mut s = String::new();
    push_host_port(&mut s, "example.com", 80);
    assert_eq!(s, "example.com:80");
    let mut t = String::from(">");
    push_host_port(&mut t, "", 0);
    assert_eq!(t, ">:0");
}

#[test]
fn ends_with_cases() {
    assert!(ends_with("example.onion", ".onion"));
    assert!(ends_with(".onion", ".onion"));
    assert!(ends_with("anything", ""));
    assert!(!ends_with("onion", ".onion"));
    assert!(!ends_with("not-an-onion.com", ".onion"));
    assert!(!ends_with("example.onion.com", ".onion"));
    assert!(ends_with("dörfchen.i2p", ".i2p"));
    assert!(!ends_with("", ".i2p"));
}

#[test]
fn contains_cases() {
    assert!(contains("HELLO REPLY RESULT=OK VERSION=3.3\n", "RESULT=OK"));
    assert!(contains("RESULT=OK", "RESULT=OK"));
    assert!(!contains("HELLO REPLY RESULT=NOVERSION\n", "RESULT=OK"));
    assert!(!contains("RESULT=O", "RESULT=OK"));
    assert!(contains("abc", ""));
    assert!(contains("aaab", "aab"));
    assert!(!contains("", "a"));
}
