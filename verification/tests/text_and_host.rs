use ignite::host::parse_ipv4;
use ignite::text::{find_char, parse_u64, str_starts_with, trim, u64_to_string};

#[test]
fn first_occurrence_index() {
    assert_eq!(find_char("a,b,c", ','), 1);
    assert_eq!(find_char(",abc", ','), 0);
    assert_eq!(find_char("abc", ','), 3);
    assert_eq!(find_char("", ','), 0);
}

#[test]
fn prefix_test() {
    assert!(str_starts_with("steam://connect/1.2.3.4", "steam://connect/"));
    assert!(!str_starts_with("steam:/connect/", "steam://connect/"));
    assert!(!str_starts_with("st", "steam://connect/"));
    assert!(str_starts_with("anything", ""));
}

#[test]
fn u64_rendering() {
    assert_eq!(u64_to_string(0), "0");
    assert_eq!(u64_to_string(7), "7");
    assert_eq!(u64_to_string(27015), "27015");
    assert_eq!(u64_to_string(u64::MAX), "18446744073709551615");
}

#[test]
fn u64_parsing() {
    assert_eq!(parse_u64("0"), Some(0));
    assert_eq!(parse_u64("27015"), Some(27015));
    assert_eq!(parse_u64("+9"), Some(9));
    assert_eq!(parse_u64("18446744073709551615"), Some(u64::MAX));
    assert_eq!(parse_u64("18446744073709551616"), None);
    assert_eq!(parse_u64(""), None);
    assert_eq!(parse_u64("+"), None);
    assert_eq!(parse_u64("12a"), None);
    assert_eq!(parse_u64("-1"), None);
}

#[test]
fn trimming() {
    assert_eq!(trim("  spaced  "), "spaced");
    assert_eq!(trim("\t\nid\r"), "id");
    assert_eq!(trim("   "), "");
    assert_eq!(trim(""), "");
    assert_eq!(trim("inner space kept"), "inner space kept");
}

#[test]
fn ipv4_accepts_literals() {
    assert_eq!(parse_ipv4("127.0.0.1"), Some((127, 0, 0, 1)));
    assert_eq!(parse_ipv4("10.0.0.5"), Some((10, 0, 0, 5)));
    assert_eq!(parse_ipv4("255.255.255.255"), Some((255, 255, 255, 255)));
    assert_eq!(parse_ipv4("0.0.0.0"), Some((0, 0, 0, 0)));
}

#[test]
fn ipv4_rejects_malformed_hosts() {
    assert_eq!(parse_ipv4("not-an-ip"), None);
    assert_eq!(parse_ipv4(""), None);
    assert_eq!(parse_ipv4("1.2.3"), None);
    assert_eq!(parse_ipv4("1.2.3.4.5"), None);
    assert_eq!(parse_ipv4("1.2.3.256"), None);
    assert_eq!(parse_ipv4("01.2.3.4"), None);
    assert_eq!(parse_ipv4("1..2.3"), None);
    assert_eq!(parse_ipv4("1.2.3.4 "), None);
    assert_eq!(parse_ipv4("+1.2.3.4"), None);
}
