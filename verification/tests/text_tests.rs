use storyos_adapter_postgres::text::{format_u64, parse_u64};

#[test]
fn parse_u64_reads_counters() {
    assert_eq!(parse_u64("42"), Some(42));
    assert_eq!(parse_u64("+7"), Some(7));
    assert_eq!(parse_u64(""), None);
    assert_eq!(parse_u64("+"), None);
    assert_eq!(parse_u64("-1"), None);
    assert_eq!(parse_u64("18446744073709551615"), Some(u64::MAX));
    assert_eq!(parse_u64("18446744073709551616"), None);
    assert_eq!(parse_u64("12a"), None);
}

#[test]
fn format_u64_writes_shortest_decimal() {
    assert_eq!(format_u64(0), "0");
    assert_eq!(format_u64(1000002), "1000002");
    assert_eq!(format_u64(u64::MAX), "18446744073709551615");
}

#[test]
fn decimal_text_reads_back() {
    for n in [0u64, 7, 10, 99, 1000002, u64::MAX - 1, u64::MAX] {
        assert_eq!(parse_u64(&format_u64(n)), Some(n));
    }
}
