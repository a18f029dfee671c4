use rpc_perf::text::decimal_string;
use rpc_perf::text::parse_usize;
use rpc_perf::text::str_equal;
use rpc_perf::text::zero_padded_string;

#[test]
fn decimal_string_writes_numbers() {
    assert_eq!(decimal_string(0), "0");
    assert_eq!(decimal_string(7), "7");
    assert_eq!(decimal_string(10), "10");
    assert_eq!(decimal_string(12345), "12345");
    assert_eq!(decimal_string(u64::MAX), "18446744073709551615");
}

#[test]
fn zero_padded_string_pads_to_width() {
    assert_eq!(zero_padded_string(5, 3), "005");
    assert_eq!(zero_padded_string(42, 8), "00000042");
    assert_eq!(zero_padded_string(12345, 3), "12345");
    assert_eq!(zero_padded_string(0, 0), "0");
    assert_eq!(zero_padded_string(9, 1), "9");
    for (n, w) in [(0u64, 4usize), (123, 6), (99999, 5), (100000, 5)] {
        assert_eq!(zero_padded_string(n, w), format!("{:0width$}", n, width = w));
    }
}

#[test]
fn parse_usize_reads_unsigned_numbers() {
    assert_eq!(parse_usize("0"), Some(0));
    assert_eq!(parse_usize("12"), Some(12));
    assert_eq!(parse_usize("+12"), Some(12));
    assert_eq!(parse_usize("007"), Some(7));
    assert_eq!(parse_usize(""), None);
    assert_eq!(parse_usize("+"), None);
    assert_eq!(parse_usize("-1"), None);
    assert_eq!(parse_usize("++1"), None);
    assert_eq!(parse_usize("12a"), None);
    assert_eq!(parse_usize(" 1"), None);
    assert_eq!(parse_usize(&usize::MAX.to_string()), Some(usize::MAX));
    assert_eq!(parse_usize("999999999999999999999999"), None);
}

#[test]
fn parse_usize_agrees_with_std() {
    let inputs = [
        "", "+", "-", "0", "+0", "-0", "00", "42", "+42", "4 2", "1_000", "18446744073709551615",
        "18446744073709551616", "٣", "x", "9",
    ];
    for s in inputs.iter() {
        assert_eq!(parse_usize(s), s.parse::<usize>().ok(), "input {:?}", s);
    }
}

#[test]
fn parse_reads_back_formatted_numbers() {
    for n in [0usize, 1, 9, 10, 4096, 10_000_000] {
        assert_eq!(parse_usize(&decimal_string(n as u64)), Some(n));
        assert_eq!(parse_usize(&zero_padded_string(n as u64, 12)), Some(n));
    }
}

#[test]
fn str_equal_compares_texts() {
    assert!(str_equal("redis", "redis"));
    assert!(!str_equal("redis", "redis-inline"));
    assert!(!str_equal("", "a"));
    assert!(str_equal("", ""));
}
