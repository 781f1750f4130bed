use onetime_downloader::text::{
    bits_of, chars_of, format_i64, format_sum, format_u64, parse_i64, parse_unsigned,
    push_decimal, push_hex_fixed,
};

#[test]
fn parse_i64_reads_plain_numbers() {
    assert_eq!(parse_i64("0"), Some(0));
    assert_eq!(parse_i64("1000"), Some(1000));
    assert_eq!(parse_i64("-1"), Some(-1));
    assert_eq!(parse_i64("+5"), Some(5));
    assert_eq!(parse_i64("-0"), Some(0));
    assert_eq!(parse_i64("0007"), Some(7));
}

#[test]
fn parse_i64_reads_the_ends_of_the_range() {
    assert_eq!(parse_i64("9223372036854775807"), Some(i64::MAX));
    assert_eq!(parse_i64("-9223372036854775808"), Some(i64::MIN));
    assert_eq!(parse_i64("9223372036854775808"), None);
    assert_eq!(parse_i64("-9223372036854775809"), None);
    assert_eq!(parse_i64("00000000000000000000000000000000000012"), Some(12));
    assert_eq!(parse_i64("99999999999999999999999999999999999999"), None);
}

#[test]
fn parse_i64_refuses_what_is_no_number() {
    assert_eq!(parse_i64(""), None);
    assert_eq!(parse_i64("-"), None);
    assert_eq!(parse_i64("+"), None);
    assert_eq!(parse_i64("12a"), None);
    assert_eq!(parse_i64(" 1"), None);
    assert_eq!(parse_i64("1 "), None);
    assert_eq!(parse_i64("--1"), None);
    assert_eq!(parse_i64("1-"), None);
    assert_eq!(parse_i64("\u{661}\u{662}"), None);
    assert_eq!(parse_i64("1.5"), None);
}

#[test]
fn parse_i64_agrees_with_the_standard_parser() {
    let samples = [
        "0", "-0", "+0", "7", "-7", "+7", "", "-", "+", "a", "1a", "a1", "0x10", "1e3",
        "9223372036854775807", "9223372036854775808", "-9223372036854775808",
        "-9223372036854775809", "18446744073709551616", "000", "-000", "+-1", "1+1", "\u{ff11}",
    ];
    for sample in samples.iter() {
        assert_eq!(parse_i64(sample), sample.parse::<i64>().ok(), "sample {:?}", sample);
    }
}

#[test]
fn parse_unsigned_agrees_with_the_standard_parser() {
    let samples = [
        "0", "-0", "+0", "80", "+80", "-80", "", "+", "-", "65535", "65536", "100000", "1x",
        "18446744073709551615", "18446744073709551616", "0065535",
    ];
    for sample in samples.iter() {
        assert_eq!(
            parse_unsigned(sample, u16::MAX as u64),
            sample.parse::<u16>().ok().map(|v| v as u64),
            "sample {:?} as u16",
            sample
        );
        assert_eq!(parse_unsigned(sample, u64::MAX), sample.parse::<u64>().ok(), "sample {:?}", sample);
    }
}

#[test]
fn format_i64_writes_decimal() {
    assert_eq!(format_i64(0), "0");
    assert_eq!(format_i64(1000), "1000");
    assert_eq!(format_i64(-1), "-1");
    assert_eq!(format_i64(i64::MAX), "9223372036854775807");
    assert_eq!(format_i64(i64::MIN), "-9223372036854775808");
}

#[test]
fn what_is_written_reads_back() {
    let samples = [0i64, 1, -1, 9, 10, -10, 1000, 2000, 1_600_000_000_000, i64::MAX, i64::MIN];
    for n in samples.iter() {
        assert_eq!(parse_i64(format_i64(*n).as_str()), Some(*n));
        assert_eq!(format_i64(*n), n.to_string());
    }
}

#[test]
fn format_u64_and_sums() {
    assert_eq!(format_u64(0), "0");
    assert_eq!(format_u64(u64::MAX), "18446744073709551615");
    assert_eq!(format_sum(80, 1), "81");
    assert_eq!(format_sum(usize::MAX, usize::MAX), (usize::MAX as u128 * 2).to_string());
}

#[test]
fn push_decimal_appends() {
    let mut text = String::from("n=");
    push_decimal(&mut text, 340282366920938463463374607431768211455u128);
    assert_eq!(text, "n=340282366920938463463374607431768211455");
}

#[test]
fn push_hex_fixed_pads_and_cuts() {
    let mut text = String::new();
    push_hex_fixed(&mut text, 1000, 16);
    assert_eq!(text, "00000000000003e8");
    let mut text = String::from(">");
    push_hex_fixed(&mut text, 0xabcdef, 4);
    assert_eq!(text, ">cdef");
    let mut text = String::new();
    push_hex_fixed(&mut text, u64::MAX, 16);
    assert_eq!(text, "ffffffffffffffff");
    let mut text = String::from("same");
    push_hex_fixed(&mut text, 5, 0);
    assert_eq!(text, "same");
}

#[test]
fn bits_of_is_twos_complement() {
    assert_eq!(bits_of(0), 0);
    assert_eq!(bits_of(1000), 1000);
    assert_eq!(bits_of(-1), u64::MAX);
    assert_eq!(bits_of(i64::MIN), 1u64 << 63);
    assert_eq!(bits_of(i64::MAX), (1u64 << 63) - 1);
}

#[test]
fn chars_of_lists_characters() {
    assert_eq!(chars_of("a\u{e9}z"), vec!['a', '\u{e9}', 'z']);
    assert_eq!(chars_of(""), Vec::<char>::new());
}
