use devtools::text::{decimal, find_dot, parse_number};

#[test]
fn decimal_writes_single_digits() {
    assert_eq!(decimal(0), "0");
    assert_eq!(decimal(7), "7");
    assert_eq!(decimal(9), "9");
}

#[test]
fn decimal_writes_longer_numbers() {
    assert_eq!(decimal(10), "10");
    assert_eq!(decimal(13), "13");
    assert_eq!(decimal(8080), "8080");
    assert_eq!(decimal(65535), "65535");
    assert_eq!(decimal(1_000_000), "1000000");
}

#[test]
fn decimal_writes_the_largest_word() {
    assert_eq!(decimal(usize::MAX), usize::MAX.to_string());
}

#[test]
fn parse_number_reads_plain_digits() {
    assert_eq!(parse_number("1"), Some(1));
    assert_eq!(parse_number("13"), Some(13));
    assert_eq!(parse_number("0"), Some(0));
    assert_eq!(parse_number("4096"), Some(4096));
}

#[test]
fn parse_number_takes_one_leading_plus() {
    assert_eq!(parse_number("+3"), Some(3));
    assert_eq!(parse_number("++3"), None);
    assert_eq!(parse_number("+"), None);
    assert_eq!(parse_number("3+"), None);
}

#[test]
fn parse_number_takes_leading_zeros() {
    assert_eq!(parse_number("007"), Some(7));
    assert_eq!(parse_number("000"), Some(0));
}

#[test]
fn parse_number_refuses_what_is_no_number() {
    assert_eq!(parse_number(""), None);
    assert_eq!(parse_number("-1"), None);
    assert_eq!(parse_number("-0"), None);
    assert_eq!(parse_number("3 "), None);
    assert_eq!(parse_number(" 3"), None);
    assert_eq!(parse_number("1a"), None);
    assert_eq!(parse_number("a1"), None);
    assert_eq!(parse_number("1.5"), None);
    assert_eq!(parse_number("three"), None);
    assert_eq!(parse_number("\u{0663}"), None);
}

#[test]
fn parse_number_stops_at_the_machine_word() {
    let largest = usize::MAX.to_string();
    assert_eq!(parse_number(&largest), Some(usize::MAX));
    let beyond = format!("{}0", usize::MAX);
    assert_eq!(parse_number(&beyond), None);
    let mut next = largest.clone().into_bytes();
    let last = next.len() - 1;
    next[last] += 1;
    let next = String::from_utf8(next).unwrap();
    assert_eq!(parse_number(&next), None);
}

#[test]
fn parse_number_reads_as_the_standard_library_does() {
    let samples = [
        "", "0", "1", "12", "+12", "-12", "+", "-", "+-1", "1+", "0012", " 12", "12 ", "1_000",
        "0x10", "99999999999999999999999999", "18446744073709551615", "18446744073709551616",
        "4294967295", "4294967296", "٣", "１２",
    ];
    for s in samples {
        assert_eq!(parse_number(s), s.parse::<usize>().ok(), "on {:?}", s);
    }
}

#[test]
fn parse_number_reads_back_what_decimal_wrote() {
    for n in [0usize, 1, 9, 10, 99, 100, 12345, usize::MAX] {
        assert_eq!(parse_number(&decimal(n)), Some(n));
    }
}

#[test]
fn find_dot_finds_the_first_dot() {
    assert_eq!(find_dot("a.b.c", 0), 1);
    assert_eq!(find_dot(".a", 0), 0);
    assert_eq!(find_dot("abc.", 0), 3);
}

#[test]
fn find_dot_starts_where_it_is_told() {
    assert_eq!(find_dot("a.b.c", 1), 1);
    assert_eq!(find_dot("a.b.c", 2), 3);
    assert_eq!(find_dot("a.b.c", 4), 5);
    assert_eq!(find_dot("a.b.c", 5), 5);
}

#[test]
fn find_dot_gives_the_length_where_there_is_no_dot() {
    assert_eq!(find_dot("abc", 0), 3);
    assert_eq!(find_dot("", 0), 0);
}

#[test]
fn find_dot_counts_characters_not_bytes() {
    assert_eq!(find_dot("é.x", 0), 1);
    assert_eq!(find_dot("日本語.x.y", 0), 3);
    assert_eq!(find_dot("日本語.x.y", 4), 5);
}
