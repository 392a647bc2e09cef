use promptr::text::{
    chars_of, concat2, concat3, count_char, decimal_string, matches_at, parse_number,
    prefix_before, replace_all, str_eq, suffix_after, trim_trailing,
};

#[test]
fn decimal_strings() {
    assert_eq!("0", decimal_string(0));
    assert_eq!("7", decimal_string(7));
    assert_eq!("10", decimal_string(10));
    assert_eq!("255", decimal_string(255));
    assert_eq!("18446744073709551615", decimal_string(u64::MAX as u128));
    assert_eq!(u128::MAX.to_string(), decimal_string(u128::MAX));
}

#[test]
fn numbers_are_parsed_as_std_parses_them() {
    for text in ["0", "7", "+7", "007", "255", "256", "", "+", "-", "-1", "+-1", "++1", " 1", "1 ", "1_0", "٣", "99999999999999999999999"] {
        assert_eq!(text.parse::<u8>().ok().map(u64::from), parse_number(text, 255), "u8 {:?}", text);
        assert_eq!(text.parse::<u32>().ok().map(u64::from), parse_number(text, u32::MAX as u64), "u32 {:?}", text);
        assert_eq!(text.parse::<u64>().ok(), parse_number(text, u64::MAX), "u64 {:?}", text);
    }
    assert_eq!(Some(u64::MAX), parse_number("18446744073709551615", u64::MAX));
    assert_eq!(None, parse_number("18446744073709551616", u64::MAX));
    assert_eq!(Some(0), parse_number("0", 0));
    assert_eq!(None, parse_number("1", 0));
}

#[test]
fn every_byte_round_trips() {
    for n in 0u64..=255 {
        assert_eq!(Some(n), parse_number(decimal_string(n as u128).as_str(), 255));
    }
}

#[test]
fn splitting() {
    assert_eq!("sean", prefix_before("sean.connery.is", '.'));
    assert_eq!("sean", prefix_before("sean", '.'));
    assert_eq!("", prefix_before(".sean", '.'));
    assert_eq!("", prefix_before("", '.'));
    assert_eq!(Some(String::from("connery.is")), suffix_after("sean.connery.is", '.'));
    assert_eq!(Some(String::new()), suffix_after("sean.", '.'));
    assert_eq!(None, suffix_after("sean", '.'));
    assert_eq!(None, suffix_after("", '.'));
}

#[test]
fn counting_and_trimming() {
    assert_eq!(0, count_char("", '\n'));
    assert_eq!(2, count_char("a\nb\nc", '\n'));
    assert_eq!(3, count_char("\n\n\n", '\n'));
    assert_eq!("3", trim_trailing("3\n", '\n'));
    assert_eq!("3", trim_trailing("3\n\n\n", '\n'));
    assert_eq!("\n3", trim_trailing("\n3", '\n'));
    assert_eq!("", trim_trailing("\n", '\n'));
    assert_eq!("", trim_trailing("", '\n'));
    assert_eq!("3 ", trim_trailing("3 \n", '\n'));
}

#[test]
fn characters_and_concatenation() {
    assert_eq!(vec!['a', '\u{e0b0}', 'b'], chars_of("a\u{e0b0}b"));
    assert_eq!(Vec::<char>::new(), chars_of(""));
    assert!(str_eq("", ""));
    assert!(str_eq("\u{2248}x", "\u{2248}x"));
    assert!(!str_eq("a", "b"));
    assert!(!str_eq("a", "ab"));
    assert_eq!("ab", concat2("a", "b"));
    assert_eq!("a b", concat3("a", " ", "b"));
}

#[test]
fn replacing_agrees_with_std() {
    for (text, from, to) in [
        ("/home/u/.rvm/gems/ruby-2.7.1", "/home/u/.rvm/gems/", ""),
        ("aaa", "aa", "b"),
        ("aaaa", "aa", "b"),
        ("abcabc", "bc", "xyz"),
        ("abc", "abcd", "x"),
        ("abc", "", "-"),
        ("", "", "-"),
        ("", "a", "b"),
        ("a\u{e0b0}b\u{e0b0}", "\u{e0b0}", "\u{e0b1}\u{e0b1}"),
        ("gems/gems/x", "gems/", ""),
        ("aXbXc", "X", ""),
    ] {
        assert_eq!(text.replace(from, to), replace_all(text, from, to), "{:?} {:?} {:?}", text, from, to);
    }
    assert_eq!("ba", replace_all("aaa", "aa", "b"));
    assert_eq!("-a-b-", replace_all("ab", "", "-"));
}

#[test]
fn matching_at_a_position() {
    let text = chars_of("abcabc");
    assert!(matches_at(&text, 0, &chars_of("abc")));
    assert!(matches_at(&text, 3, &chars_of("abc")));
    assert!(!matches_at(&text, 1, &chars_of("abc")));
    assert!(!matches_at(&text, 4, &chars_of("abc")));
    assert!(matches_at(&text, 6, &chars_of("")));
    assert!(!matches_at(&text, 6, &chars_of("a")));
}
