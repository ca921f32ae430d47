use rs_collector::number::{
    decimal_text, digit_of, is_number, parse_chars, parse_i32, parse_int, parse_u16, parse_u32,
    parse_u8, ParseIntError,
};
use rs_collector::text::{
    chars_of, clone_opt, ends_with, is_whitespace, join2, join3, lines, replace_char, same_chars,
    same_text, split_whitespace, split_words, string_of, text_or,
};

#[test]
fn white_space_is_what_std_says() {
    for code in 0..0x11_0000u32 {
        if let Some(c) = char::from_u32(code) {
            assert_eq!(is_whitespace(c), c.is_whitespace(), "U+{:04X}", code);
        }
    }
}

fn corpus() -> Vec<&'static str> {
    vec![
        "",
        " ",
        "a",
        "  a  b\tc\n",
        "one\ntwo\r\nthree",
        "one\ntwo\r\nthree\r",
        "\n",
        "\r\n",
        "\n\n",
        "a\r\r\nb",
        "\r",
        "a\u{a0}b\u{2003}c\u{3000}",
        "trailing \n ",
        "PID CLASS  CMD LINE WITH  BLANKS",
        "\u{e9}\u{1F600} x",
    ]
}

#[test]
fn words_are_what_std_splits() {
    for text in corpus() {
        let expected: Vec<String> = text.split_whitespace().map(|w| w.to_string()).collect();
        assert_eq!(split_whitespace(text), expected, "{:?}", text);
    }
}

#[test]
fn lines_are_what_std_splits() {
    for text in corpus() {
        let expected: Vec<String> = text.lines().map(|l| l.to_string()).collect();
        assert_eq!(lines(text), expected, "{:?}", text);
    }
}

#[test]
fn small_helpers() {
    assert_eq!(chars_of("a\u{e9}"), vec!['a', '\u{e9}']);
    assert_eq!(replace_char("a_b_c", '_', '.'), "a.b.c");
    assert_eq!(replace_char("", '_', '.'), "");
    assert!(same_text("abc", "abc"));
    assert!(!same_text("abc", "abd"));
    assert!(!same_text("abc", "ab"));
    assert!(ends_with("xINTEL", "INTEL"));
    assert!(ends_with("INTEL", "INTEL"));
    assert!(!ends_with("NTEL", "INTEL"));
    assert!(!ends_with("INTELx", "INTEL"));
    assert!(ends_with("abc", ""));
}

#[test]
fn integers_parse_as_std_parses() {
    let texts = [
        "", "+", "-", "0", "00", "7", "+7", "-7", "-0", "255", "256", "-1", "65535", "65536",
        "4294967295", "4294967296", "2147483647", "2147483648", "-2147483648", "-2147483649",
        "12a", "a12", " 1", "1 ", "1_000", "99999999999999999999999", "-99999999999999999999999",
        "٣", "+-1", "--1", "0x10",
    ];
    for t in texts {
        assert_eq!(parse_u8(t).ok(), t.parse::<u8>().ok(), "{:?}", t);
        assert_eq!(parse_u16(t).ok(), t.parse::<u16>().ok(), "{:?}", t);
        assert_eq!(parse_u32(t).ok(), t.parse::<u32>().ok(), "{:?}", t);
        assert_eq!(parse_i32(t).ok(), t.parse::<i32>().ok(), "{:?}", t);
        assert_eq!(
            parse_int(t, 16, i64::MIN, i64::MAX).ok(),
            i64::from_str_radix(t, 16).ok(),
            "{:?}",
            t
        );
        let described = parse_i32(t).err().map(|e| e.description().to_string());
        let std_described = t.parse::<i32>().err().map(|e| e.to_string());
        assert_eq!(described, std_described, "{:?}", t);
        let described = parse_u8(t).err().map(|e| e.description().to_string());
        let std_described = t.parse::<u8>().err().map(|e| e.to_string());
        assert_eq!(described, std_described, "{:?}", t);
    }
}

#[test]
fn parse_errors_have_their_kind() {
    assert_eq!(parse_u8(""), Err(ParseIntError::Empty));
    assert_eq!(parse_u8("-"), Err(ParseIntError::InvalidDigit));
    assert_eq!(parse_u8("-1"), Err(ParseIntError::InvalidDigit));
    assert_eq!(parse_u8("256"), Err(ParseIntError::PosOverflow));
    assert_eq!(parse_i32("-2147483649"), Err(ParseIntError::NegOverflow));
    assert_eq!(parse_u8("25x6"), Err(ParseIntError::InvalidDigit));
    assert_eq!(parse_u8("2560x"), Err(ParseIntError::PosOverflow));
    assert_eq!(parse_int("7fffffffffffffff", 16, i64::MIN, i64::MAX), Ok(i64::MAX));
    assert_eq!(parse_int("-8000000000000000", 16, i64::MIN, i64::MAX), Ok(i64::MIN));
    assert_eq!(
        parse_int("8000000000000000", 16, i64::MIN, i64::MAX),
        Err(ParseIntError::PosOverflow)
    );
    assert_eq!(parse_int("zz", 36, 0, 2000), Ok(35 * 36 + 35));
}

#[test]
fn decimal_text_is_what_std_prints() {
    for v in [0i64, 1, 9, 10, 11, 99, 100, 101, -1, -10, 4711, i64::MAX, i64::MIN, i64::MIN + 1] {
        assert_eq!(decimal_text(v), v.to_string());
    }
}

#[test]
fn numbers_are_told_as_std_tells_them() {
    let texts = [
        "", "0", "1", "-1", "+1", "1.", ".1", ".", "1.5", "-1.5e3", "1e5", "1E5", "1e", "1e+",
        "1e+5", "1e-5", "e5", "+.5e-3", "+", "-", "inf", "-inf", "+INF", "Infinity", "infinit",
        "nan", "NaN", "-nan", "nana", "0.000000", "3.114286", "1 ", " 1", "1_0", "0x10", "1.2.3",
        "1e5.0", "--1", "١", "1f", "infinityy", "i", "n",
    ];
    for t in texts {
        assert_eq!(is_number(t), t.parse::<f64>().is_ok(), "{:?}", t);
    }
}

#[test]
fn strings_from_and_to_characters() {
    let chars = chars_of("hello world");
    assert_eq!(string_of(&chars, 0, 5), "hello");
    assert_eq!(string_of(&chars, 6, 11), "world");
    assert_eq!(string_of(&chars, 3, 3), "");
    assert_eq!(split_words(&chars), vec!["hello", "world"]);
    assert!(same_chars(&chars, &chars_of("hello world")));
    assert!(!same_chars(&chars, &chars_of("hello_world")));
    assert_eq!(join2("a", "bc"), "abc");
    assert_eq!(join3("a", "", "c"), "ac");
    assert_eq!(clone_opt(&Some("x".to_string())), Some("x".to_string()));
    assert_eq!(clone_opt(&None), None);
    assert_eq!(text_or(&Some("x".to_string()), "y"), "x");
    assert_eq!(text_or(&None, "y"), "y");
}

#[test]
fn digits_of_a_radix() {
    assert_eq!(digit_of('0', 10), Some(0));
    assert_eq!(digit_of('9', 10), Some(9));
    assert_eq!(digit_of('a', 10), None);
    assert_eq!(digit_of('a', 16), Some(10));
    assert_eq!(digit_of('F', 16), Some(15));
    assert_eq!(digit_of('g', 16), None);
    assert_eq!(digit_of('z', 36), Some(35));
    assert_eq!(digit_of('1', 2), Some(1));
    assert_eq!(digit_of('2', 2), None);
    assert_eq!(digit_of(' ', 36), None);
    assert_eq!(parse_chars(&vec!['-', '1', '0'], 2, -8, 7), Ok(-2));
    assert_eq!(parse_chars(&vec!['1', '0', '0', '0'], 2, -8, 7), Err(ParseIntError::PosOverflow));
}
