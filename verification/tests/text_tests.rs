use skin_injection::index::extract_skin_info_from_path;
use skin_injection::text::{
    chars_of, contains, decimal_string, ends_with, find, find_from, first_id, matches_at,
    has_number_token, has_word_token, parse_number, parse_unsigned, trim_bounds,
};

fn text_chars(s: &str) -> Vec<char> {
    s.chars().collect()
}

#[test]
fn chars_of_keeps_every_character() {
    assert_eq!(chars_of("a-b"), vec!['a', '-', 'b']);
    assert_eq!(chars_of(""), Vec::<char>::new());
    assert_eq!(chars_of("é1"), vec!['é', '1']);
}

#[test]
fn find_gives_first_occurrence() {
    assert_eq!(find(&text_chars("abcabc"), &text_chars("bc")), Some(1));
    assert_eq!(find(&text_chars("abcabc"), &text_chars("cb")), None);
    assert_eq!(find(&text_chars("ab"), &text_chars("abc")), None);
    assert_eq!(find(&text_chars("abc"), &text_chars("")), Some(0));
    assert_eq!(find(&text_chars(""), &text_chars("")), Some(0));
}

#[test]
fn find_from_starts_at_the_given_place() {
    assert_eq!(find_from(&text_chars("abcabc"), &text_chars("bc"), 0), 1);
    assert_eq!(find_from(&text_chars("abcabc"), &text_chars("bc"), 2), 4);
    assert_eq!(find_from(&text_chars("abcabc"), &text_chars("bc"), 5), 6);
    assert_eq!(find_from(&text_chars("abc"), &text_chars("x"), 3), 3);
}

#[test]
fn contains_and_suffix() {
    assert!(contains(&text_chars("exit code: 0xc0000005"), &text_chars("0xc0000005")));
    assert!(!contains(&text_chars("exit code: 1"), &text_chars("0xc0000005")));
    assert!(ends_with(&text_chars("a.wad.client"), &text_chars(".wad.client")));
    assert!(!ends_with(&text_chars("client"), &text_chars(".wad.client")));
    assert!(matches_at(&text_chars("hello"), &text_chars("ll"), 2));
    assert!(!matches_at(&text_chars("hello"), &text_chars("ll"), 4));
    assert!(!matches_at(&text_chars("hello"), &text_chars("ll"), 9));
}

#[test]
fn decimal_string_exact_values() {
    assert_eq!(decimal_string(0), "0");
    assert_eq!(decimal_string(7), "7");
    assert_eq!(decimal_string(10), "10");
    assert_eq!(decimal_string(266003), "266003");
    assert_eq!(decimal_string(u32::MAX), "4294967295");
}

#[test]
fn parse_number_reads_digits_only() {
    let text = text_chars("x123y");
    assert_eq!(parse_number(&text, 1, 4), Some(123));
    assert_eq!(parse_number(&text, 0, 4), None);
    assert_eq!(parse_number(&text, 1, 1), None);
    assert_eq!(parse_number(&text_chars("4294967295"), 0, 10), Some(u32::MAX));
    assert_eq!(parse_number(&text_chars("4294967296"), 0, 10), None);
    assert_eq!(parse_number(&text_chars("00000000000042"), 0, 14), Some(42));
    assert_eq!(parse_number(&text_chars("99999999999999999999999"), 0, 23), None);
}

#[test]
fn parse_unsigned_trims_and_takes_a_plus() {
    assert_eq!(parse_unsigned(" 42\n"), Some(42));
    assert_eq!(parse_unsigned("+7"), Some(7));
    assert_eq!(parse_unsigned("\t266\r\n"), Some(266));
    assert_eq!(parse_unsigned("x"), None);
    assert_eq!(parse_unsigned(""), None);
    assert_eq!(parse_unsigned("   "), None);
    assert_eq!(parse_unsigned("+"), None);
    assert_eq!(parse_unsigned("-3"), None);
    assert_eq!(parse_unsigned("1 2"), None);
    assert_eq!(parse_unsigned("4294967296"), None);
}

#[test]
fn parse_unsigned_agrees_with_std() {
    for text in ["12", " 12 ", "+12", "++12", "12a", "", "0", "007", "4294967295", "4294967296"] {
        assert_eq!(parse_unsigned(text), text.trim().parse::<u32>().ok(), "{:?}", text);
    }
}

#[test]
fn trim_bounds_cuts_both_ends() {
    let text = text_chars("  ab \n");
    assert_eq!(trim_bounds(&text, 0, 6), (2, 4));
    assert_eq!(trim_bounds(&text, 0, 2), (2, 2));
    assert_eq!(trim_bounds(&text, 3, 6), (3, 4));
}

#[test]
fn first_id_takes_first_positive_token() {
    assert_eq!(first_id(&text_chars("Champion_Skin_1234.fantome")), Some(1234));
    assert_eq!(first_id(&text_chars("1234_Champion_Skin.fantome")), Some(1234));
    assert_eq!(first_id(&text_chars("abc.fantome")), None);
    assert_eq!(first_id(&text_chars("0_5.fantome")), Some(5));
    assert_eq!(first_id(&text_chars("99999999999_7.fantome")), Some(7));
    assert_eq!(first_id(&text_chars("skin12_3.fantome")), Some(3));
    assert_eq!(first_id(&text_chars("")), None);
    assert_eq!(first_id(&text_chars("v1.2.3")), Some(2));
}

#[test]
fn extract_skin_info_defaults_skin_to_zero() {
    assert_eq!(extract_skin_info_from_path("1234_Champion_Skin.fantome"), Some((1234, 0)));
    assert_eq!(extract_skin_info_from_path("Champion_Skin_77.fantome"), Some((77, 0)));
    assert_eq!(extract_skin_info_from_path("Champion.fantome"), None);
    assert_eq!(extract_skin_info_from_path("0.fantome"), None);
}

#[test]
fn first_id_agrees_with_split_and_parse() {
    for name in ["10_SkinName.fantome", "a-0-b-12", "٣_4.fantome", "x+5", "١٢", "12ab_9", "_"] {
        let expected = name
            .split(|c: char| !c.is_alphanumeric())
            .filter_map(|part| part.parse::<u32>().ok())
            .find(|id| *id > 0);
        assert_eq!(first_id(&text_chars(name)), expected, "{:?}", name);
    }
}

#[test]
fn tokens_write_numbers_and_words() {
    assert!(has_number_token(&text_chars("a_12_b"), 12));
    assert!(has_number_token(&text_chars("12"), 12));
    assert!(has_number_token(&text_chars("x.0012"), 12));
    assert!(!has_number_token(&text_chars("a_123_b"), 12));
    assert!(!has_number_token(&text_chars("a12"), 12));
    assert!(!has_number_token(&text_chars(""), 0));
    assert!(has_word_token(&text_chars("10_chroma_7"), &text_chars("chroma")));
    assert!(!has_word_token(&text_chars("10_chroma7"), &text_chars("chroma")));
    assert!(!has_word_token(&text_chars("monochroma"), &text_chars("chroma")));
    assert!(has_word_token(&text_chars("chroma"), &text_chars("chroma")));
}

#[test]
fn white_space_is_the_unicode_property() {
    let listed = |c: char| {
        let code = c as u32;
        (0x09..=0x0d).contains(&code)
            || [0x20, 0x85, 0xa0, 0x1680, 0x2028, 0x2029, 0x202f, 0x205f, 0x3000].contains(&code)
            || (0x2000..=0x200a).contains(&code)
    };
    for code in 0..=0x10ffffu32 {
        if let Some(c) = char::from_u32(code) {
            assert_eq!(c.is_whitespace(), listed(c), "{:x}", code);
            let one = vec!['a', c, 'b', c];
            let cut = if listed(c) { 3 } else { 4 };
            assert_eq!(trim_bounds(&one, 1, 4), (if listed(c) { 2 } else { 1 }, cut), "{:x}", code);
        }
    }
}

#[test]
fn ascii_letters_and_digits_are_alphanumeric() {
    for code in 0..128u32 {
        let c = char::from_u32(code).unwrap();
        assert_eq!(c.is_alphanumeric(), c.is_ascii_alphanumeric(), "{:x}", code);
        let name = vec!['7', c, '8'];
        let expected = if c.is_ascii_digit() {
            code - 48 == 7 && false
        } else {
            !c.is_ascii_alphabetic()
        };
        assert_eq!(has_number_token(&name, 7), expected, "{:x}", code);
    }
}
