use rpki_probe::config::Config;
use rpki_probe::identifier::{
    generate, is_supported, select, symbols_of, DIGITS_PER_SYMBOL, IDENTIFIER_LENGTH,
    MAX_ALPHABET_LENGTH,
};

fn assert_drawn_from(id: &str, alphabet: &str) {
    for c in id.chars() {
        assert!(alphabet.contains(c), "{c:?} is not in {alphabet:?}");
    }
}

#[test]
fn identifier_length_is_ten() {
    assert_eq!(IDENTIFIER_LENGTH, 10);
    assert_eq!(MAX_ALPHABET_LENGTH, 255);
    assert_eq!(DIGITS_PER_SYMBOL, 16);
}

#[test]
fn generate_from_default_alphabet() {
    let alphabet = Config::default().alphabet;
    assert!(is_supported(&alphabet));
    let id = generate(&alphabet);
    assert_eq!(id.chars().count(), 10);
    assert_drawn_from(&id, &alphabet);
}

#[test]
fn generate_from_empty_alphabet_is_empty() {
    assert!(is_supported(""));
    assert_eq!(generate(""), "");
}

#[test]
fn generate_from_single_symbol() {
    assert_eq!(generate("a"), "aaaaaaaaaa");
}

#[test]
fn generate_from_repeated_symbol() {
    assert_eq!(generate("zzzz"), "zzzzzzzzzz");
}

#[test]
fn generate_from_alphabet_that_is_no_power_of_two() {
    let alphabet = "abc";
    for _ in 0..50 {
        let id = generate(alphabet);
        assert_eq!(id.chars().count(), 10);
        assert_drawn_from(&id, alphabet);
    }
}

#[test]
fn generate_from_largest_alphabet() {
    let mut alphabet = String::new();
    for i in 0..255u32 {
        alphabet.push(char::from_u32(33 + i % 90).unwrap());
    }
    assert_eq!(alphabet.chars().count(), 255);
    assert!(is_supported(&alphabet));
    let id = generate(&alphabet);
    assert_eq!(id.chars().count(), 10);
    assert_drawn_from(&id, &alphabet);
}

#[test]
fn generate_reaches_every_symbol() {
    let alphabet = "01";
    let mut seen_zero = false;
    let mut seen_one = false;
    for _ in 0..200 {
        let id = generate(alphabet);
        seen_zero = seen_zero || id.contains('0');
        seen_one = seen_one || id.contains('1');
    }
    assert!(seen_zero && seen_one);
}

#[test]
fn is_supported_accepts_ascii_up_to_the_limit() {
    assert!(is_supported("1234567890abcdef"));
    assert!(is_supported(&"a".repeat(255)));
    assert!(is_supported("/?#: \t"));
}

#[test]
fn is_supported_rejects_long_alphabets() {
    assert!(!is_supported(&"a".repeat(256)));
    assert!(!is_supported(&"ab".repeat(500)));
}

#[test]
fn is_supported_rejects_non_ascii() {
    assert!(!is_supported("é"));
    assert!(!is_supported("abc\u{20ac}"));
    assert!(!is_supported("\u{80}"));
    assert!(is_supported("\u{7f}"));
}

#[test]
fn symbols_of_keeps_order_and_repetitions() {
    assert_eq!(symbols_of("abca"), vec!['a', 'b', 'c', 'a']);
    assert_eq!(symbols_of(""), Vec::<char>::new());
    assert_eq!(symbols_of("é1"), vec!['é', '1']);
}

fn digits_for(lowest_digits: [&str; 10]) -> String {
    let mut digits = String::new();
    for lowest in lowest_digits {
        digits.push_str(&"0".repeat(16 - lowest.chars().count()));
        digits.push_str(lowest);
    }
    digits
}

#[test]
fn generate_from_two_byte_characters() {
    let alphabet = "\u{e4}\u{f6}\u{fc}";
    assert!(!is_supported(alphabet));
    for _ in 0..50 {
        let id = generate(alphabet);
        assert_eq!(id.chars().count(), 10);
        assert_drawn_from(&id, alphabet);
    }
}

#[test]
fn generate_from_three_byte_characters() {
    let alphabet = "\u{20ac}\u{4e2d}\u{6587}a";
    let id = generate(alphabet);
    assert_eq!(id.chars().count(), 10);
    assert_drawn_from(&id, alphabet);
}

#[test]
fn generate_from_a_single_non_ascii_symbol() {
    assert_eq!(generate("\u{e9}"), "\u{e9}".repeat(10));
}

#[test]
fn generate_from_more_than_255_symbols() {
    assert_eq!(generate(&"a".repeat(256)), "aaaaaaaaaa");
    let alphabet: String = (0..1000u32).map(|i| char::from_u32(0x4e00 + i).unwrap()).collect();
    assert_eq!(alphabet.chars().count(), 1000);
    for _ in 0..20 {
        let id = generate(&alphabet);
        assert_eq!(id.chars().count(), 10);
        assert_drawn_from(&id, &alphabet);
    }
}

#[test]
fn generate_reaches_every_symbol_of_a_non_ascii_alphabet() {
    let alphabet = "\u{e4}\u{f6}";
    let mut seen_first = false;
    let mut seen_second = false;
    for _ in 0..200 {
        let id = generate(alphabet);
        seen_first = seen_first || id.contains('\u{e4}');
        seen_second = seen_second || id.contains('\u{f6}');
    }
    assert!(seen_first && seen_second);
}

#[test]
fn generate_reaches_symbols_past_the_first_255() {
    let alphabet: String = (0..600u32).map(|i| char::from_u32(0x4e00 + i).unwrap()).collect();
    let late: Vec<char> = alphabet.chars().skip(255).collect();
    let mut seen = false;
    for _ in 0..200 {
        seen = seen || generate(&alphabet).chars().any(|c| late.contains(&c));
    }
    assert!(seen);
}

#[test]
fn select_from_empty_alphabet_is_empty() {
    assert_eq!(select("", &"7".repeat(160)), "");
    assert_eq!(select("", ""), "");
}

#[test]
fn select_by_the_lowest_digit() {
    let digits = digits_for(["0", "1", "2", "0", "1", "2", "0", "1", "2", "0"]);
    assert_eq!(digits.chars().count(), 160);
    assert_eq!(
        select("\u{e4}\u{f6}\u{fc}", &digits),
        "\u{e4}\u{f6}\u{fc}\u{e4}\u{f6}\u{fc}\u{e4}\u{f6}\u{fc}\u{e4}"
    );
}

#[test]
fn select_reads_digits_to_the_base_64() {
    // "10" is 64, "_" is 63, "A" is 10, "a" is 36, "-" is 62, "4i" is 300.
    let digits = digits_for(["10", "_", "A", "a", "-", "4i", "11", "100", "9", "Z"]);
    // Modulo 7: 1, 0, 3, 1, 6, 6, 2, 1, 2, 0.
    assert_eq!(select("abcdefg", &digits), "badbggcbca");
}

#[test]
fn select_wraps_around_a_large_alphabet() {
    let alphabet: String = (0..300u32).map(|i| char::from_u32(0x4e00 + i).unwrap()).collect();
    // "4i" is 300, "4h" is 299, "9O" is 600, "9N" is 599, "4H" is 273.
    let digits = digits_for(["4i", "4h", "4j", "0", "1", "_", "10", "9O", "9N", "4H"]);
    let expected: String = [0u32, 299, 1, 0, 1, 63, 64, 0, 299, 273]
        .iter()
        .map(|i| char::from_u32(0x4e00 + i).unwrap())
        .collect();
    assert_eq!(select(&alphabet, &digits), expected);
}

#[test]
fn select_counts_missing_and_foreign_digits_as_zero() {
    assert_eq!(select("xyz", ""), "xxxxxxxxxx");
    assert_eq!(select("xyz", &"!".repeat(160)), "xxxxxxxxxx");
    // One group and a half: the second group reads "00000001" and eight zeros.
    let digits = format!("{}{}", digits_for(["2", "0", "0", "0", "0", "0", "0", "0", "0", "0"]).chars().take(16).collect::<String>(), "00000001");
    // 64^8 modulo 3 is 1.
    assert_eq!(select("xyz", &digits), "zyxxxxxxxx");
}

#[test]
fn select_ignores_digits_past_the_last_group() {
    let digits = format!("{}{}", "0".repeat(160), "1111");
    assert_eq!(select("xyz", &digits), "xxxxxxxxxx");
}
