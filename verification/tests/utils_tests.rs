use glyph::utils::{
    auto_increment_name, chars_equal, chars_of, cycle_hover, cycle_offset, i16_to_chars,
    is_positive_i64, parse_u16,
};

#[test]
fn cycle_offset_moves_forward_and_wraps() {
    assert_eq!(cycle_offset(0, 1, 3), 1);
    assert_eq!(cycle_offset(2, 1, 3), 0);
    assert_eq!(cycle_offset(1, 5, 3), 0);
}

#[test]
fn cycle_offset_moves_backward_and_wraps() {
    assert_eq!(cycle_offset(0, -1, 3), 2);
    assert_eq!(cycle_offset(2, -1, 3), 1);
    assert_eq!(cycle_offset(0, -4, 3), 2);
}

#[test]
fn cycle_offset_on_an_empty_ring_is_zero() {
    assert_eq!(cycle_offset(7, 1, 0), 0);
    assert_eq!(cycle_offset(7, -1, 0), 0);
}

#[test]
fn cycle_offset_brings_an_index_back_into_the_ring() {
    assert_eq!(cycle_offset(10, 0, 4), 2);
}

#[test]
fn cycle_hover_starts_at_the_first_item() {
    assert_eq!(cycle_hover(None, 1, 3), Some(0));
    assert_eq!(cycle_hover(None, -1, 3), Some(0));
    assert_eq!(cycle_hover(Some(2), 1, 3), Some(0));
    assert_eq!(cycle_hover(Some(0), -1, 3), Some(2));
}

#[test]
fn auto_increment_keeps_a_free_name() {
    assert_eq!(auto_increment_name("notes", &["todo", "ideas"]), "notes");
    assert_eq!(auto_increment_name("notes", &[]), "notes");
}

#[test]
fn auto_increment_numbers_a_taken_name() {
    assert_eq!(auto_increment_name("notes", &["notes"]), "notes (1)");
    assert_eq!(auto_increment_name("notes", &["notes", "notes (1)"]), "notes (2)");
}

#[test]
fn auto_increment_takes_the_least_free_number() {
    let names = ["notes (2)", "notes", "notes (1)", "notes (4)"];
    assert_eq!(auto_increment_name("notes", &names), "notes (3)");
}

#[test]
fn auto_increment_counts_past_nine() {
    let taken: Vec<String> = std::iter::once("a".to_string())
        .chain((1..=10).map(|n| format!("a ({})", n)))
        .collect();
    let names: Vec<&str> = taken.iter().map(|s| s.as_str()).collect();
    assert_eq!(auto_increment_name("a", &names), "a (11)");
}

#[test]
fn chars_of_gives_the_characters() {
    assert_eq!(chars_of("héllo"), vec!['h', 'é', 'l', 'l', 'o']);
    assert_eq!(chars_of(""), Vec::<char>::new());
}

#[test]
fn i16_to_chars_writes_decimals() {
    assert_eq!(i16_to_chars(0), vec!['0']);
    assert_eq!(i16_to_chars(42), vec!['4', '2']);
    assert_eq!(i16_to_chars(-305), vec!['-', '3', '0', '5']);
    assert_eq!(i16_to_chars(i16::MIN).iter().collect::<String>(), "-32768");
    assert_eq!(i16_to_chars(i16::MAX).iter().collect::<String>(), "32767");
}

#[test]
fn chars_equal_compares_characters() {
    assert!(chars_equal(&vec!['a', 'b'], &vec!['a', 'b']));
    assert!(!chars_equal(&vec!['a', 'b'], &vec!['a']));
    assert!(!chars_equal(&vec!['a', 'b'], &vec!['a', 'c']));
}

#[test]
fn parse_u16_reads_numbers() {
    assert_eq!(parse_u16("0"), Some(0));
    assert_eq!(parse_u16("42"), Some(42));
    assert_eq!(parse_u16("+7"), Some(7));
    assert_eq!(parse_u16("65535"), Some(65535));
    assert_eq!(parse_u16("007"), Some(7));
}

#[test]
fn parse_u16_refuses_what_std_refuses() {
    for text in ["", "+", "-1", "65536", "1a", " 1", "1.0", "99999999999999999999"] {
        assert_eq!(parse_u16(text), text.parse::<u16>().ok(), "{}", text);
        assert_eq!(parse_u16(text), None, "{}", text);
    }
}

#[test]
fn parse_u16_agrees_with_std() {
    for text in ["1", "12", "+12", "60000", "65535", "65536", "-0", "+", "x"] {
        assert_eq!(parse_u16(text), text.parse::<u16>().ok(), "{}", text);
    }
}

#[test]
fn is_positive_i64_agrees_with_std() {
    for text in [
        "1", "42", "+42", "0", "-0", "-5", "", "+", "-", "abc", "9223372036854775807",
        "9223372036854775808", "007",
    ] {
        let expected = text.parse::<i64>().map(|v| v > 0).unwrap_or(false);
        assert_eq!(is_positive_i64(text), expected, "{}", text);
    }
}

#[test]
fn cycle_offset_forward_then_back_returns() {
    for max in 1u16..6 {
        for i in 0..max {
            assert_eq!(cycle_offset(cycle_offset(i, 1, max), -1, max), i);
            assert_eq!(cycle_offset(cycle_offset(i, -1, max), 1, max), i);
        }
    }
}
