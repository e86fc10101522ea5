use glyph::ids::{find_first_id, find_last_id};
use glyph::ordering::chars_less;

fn chars(s: &str) -> Vec<char> {
    s.chars().collect()
}

#[test]
fn find_first_and_last_id() {
    let v = vec![(3, 'a'), (5, 'b'), (3, 'c'), (7, 'd')];
    assert_eq!(find_first_id(&v, 3), Some(0));
    assert_eq!(find_last_id(&v, 3), Some(2));
    assert_eq!(find_first_id(&v, 7), Some(3));
    assert_eq!(find_last_id(&v, 5), Some(1));
    assert_eq!(find_first_id(&v, 4), None);
    assert_eq!(find_last_id(&v, 4), None);
    let empty: Vec<(i64, char)> = Vec::new();
    assert_eq!(find_first_id(&empty, 0), None);
}

#[test]
fn chars_less_is_the_lexicographic_order() {
    assert!(chars_less(&chars("a"), &chars("b")));
    assert!(chars_less(&chars("ab"), &chars("abc")));
    assert!(chars_less(&chars(""), &chars("a")));
    assert!(!chars_less(&chars("abc"), &chars("ab")));
    assert!(!chars_less(&chars("same"), &chars("same")));
    assert!(chars_less(&chars("B"), &chars("a")));
    assert!(!chars_less(&chars("b"), &chars("aa")));
}
