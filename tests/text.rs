//! The character-level helpers behind classification and code writing.

use immediate_stats::text::{chars_of, contains_chars, push_decimal, same_chars};

#[test]
fn chars_of_keeps_every_character() {
    assert_eq!(chars_of("Stat<ü>"), vec!['S', 't', 'a', 't', '<', 'ü', '>']);
    assert!(chars_of("").is_empty());
}

#[test]
fn contains_finds_runs_anywhere() {
    let needle = chars_of("Stat");
    assert!(contains_chars(&chars_of("Stat"), &needle));
    assert!(contains_chars(&chars_of("iStat64"), &needle));
    assert!(contains_chars(&chars_of("Option < Stat < i32 > >"), &needle));
    assert!(!contains_chars(&chars_of("Sta"), &needle));
    assert!(!contains_chars(&chars_of("stat"), &needle));
    assert!(!contains_chars(&chars_of("S t a t"), &needle));
    assert!(contains_chars(&chars_of("anything"), &Vec::new()));
    assert!(contains_chars(&Vec::new(), &Vec::new()));
}

#[test]
fn same_chars_compares_whole_sequences() {
    assert!(same_chars(&chars_of("stat"), &chars_of("stat")));
    assert!(!same_chars(&chars_of("stat"), &chars_of("stat_ignore")));
    assert!(!same_chars(&chars_of("stat"), &chars_of("Stat")));
}

#[test]
fn decimal_text() {
    for (n, text) in [(0usize, "0"), (7, "7"), (10, "10"), (12, "12"), (12345, "12345")] {
        let mut out = String::from("x");
        push_decimal(&mut out, n);
        assert_eq!(out, format!("x{text}"));
    }
}
