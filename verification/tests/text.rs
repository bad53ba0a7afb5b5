use imap_notify::text::{decimal_string, split_on};

fn strings(pieces: &[&str]) -> Vec<String> {
    pieces.iter().map(|piece| piece.to_string()).collect()
}

#[test]
fn decimal_of_zero() {
    assert_eq!(decimal_string(0), "0");
}

#[test]
fn decimal_of_single_digits() {
    for n in 0..10u64 {
        assert_eq!(decimal_string(n), n.to_string());
    }
}

#[test]
fn decimal_has_no_leading_zero() {
    assert_eq!(decimal_string(10), "10");
    assert_eq!(decimal_string(100), "100");
    assert_eq!(decimal_string(1005), "1005");
}

#[test]
fn decimal_of_several_digits() {
    assert_eq!(decimal_string(42), "42");
    assert_eq!(decimal_string(993), "993");
    assert_eq!(decimal_string(4294967295), "4294967295");
}

#[test]
fn decimal_of_the_largest_number() {
    assert_eq!(decimal_string(u64::MAX), "18446744073709551615");
}

#[test]
fn decimal_agrees_with_std() {
    let mut n: u64 = 1;
    while n < u64::MAX / 7 {
        assert_eq!(decimal_string(n), n.to_string());
        assert_eq!(decimal_string(n - 1), (n - 1).to_string());
        n *= 7;
    }
}

#[test]
fn split_of_empty_text_is_one_empty_piece() {
    assert_eq!(split_on("", ','), strings(&[""]));
}

#[test]
fn split_without_separator_is_the_text() {
    assert_eq!(split_on("INBOX", ','), strings(&["INBOX"]));
}

#[test]
fn split_at_commas() {
    assert_eq!(split_on("INBOX,Work,Lists", ','), strings(&["INBOX", "Work", "Lists"]));
}

#[test]
fn split_at_spaces() {
    assert_eq!(split_on("INBOX Work", ' '), strings(&["INBOX", "Work"]));
}

#[test]
fn split_keeps_empty_pieces() {
    assert_eq!(split_on(",a", ','), strings(&["", "a"]));
    assert_eq!(split_on("a,", ','), strings(&["a", ""]));
    assert_eq!(split_on("a,,b", ','), strings(&["a", "", "b"]));
    assert_eq!(split_on(",", ','), strings(&["", ""]));
}

#[test]
fn split_leaves_other_separators_alone() {
    assert_eq!(split_on("a b,c", ','), strings(&["a b", "c"]));
    assert_eq!(split_on("a b,c", ' '), strings(&["a", "b,c"]));
}

#[test]
fn split_counts_characters_not_bytes() {
    assert_eq!(split_on("Entw\u{fc}rfe,\u{53d7}\u{4fe1}\u{7bb1}", ','), strings(&["Entw\u{fc}rfe", "\u{53d7}\u{4fe1}\u{7bb1}"]));
}

#[test]
fn split_agrees_with_std() {
    for text in ["", "a", "a,b", ",,", "x,,y,", ", ,", "one,two,three,four"] {
        let expected: Vec<String> = text.split(',').map(|piece| piece.to_string()).collect();
        assert_eq!(split_on(text, ','), expected);
    }
}
