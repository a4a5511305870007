use chat_stream::text::{is_blank, trim};

#[test]
fn empty_text_is_blank() {
    assert!(is_blank(""));
}

#[test]
fn whitespace_of_every_kind_is_blank() {
    assert!(is_blank(" "));
    assert!(is_blank(" \t\r\n"));
    assert!(is_blank("\u{a0}\u{2003}\u{3000}"));
}

#[test]
fn a_single_letter_is_not_blank() {
    assert!(!is_blank("a"));
    assert!(!is_blank("   a   "));
    assert!(!is_blank("\n\n.\n"));
}

#[test]
fn trim_cuts_both_ends_and_keeps_the_middle() {
    assert_eq!(trim("  Hello  "), "Hello");
    assert_eq!(trim("\tone two \n"), "one two");
    assert_eq!(trim("left  "), "left");
    assert_eq!(trim("  right"), "right");
    assert_eq!(trim("as is"), "as is");
}

#[test]
fn trim_of_blank_text_is_empty() {
    assert_eq!(trim(""), "");
    assert_eq!(trim("   "), "");
    assert_eq!(trim("\u{a0}\n"), "");
}

#[test]
fn trim_counts_characters_not_bytes() {
    assert_eq!(trim("\u{3000}\u{e9}t\u{e9}\u{2003}"), "\u{e9}t\u{e9}");
    assert_eq!(trim(" \u{1f916} "), "\u{1f916}");
}

#[test]
fn trim_agrees_with_the_standard_library() {
    let samples = [
        "",
        " ",
        "x",
        " x",
        "x ",
        "  a b  c ",
        "\u{85}line\u{2028}",
        "\u{200b}zero width is no space\u{200b}",
        "\r\n\r\n",
    ];
    for s in samples {
        assert_eq!(trim(s), s.trim());
        assert_eq!(is_blank(s), s.trim().is_empty());
    }
}

#[test]
fn trim_twice_is_trim_once() {
    let samples = ["  a  ", "\t\tb c\n", "   ", "d"];
    for s in samples {
        assert_eq!(trim(trim(s)), trim(s));
    }
}
