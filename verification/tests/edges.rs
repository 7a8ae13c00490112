use window_commands::edge::Edge;
use window_commands::text::text_equals;

#[test]
fn parse_reads_each_keyword() {
    assert_eq!(Edge::parse("left"), Some(Edge::Left));
    assert_eq!(Edge::parse("right"), Some(Edge::Right));
    assert_eq!(Edge::parse("top"), Some(Edge::Top));
    assert_eq!(Edge::parse("bottom"), Some(Edge::Bottom));
}

#[test]
fn parse_refuses_other_words() {
    assert_eq!(Edge::parse("diagonal"), None);
    assert_eq!(Edge::parse("center"), None);
    assert_eq!(Edge::parse(""), None);
}

#[test]
fn parse_is_exact_about_letters() {
    assert_eq!(Edge::parse("Left"), None);
    assert_eq!(Edge::parse("RIGHT"), None);
    assert_eq!(Edge::parse(" top"), None);
    assert_eq!(Edge::parse("top "), None);
    assert_eq!(Edge::parse("bottoms"), None);
    assert_eq!(Edge::parse("botto"), None);
    assert_eq!(Edge::parse("left\n"), None);
    assert_eq!(Edge::parse("l\u{00e9}ft"), None);
}

#[test]
fn parse_takes_an_owned_string_by_reference() {
    let position = String::from("bottom");
    assert_eq!(Edge::parse(&position), Some(Edge::Bottom));
}

#[test]
fn text_equals_same_text() {
    assert!(text_equals("", ""));
    assert!(text_equals("right", "right"));
    assert!(text_equals("na\u{00ef}ve \u{1f600}", "na\u{00ef}ve \u{1f600}"));
}

#[test]
fn text_equals_different_text() {
    assert!(!text_equals("left", "right"));
    assert!(!text_equals("left", "lefT"));
    assert!(!text_equals("left", "lef"));
    assert!(!text_equals("lef", "left"));
    assert!(!text_equals("", "x"));
    assert!(!text_equals("e", "\u{00e9}"));
    assert!(!text_equals("\u{00e8}", "\u{00e9}"));
}
