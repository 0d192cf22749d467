use spotui::spotify::username_from_profile;
use spotui::text::{byte_index, char_count, utf8_width, without_char};

#[test]
fn widths_of_chars() {
    assert_eq!(utf8_width('a'), 1);
    assert_eq!(utf8_width('é'), 2);
    assert_eq!(utf8_width('€'), 3);
    assert_eq!(utf8_width('😀'), 4);
    assert_eq!(utf8_width('\u{7f}'), 1);
    assert_eq!(utf8_width('\u{80}'), 2);
    assert_eq!(utf8_width('\u{7ff}'), 2);
    assert_eq!(utf8_width('\u{800}'), 3);
    assert_eq!(utf8_width('\u{ffff}'), 3);
    assert_eq!(utf8_width('\u{10000}'), 4);
}

#[test]
fn byte_positions_of_characters() {
    let s = "aé€😀";
    assert_eq!(byte_index(s, 0), 0);
    assert_eq!(byte_index(s, 1), 1);
    assert_eq!(byte_index(s, 2), 3);
    assert_eq!(byte_index(s, 3), 6);
    assert_eq!(byte_index(s, 4), 10);
    assert_eq!(byte_index(s, 99), 10);
    assert_eq!(byte_index("", 0), 0);
}

#[test]
fn counting_characters() {
    assert_eq!(char_count(""), 0);
    assert_eq!(char_count("aé€😀"), 4);
}

#[test]
fn removing_one_character() {
    assert_eq!(without_char("aé€😀", 0), "é€😀");
    assert_eq!(without_char("aé€😀", 2), "aé😀");
    assert_eq!(without_char("aé€😀", 3), "aé€");
    assert_eq!(without_char("x", 0), "");
}

#[test]
fn username_falls_back_to_id() {
    assert_eq!(username_from_profile(Some("Freddie".into()), "user123".into()), "Freddie");
    assert_eq!(username_from_profile(None, "user123".into()), "user123");
}
