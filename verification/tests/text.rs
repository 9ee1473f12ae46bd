use typing_trainer::text::{char_at, chars_of, string_of};

#[test]
fn a_string_has_its_characters_in_order() {
    assert_eq!(chars_of("abc"), vec!['a', 'b', 'c']);
    assert_eq!(chars_of(""), Vec::<char>::new());
    assert_eq!(chars_of("h\u{e9}\u{4e2d}\u{1f600}"), vec!['h', '\u{e9}', '\u{4e2d}', '\u{1f600}']);
}

#[test]
fn characters_make_a_string_in_order() {
    assert_eq!(string_of(&vec!['a', 'b', 'c']), "abc");
    assert_eq!(string_of(&vec![]), "");
    assert_eq!(string_of(&vec!['\u{e9}', ' ', '\u{1f600}']), "\u{e9} \u{1f600}");
}

#[test]
fn a_string_survives_the_round_trip_through_its_characters() {
    for text in ["", "cat", "caf\u{e9}", "a b\tc\n", "\u{4e2d}\u{6587}"] {
        assert_eq!(string_of(&chars_of(text)), text);
    }
}

#[test]
fn char_at_reads_one_character() {
    let chars = vec!['x', '\u{e9}', 'z'];
    assert_eq!(char_at(&chars, 0), 'x');
    assert_eq!(char_at(&chars, 1), '\u{e9}');
    assert_eq!(char_at(&chars, 2), 'z');
}
