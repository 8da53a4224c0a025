use kindle_button_mapper::keysym::{compose, dead, to_char};

fn chars(s: &str) -> Vec<char> {
    s.chars().collect()
}

#[test]
fn keysyms_name_their_characters() {
    assert_eq!(to_char(&chars("a")), Some('a'));
    assert_eq!(to_char(&chars("ccedilla")), Some('ç'));
    assert_eq!(to_char(&chars("twosuperior")), Some('²'));
    assert_eq!(to_char(&chars("Delete")), Some('\u{7f}'));
    assert_eq!(to_char(&chars("dead_acute")), None);
    assert_eq!(to_char(&chars("NoSymbol")), None);
}

#[test]
fn dead_keys_carry_a_combining_mark() {
    assert_eq!(dead(&chars("dead_acute")), Some(('´', '\u{301}')));
    assert_eq!(dead(&chars("dead_grave")), Some(('`', '\u{300}')));
    assert_eq!(dead(&chars("dead_belowdot")), None);
    assert_eq!(compose('a', '\u{301}'), Some('á'));
    assert_eq!(compose('C', '\u{327}'), Some('Ç'));
    assert_eq!(compose('q', '\u{301}'), None);
}
