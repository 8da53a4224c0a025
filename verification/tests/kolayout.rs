use kindle_button_mapper::kolayout::{KeyAction, KoLayout, Level};

// Trimmed from `xkbcomp -I/usr/share/X11/xkb -xkb - -` fed pc+br(abnt2).
const BR: &str = r#"
xkb_keymap {
xkb_keycodes "evdev" {
    <AE02> = 11;
    <AD01> = 24;
    <AD11> = 34;
    <AC01> = 38;
    <AC10> = 47;
    <AB10> = 61;
    <SPCE> = 65;
    <DELE> = 119;
    alias <MENU> = <COMP>;
};
xkb_symbols "pc+br(abnt2)" {
    key <AE02> {
        type= "FOUR_LEVEL",
        symbols[Group1]= [               2,              at,     twosuperior,         onehalf ]
    };
    key <AD01> {
        type= "FOUR_LEVEL_SEMIALPHABETIC",
        symbols[Group1]= [               q,               Q,           slash,           slash ]
    };
    key <AD11> {
        type= "FOUR_LEVEL",
        symbols[Group1]= [      dead_acute,      dead_grave,           acute,           grave ]
    };
    key <AC01> {
        type= "FOUR_LEVEL_SEMIALPHABETIC",
        symbols[Group1]= [               a,               A,              ae,              AE ]
    };
    key <AC10> {
        type= "FOUR_LEVEL_SEMIALPHABETIC",
        symbols[Group1]= [        ccedilla,        Ccedilla,      dead_acute, dead_doubleacute ]
    };
    key <AB10> {
        type= "FOUR_LEVEL",
        symbols[Group1]= [       semicolon,           colon,   dead_belowdot,   dead_abovedot ]
    };
    key  <SPCE> {         [           space ] };
    key <DELE> {         [          Delete ] };
};
xkb_geometry "pc(pc105)" {
    key <AC10> { ignored };
};
};
"#;

fn br() -> KoLayout {
    KoLayout::from_xkb(BR)
}

#[test]
fn keycodes_come_back_as_kernel_codes_not_x_ones() {
    // <AC10> = 47 in X is evdev 39.
    assert_eq!(br().level(39), Level::Text("ç".into()));
}

#[test]
fn shift_and_altgr_pick_the_right_level() {
    let mut l = br();
    l.shift = true;
    assert_eq!(l.level(39), Level::Text("Ç".into()));
    l.shift = false;
    l.altgr = true;
    assert_eq!(l.level(3), Level::Text("²".into()));
    l.shift = true;
    assert_eq!(l.level(3), Level::Text("½".into()));
}

#[test]
fn letters_and_plain_digits_relay_so_shortcuts_keep_working() {
    let mut l = br();
    assert_eq!(l.level(30), Level::Pass(Some('a')));
    assert_eq!(l.level(3), Level::Pass(Some('2')));
    assert_eq!(l.consume(30, 1), KeyAction::Relay);
    // Shifted digits are not letters, and KOReader cannot type them at all.
    l.shift = true;
    assert_eq!(l.level(3), Level::Text("@".into()));
    assert_eq!(l.level(30), Level::Pass(Some('A')));
}

#[test]
fn space_relays_rather_than_being_typed_as_text() {
    let mut l = br();
    assert_eq!(l.consume(57, 1), KeyAction::Relay);
}

#[test]
fn delete_deletes_instead_of_typing_its_control_character() {
    // XK_Delete is annotated U+007F in keysymdef, so it resolves to a
    // character and would be typed as text without the control guard.
    let mut l = br();
    assert!(!l.keys.contains_key(&111));
    assert_eq!(l.consume(111, 1), KeyAction::Relay);
}

#[test]
fn dead_keys_resolve_and_compose_with_whatever_the_next_key_types() {
    let mut l = br();
    let Level::Dead(spacing, mark) = l.level(26) else {
        panic!("AD11 should be dead_acute")
    };
    assert_eq!(spacing, '´');
    assert_eq!(l.compose(spacing, mark, 30), Some("á".into()));
    // Space gives the accent alone, as XKB does.
    assert_eq!(l.compose(spacing, mark, 57), Some("´".into()));
    // No accented form: both characters land.
    assert_eq!(l.compose(spacing, mark, 16), Some("´q".into()));
    // A key that types nothing at all.
    assert_eq!(l.compose(spacing, mark, 103), None);
    // Uppercase follows the level, so it composes uppercase too.
    l.shift = true;
    assert_eq!(l.compose(spacing, mark, 30), Some("Á".into()));
}

#[test]
fn an_unmapped_dead_key_is_relayed_rather_than_swallowing_the_next_press() {
    // dead_belowdot has no combining mark here, so AB10 AltGr must relay.
    let mut l = br();
    l.altgr = true;
    assert_eq!(l.level(53), Level::Pass(None));
}

// AZERTY moves the letters. Relaying them would type the US one.
const FR: &str = r#"
xkb_keycodes "evdev" {
    <AD01> = 24;
    <AD02> = 25;
    <AC01> = 38;
};
xkb_symbols "pc+fr" {
    key <AD01> { [ a, A, ae, AE ] };
    key <AD02> { [ z, Z, guillemotleft, less ] };
    key <AC01> { [ q, Q, at, Greek_OMEGA ] };
};
"#;

#[test]
fn a_moved_letter_is_sent_as_text_not_relayed_as_the_us_one() {
    let mut l = KoLayout::from_xkb(FR);
    // evdev 16 is the US q position; AZERTY types a there.
    assert_eq!(l.level(16), Level::Text("a".into()));
    assert_eq!(l.level(17), Level::Text("z".into()));
    assert_eq!(l.level(30), Level::Text("q".into()));
    l.shift = true;
    assert_eq!(l.level(16), Level::Text("A".into()));
}

#[test]
fn a_letter_that_did_not_move_still_relays() {
    // Same fixture, but br leaves q where US has it.
    let l = br();
    assert_eq!(l.level(16), Level::Pass(Some('q')));
}

#[test]
fn modifiers_are_tracked_but_still_relayed() {
    let mut l = br();
    assert_eq!(l.consume(42, 1), KeyAction::Relay);
    assert!(l.shift);
    assert_eq!(l.consume(42, 0), KeyAction::Relay);
    assert!(!l.shift);
}

#[test]
fn geometry_and_aliases_do_not_leak_into_the_map() {
    let l = br();
    // <MENU> alias has no numeric value, and geometry's key line has no list.
    // AE02 AD01 AD11 AC01 AC10 AB10. SPCE is every-level-relayed so it is
    // dropped, and the <MENU> alias has no keycode of its own.
    assert_eq!(l.keys.len(), 6);
    assert!(!l.keys.contains_key(&57));
}

#[test]
fn a_typed_key_is_held_so_its_release_is_not_relayed() {
    let mut l = br();
    // AC10 types ç, which KOReader cannot.
    let KeyAction::Type(text) = l.consume(39, 1) else { panic!("ç should be typed") };
    assert_eq!(text, "ç");
    assert!(l.typed(39, true));
    assert_eq!(l.consume(39, 2), KeyAction::Type("ç".into()));
    assert_eq!(l.consume(39, 0), KeyAction::Swallow);
    assert_eq!(l.consume(39, 0), KeyAction::Relay);
    // When KOReader did not take it, the key relays as usual.
    assert!(!l.typed(39, false));
    assert_eq!(l.consume(39, 0), KeyAction::Relay);
}

#[test]
fn an_armed_dead_key_composes_with_the_next_press() {
    let mut l = br();
    assert_eq!(l.consume(26, 1), KeyAction::Arm('´', '\u{301}'));
    assert!(l.arm(26, '´', '\u{301}', true));
    assert_eq!(l.consume(26, 0), KeyAction::Swallow);
    assert_eq!(l.consume(30, 1), KeyAction::Type("á".into()));
    // The accent is used up.
    assert_eq!(l.consume(30, 1), KeyAction::Relay);
    // A dead key followed by a key that types nothing flushes the accent.
    assert!(l.arm(26, '´', '\u{301}', true));
    assert_eq!(l.consume(103, 1), KeyAction::Flush("´".into()));
    // Unreachable KOReader: the dead key is not armed.
    assert!(!l.arm(26, '´', '\u{301}', false));
    assert!(l.pending.is_none());
}

#[test]
fn a_dump_that_claims_nothing_loads_no_layout() {
    assert!(KoLayout::load("xkb_keycodes { <AD01> = 24; };\nxkb_symbols { key <AD01> { [ q, Q ] }; };\n").is_none());
    let l = KoLayout::load(BR).expect("br claims keys");
    assert_eq!(l.keys.len(), 6);
}
