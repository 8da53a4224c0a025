use kindle_button_mapper::layout::{groups, LayoutOverride};

#[test]
fn groups_are_trimmed_and_empty_ones_dropped() {
    let g: Vec<String> = groups(" fr , ,de(nodeadkeys),").into_iter().map(|v| v.into_iter().collect()).collect();
    assert_eq!(g, vec!["fr".to_string(), "de(nodeadkeys)".to_string()]);
    assert!(LayoutOverride::new(" , ").is_none());
}

#[test]
fn one_group_includes_it_alone() {
    let o = LayoutOverride::new("fr").unwrap();
    assert_eq!(o.groups, vec!["fr".to_string()]);
    assert_eq!(
        o.symbols,
        "default partial alphanumeric_keys modifier_keys\nxkb_symbols \"basic\" {\n    include \"fr\"\n};\n"
    );
}

#[test]
fn us_is_included_by_its_latin_base_and_groups_toggle() {
    let o = LayoutOverride::new("ro, us").unwrap();
    assert_eq!(
        o.symbols,
        "default partial alphanumeric_keys modifier_keys\nxkb_symbols \"basic\" {\n    include \"ro\"\n    include \"latin:2\"\n    include \"group(alt_shift_toggle)\"\n};\n"
    );
}
