use kindle_button_mapper::gesture::Stroke;

#[test]
fn a_stroke_starts_where_the_finger_lands_not_where_the_last_one_ended() {
    let mut s = Stroke::default();
    // A previous contact left the position at the bottom of the pad.
    s.axis(false, 90);
    s.axis(true, 10);

    // Press and coordinates arrive in one report, button first.
    s.press();
    s.axis(true, 50);
    s.axis(false, -80);
    s.sync();
    // Only Y changes, so the device does not resend X.
    s.axis(false, 0);
    s.sync();
    s.axis(false, 80);
    s.sync();

    let path = s.release().expect("press opened it");
    assert_eq!(path, vec![(50, -80), (50, 0), (50, 80)]);
    assert!(s.release().is_none());
}

#[test]
fn reports_without_a_contact_are_not_points() {
    let mut s = Stroke::default();
    s.axis(true, 20);
    s.sync();
    s.press();
    s.sync();
    assert_eq!(s.release(), Some(vec![(20, 0)]));
    s.sync();
    s.press();
    assert_eq!(s.release(), Some(vec![]));
}
