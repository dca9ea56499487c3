use void_editor::style::{FillRule, Style};

#[test]
fn constructors_set_fill_and_stroke() {
    let s: Style<u32, f64> = Style::filled(7);
    assert_eq!(s.fill, Some((7, FillRule::NonZero)));
    assert!(s.stroke.is_none());
    assert!(s.is_filled() && !s.is_stroked());

    let s: Style<u32, f64> = Style::stroked(9, 2.0);
    assert_eq!(s.stroke, Some((9, 2.0)));
    assert!(!s.is_filled() && s.is_stroked());

    let s: Style<u32, f64> = Style::filled_and_stroked(1, 2, 3.0);
    assert!(s.is_filled_and_stroked());
    assert_eq!(s.fill, Some((1, FillRule::NonZero)));
    assert_eq!(s.stroke, Some((2, 3.0)));
}

#[test]
fn new_style_is_bare() {
    let s: Style<u32, f64> = Style::new();
    assert!(!s.is_filled());
    assert!(!s.is_stroked());
    let d: Style<u32, f64> = Style::default();
    assert!(!d.is_filled_and_stroked());
}

#[test]
fn set_color_recolors_what_is_present() {
    let mut s: Style<u32, f64> = Style::filled(1);
    s.set_color(5);
    assert_eq!(s.fill, Some((5, FillRule::NonZero)));
    assert!(s.stroke.is_none());

    let mut s: Style<u32, f64> = Style::filled_and_stroked(1, 2, 4.0);
    s.set_stroke_color(8);
    assert_eq!(s.fill, Some((1, FillRule::NonZero)));
    assert_eq!(s.stroke, Some((8, 4.0)));
    s.set_fill_color(6);
    assert_eq!(s.fill, Some((6, FillRule::NonZero)));
}

#[test]
fn set_fill_color_keeps_rule() {
    let mut s: Style<u32, f64> = Style { fill: Some((1, FillRule::EvenOdd)), stroke: None };
    s.set_fill_color(3);
    assert_eq!(s.fill, Some((3, FillRule::EvenOdd)));
}
