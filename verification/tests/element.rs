use void_editor::element::ResizeHandle;

const ALL: [ResizeHandle; 8] = [
    ResizeHandle::Left,
    ResizeHandle::Right,
    ResizeHandle::Top,
    ResizeHandle::Bottom,
    ResizeHandle::TopLeft,
    ResizeHandle::TopRight,
    ResizeHandle::BottomLeft,
    ResizeHandle::BottomRight,
];

#[test]
fn handles_sit_on_the_box() {
    assert_eq!(ResizeHandle::Left.uv_halves(), (0, 1));
    assert_eq!(ResizeHandle::Bottom.uv_halves(), (1, 2));
    assert_eq!(ResizeHandle::TopRight.uv_halves(), (2, 0));
}

#[test]
fn fixed_point_is_opposite() {
    assert_eq!(ResizeHandle::Left.fixed_uv_halves(), (2, 1));
    assert_eq!(ResizeHandle::TopLeft.fixed_uv_halves(), (2, 2));
    assert_eq!(ResizeHandle::Bottom.fixed_uv_halves(), (1, 0));
}

#[test]
fn active_axes_of_sides_and_corners() {
    assert_eq!(ResizeHandle::Left.active_axes(), (true, false));
    assert_eq!(ResizeHandle::Top.active_axes(), (false, true));
    assert_eq!(ResizeHandle::BottomRight.active_axes(), (true, true));
}

#[test]
fn law_active_axes_differ_from_fixed_point_on_values() {
    for h in ALL {
        let (u, v) = h.uv_halves();
        let (fu, fv) = h.fixed_uv_halves();
        assert_eq!(h.active_axes(), (u != fu, v != fv));
    }
}
