use void_editor::editor::{
    cursor_for_tool, CursorIcon, Editor, Key, KeyResponse, MarqueeStep, MouseButton, Tool,
    WheelAction,
};

fn order(e: &Editor) -> Vec<u64> {
    let mut ids = Vec::new();
    for i in 0..e.document.len() {
        ids.push(e.document.get_by_position(i).unwrap().0);
    }
    ids
}

fn editor_with(n: u64) -> Editor {
    let mut e = Editor::new();
    for slot in 0..n {
        e.add_element(slot);
    }
    e
}

fn click(e: &mut Editor, hit: Option<u64>) {
    e.cursor_moved(hit);
    e.mouse_input(MouseButton::Left, true);
    e.mouse_input(MouseButton::Left, false);
}

#[test]
fn tool_cursors() {
    assert_eq!(cursor_for_tool(Tool::Selection), CursorIcon::Default);
    assert_eq!(cursor_for_tool(Tool::Hand), CursorIcon::Grab);
    assert_eq!(cursor_for_tool(Tool::Rectangle), CursorIcon::Crosshair);
    assert_eq!(Tool::default(), Tool::Selection);
}

#[test]
fn keys_pick_tools() {
    let mut e = Editor::new();
    let r = e.keyboard_input(Key::KeyH, true);
    assert_eq!(r.cursor, Some(CursorIcon::Grab));
    assert_eq!(e.tool(), Tool::Hand);
    assert_eq!(e.keyboard_input(Key::KeyH, true).cursor, None);
    assert_eq!(e.keyboard_input(Key::KeyV, false).cursor, None);
    assert_eq!(e.tool(), Tool::Hand);
    assert_eq!(e.keyboard_input(Key::KeyV, true).cursor, Some(CursorIcon::Default));
    assert_eq!(e.tool(), Tool::Selection);
}

#[test]
fn z_resets_camera() {
    let mut e = Editor::new();
    assert_eq!(
        e.keyboard_input(Key::KeyZ, true),
        KeyResponse { cursor: None, reset_camera: true, redraw: true }
    );
    assert_eq!(
        e.keyboard_input(Key::KeyZ, false),
        KeyResponse { cursor: None, reset_camera: false, redraw: false }
    );
}

#[test]
fn click_selects_and_super_click_toggles() {
    let mut e = editor_with(3);
    click(&mut e, Some(1));
    assert_eq!(e.selected(), &vec![1]);
    click(&mut e, Some(2));
    assert_eq!(e.selected(), &vec![2]);
    e.keyboard_input(Key::SuperLeft, true);
    click(&mut e, Some(0));
    assert_eq!(e.selected(), &vec![2, 0]);
    click(&mut e, Some(2));
    assert_eq!(e.selected(), &vec![0]);
    e.keyboard_input(Key::SuperLeft, false);
    click(&mut e, Some(0));
    assert_eq!(e.selected(), &vec![0]);
}

#[test]
fn press_on_empty_space_starts_marquee() {
    let mut e = editor_with(3);
    e.cursor_moved(None);
    let r = e.mouse_input(MouseButton::Left, true);
    assert_eq!(r.marquee, MarqueeStep::Start);
    assert!(r.redraw);
    let m = e.cursor_moved(None);
    assert!(m.resize_marquee && !m.drag_selection && m.redraw);
    let r = e.mouse_input(MouseButton::Left, false);
    assert_eq!(r.marquee, MarqueeStep::Finish);
    e.select_marquee(&vec![true, false, true]);
    assert_eq!(e.selected(), &vec![0, 2]);
}

#[test]
fn dragging_a_selected_element() {
    let mut e = editor_with(2);
    e.cursor_moved(Some(1));
    e.mouse_input(MouseButton::Left, true);
    let m = e.cursor_moved(Some(1));
    assert!(m.drag_selection && m.redraw);
    assert_eq!(m.cursor, Some(CursorIcon::Move));
    e.mouse_input(MouseButton::Left, false);
    let m = e.cursor_moved(None);
    assert!(!m.drag_selection && !m.redraw);
    assert_eq!(m.cursor, Some(CursorIcon::Default));
}

#[test]
fn hand_and_middle_button_pan() {
    let mut e = Editor::new();
    e.keyboard_input(Key::KeyH, true);
    let r = e.mouse_input(MouseButton::Left, true);
    assert_eq!(r.cursor, Some(CursorIcon::Grabbing));
    let m = e.cursor_moved(None);
    assert!(m.pan_camera && m.redraw);
    assert_eq!(m.cursor, None);
    let r = e.mouse_input(MouseButton::Left, false);
    assert_eq!(r.cursor, Some(CursorIcon::Grab));
    let r = e.mouse_input(MouseButton::Middle, true);
    assert_eq!(r.cursor, Some(CursorIcon::Grabbing));
    assert!(e.cursor_moved(None).pan_camera);
    let r = e.mouse_input(MouseButton::Right, true);
    assert_eq!(r.cursor, None);
    assert!(!r.redraw);
}

#[test]
fn brackets_reorder_selection() {
    let mut e = editor_with(3);
    click(&mut e, Some(0));
    e.keyboard_input(Key::BracketRight, true);
    assert_eq!(order(&e), vec![1, 2, 0]);
    e.keyboard_input(Key::BracketLeft, true);
    assert_eq!(order(&e), vec![0, 1, 2]);
    e.keyboard_input(Key::ShiftRight, true);
    e.keyboard_input(Key::BracketRight, true);
    assert_eq!(order(&e), vec![1, 0, 2]);
    e.keyboard_input(Key::BracketLeft, true);
    assert_eq!(order(&e), vec![0, 1, 2]);
    e.keyboard_input(Key::BracketLeft, false);
    assert_eq!(order(&e), vec![0, 1, 2]);
}

#[test]
fn delete_removes_selection() {
    let mut e = editor_with(3);
    click(&mut e, Some(1));
    let r = e.keyboard_input(Key::Delete, true);
    assert!(r.redraw);
    assert_eq!(order(&e), vec![0, 2]);
    assert_eq!(e.selected(), &vec![1]);
    e.keyboard_input(Key::Backspace, true);
    assert_eq!(order(&e), vec![0, 2]);
}

#[test]
fn wheel_zooms_with_super() {
    let mut e = Editor::new();
    assert_eq!(e.wheel_action(), WheelAction::Pan);
    e.keyboard_input(Key::SuperRight, true);
    assert_eq!(e.wheel_action(), WheelAction::Zoom);
}

#[test]
fn law_super_click_twice_restores_on_values() {
    let mut e = editor_with(3);
    click(&mut e, Some(0));
    e.keyboard_input(Key::SuperLeft, true);
    click(&mut e, Some(2));
    click(&mut e, Some(2));
    assert_eq!(e.selected(), &vec![0]);
}

#[test]
fn law_key_release_keeps_document_on_values() {
    let mut e = editor_with(3);
    click(&mut e, Some(0));
    e.keyboard_input(Key::Delete, false);
    e.keyboard_input(Key::BracketRight, false);
    assert_eq!(order(&e), vec![0, 1, 2]);
}

#[test]
fn new_editor_draws_ids_from_zero() {
    let mut e = Editor::new();
    assert_eq!(e.add_element(7), 1);
    assert_eq!(e.document.get_by_position(0), Some((0, 7)));
}
