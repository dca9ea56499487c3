//! The editor's decisions: which tool is active, which elements are
//! selected, how keys and mouse buttons change the document and the
//! selection, and what the window has to do in answer.

use crate::document::{
    changed_each, distinct_keys, has_key, law_remove_each_drops_exactly, Document, ElementId,
    ElementSlot, OrderChange,
};
use vstd::prelude::*;

verus! {

/// The tool the pointer acts with.
#[derive(Debug, Clone, Copy, PartialEq, Eq, Structural)]
pub enum Tool {
    Selection,
    Hand,
    Rectangle,
}

impl Default for Tool {
    /// The selection tool.
    fn default() -> (t: Self)
        ensures
            t == Tool::Selection,
    {
        Tool::Selection
    }
}

/// The shape of the mouse cursor.
#[derive(Debug, Clone, Copy, PartialEq, Eq, Structural)]
pub enum CursorIcon {
    Default,
    Grab,
    Grabbing,
    Crosshair,
    Move,
}

/// The cursor shown while a tool is active and nothing is dragged.
pub open spec fn tool_cursor(tool: Tool) -> CursorIcon {
    match tool {
        Tool::Selection => CursorIcon::Default,
        Tool::Hand => CursorIcon::Grab,
        Tool::Rectangle => CursorIcon::Crosshair,
    }
}

/// The cursor shown while `tool` is active and nothing is dragged.
pub fn cursor_for_tool(tool: Tool) -> (c: CursorIcon)
    ensures
        c == tool_cursor(tool),
{
    match tool {
        Tool::Selection => CursorIcon::Default,
        Tool::Hand => CursorIcon::Grab,
        Tool::Rectangle => CursorIcon::Crosshair,
    }
}

/// A key of the keyboard, as far as the editor tells keys apart.
#[derive(Debug, Clone, Copy, PartialEq, Eq, Structural)]
pub enum Key {
    KeyH,
    KeyV,
    KeyZ,
    SuperLeft,
    SuperRight,
    ShiftLeft,
    ShiftRight,
    BracketLeft,
    BracketRight,
    Delete,
    Backspace,
    Other,
}

/// A mouse button, as far as the editor tells buttons apart.
#[derive(Debug, Clone, Copy, PartialEq, Eq, Structural)]
pub enum MouseButton {
    Left,
    Right,
    Middle,
    Other,
}

/// What the window has to do after a key event.
#[derive(Debug, Clone, Copy, PartialEq, Eq, Structural)]
pub struct KeyResponse {
    /// The cursor to show, if it changes.
    pub cursor: Option<CursorIcon>,
    /// Whether the camera goes back to its initial pose.
    pub reset_camera: bool,
    /// Whether the window is drawn again.
    pub redraw: bool,
}

/// What becomes of the selection rectangle after a mouse button event.
#[derive(Debug, Clone, Copy, PartialEq, Eq, Structural)]
pub enum MarqueeStep {
    /// Nothing changes.
    Keep,
    /// A rectangle starts at the cursor; any previous one is dropped.
    Start,
    /// The rectangle ends: if there is one, the elements whose center lies
    /// inside it become the selection (see [`Editor::select_marquee`]).
    Finish,
}

/// What the window has to do after a mouse button event.
#[derive(Debug, Clone, Copy, PartialEq, Eq, Structural)]
pub struct MouseResponse {
    pub cursor: Option<CursorIcon>,
    pub redraw: bool,
    pub marquee: MarqueeStep,
}

/// What the window has to do after the cursor moved.
#[derive(Debug, Clone, Copy, PartialEq, Eq, Structural)]
pub struct MoveResponse {
    /// The selected elements follow the cursor.
    pub drag_selection: bool,
    /// The selection rectangle stretches to the cursor.
    pub resize_marquee: bool,
    /// The cursor to show, if it is set.
    pub cursor: Option<CursorIcon>,
    /// The camera follows the cursor.
    pub pan_camera: bool,
    pub redraw: bool,
}

/// What the mouse wheel does.
#[derive(Debug, Clone, Copy, PartialEq, Eq, Structural)]
pub enum WheelAction {
    /// Zoom the camera about the cursor.
    Zoom,
    /// Move the camera.
    Pan,
}

/// The editor's state: the document, the selection, the active tool and
/// what is held down.
pub struct Editor {
    pub document: Document,
    pub selected: Vec<ElementId>,
    pub dragging_selection: bool,
    pub drag_started: bool,
    pub hit_element: Option<ElementId>,
    pub tool: Tool,
    pub left_pressed: bool,
    pub right_pressed: bool,
    pub middle_pressed: bool,
    pub is_super_pressed: bool,
    pub is_shift_pressed: bool,
}

/// What an [`Editor`] holds besides its document.
pub struct EditorModel {
    /// The selected elements, in the order they were selected.
    pub selected: Seq<ElementId>,
    /// A press on a hit element started dragging the selection.
    pub dragging_selection: bool,
    /// A press on empty space started a selection rectangle.
    pub drag_started: bool,
    /// The element under the cursor, if any.
    pub hit_element: Option<ElementId>,
    pub tool: Tool,
    pub left_pressed: bool,
    pub right_pressed: bool,
    pub middle_pressed: bool,
    pub super_pressed: bool,
    pub shift_pressed: bool,
}

impl View for Editor {
    type V = EditorModel;

    open spec fn view(&self) -> EditorModel {
        EditorModel {
            selected: self.selected@,
            dragging_selection: self.dragging_selection,
            drag_started: self.drag_started,
            hit_element: self.hit_element,
            tool: self.tool,
            left_pressed: self.left_pressed,
            right_pressed: self.right_pressed,
            middle_pressed: self.middle_pressed,
            super_pressed: self.is_super_pressed,
            shift_pressed: self.is_shift_pressed,
        }
    }
}

/// No request to the window.
pub open spec fn quiet_key_response() -> KeyResponse {
    KeyResponse { cursor: None, reset_camera: false, redraw: false }
}

/// The state and response after the tool is set to `tool`: the cursor
/// changes only when the tool does.
pub open spec fn tool_changed(m: EditorModel, tool: Tool) -> (EditorModel, KeyResponse) {
    if m.tool == tool {
        (m, quiet_key_response())
    } else {
        (
            EditorModel { tool, ..m },
            KeyResponse { cursor: Some(tool_cursor(tool)), reset_camera: false, redraw: false },
        )
    }
}

/// The change that a key applies to each selected element, given whether
/// shift is held: `[` moves to the start of the paint order (one step
/// toward it with shift), `]` to the end (one step toward it with shift),
/// delete and backspace remove.
pub open spec fn key_change(key: Key, shift: bool) -> Option<OrderChange> {
    match key {
        Key::BracketLeft => Some(
            if shift {
                OrderChange::Down
            } else {
                OrderChange::ToFront
            },
        ),
        Key::BracketRight => Some(
            if shift {
                OrderChange::Up
            } else {
                OrderChange::ToBack
            },
        ),
        Key::Delete | Key::Backspace => Some(OrderChange::Remove),
        _ => None,
    }
}

/// The state and response after a key goes down (`pressed`) or up.
pub open spec fn key_handled(m: EditorModel, key: Key, pressed: bool) -> (EditorModel, KeyResponse) {
    match key {
        Key::KeyH => if pressed {
            tool_changed(m, Tool::Hand)
        } else {
            (m, quiet_key_response())
        },
        Key::KeyV => if pressed {
            tool_changed(m, Tool::Selection)
        } else {
            (m, quiet_key_response())
        },
        Key::SuperLeft | Key::SuperRight => (
            EditorModel { super_pressed: pressed, ..m },
            quiet_key_response(),
        ),
        Key::ShiftLeft | Key::ShiftRight => (
            EditorModel { shift_pressed: pressed, ..m },
            quiet_key_response(),
        ),
        Key::KeyZ => if pressed {
            (m, KeyResponse { cursor: None, reset_camera: true, redraw: true })
        } else {
            (m, quiet_key_response())
        },
        Key::BracketLeft | Key::BracketRight | Key::Delete | Key::Backspace => if pressed {
            (m, KeyResponse { cursor: None, reset_camera: false, redraw: true })
        } else {
            (m, quiet_key_response())
        },
        Key::Other => (m, quiet_key_response()),
    }
}

/// The paint order after a key event: when the key goes down, its change
/// is applied to each selected element in turn.
pub open spec fn key_document(
    doc: Seq<(ElementId, ElementSlot)>,
    m: EditorModel,
    key: Key,
    pressed: bool,
) -> Seq<(ElementId, ElementSlot)> {
    match key_change(key, m.shift_pressed) {
        Some(change) => if pressed {
            changed_each(doc, change, m.selected)
        } else {
            doc
        },
        None => doc,
    }
}

/// The change that `key` applies to the selection, given whether shift is
/// held.
fn change_for_key(key: Key, shift: bool) -> (r: Option<OrderChange>)
    ensures
        r == key_change(key, shift),
{
    match key {
        Key::BracketLeft => Some(
            if shift {
                OrderChange::Down
            } else {
                OrderChange::ToFront
            },
        ),
        Key::BracketRight => Some(
            if shift {
                OrderChange::Up
            } else {
                OrderChange::ToBack
            },
        ),
        Key::Delete | Key::Backspace => Some(OrderChange::Remove),
        _ => None,
    }
}

/// The first index of `x` in `s`, or -1 when `x` does not occur.
pub open spec fn first_position(s: Seq<ElementId>, x: ElementId) -> int
    decreases s.len(),
{
    if s.len() == 0 {
        -1
    } else if s[0] == x {
        0
    } else {
        let r = first_position(s.drop_first(), x);
        if r < 0 {
            -1
        } else {
            r + 1
        }
    }
}

/// The selection after a click on element `id`: a selected element is
/// dropped from it when super is held and kept otherwise; another element
/// is added to it when super is held and replaces it otherwise.
pub open spec fn clicked_selection(sel: Seq<ElementId>, id: ElementId, super_held: bool) -> Seq<
    ElementId,
> {
    let p = first_position(sel, id);
    if p >= 0 {
        if super_held {
            sel.remove(p)
        } else {
            sel
        }
    } else {
        if super_held {
            sel.push(id)
        } else {
            seq![id]
        }
    }
}

/// No request to the window.
pub open spec fn quiet_mouse_response() -> MouseResponse {
    MouseResponse { cursor: None, redraw: false, marquee: MarqueeStep::Keep }
}

/// The state and response after the left button goes down or up, before
/// the button itself is recorded.
pub open spec fn left_button_handled(m: EditorModel, pressed: bool) -> (EditorModel, MouseResponse) {
    match m.tool {
        Tool::Selection => if pressed {
            match m.hit_element {
                Some(id) => (
                    EditorModel {
                        selected: clicked_selection(m.selected, id, m.super_pressed),
                        dragging_selection: true,
                        ..m
                    },
                    MouseResponse { cursor: None, redraw: true, marquee: MarqueeStep::Keep },
                ),
                None => (
                    EditorModel { dragging_selection: false, drag_started: true, ..m },
                    MouseResponse { cursor: None, redraw: true, marquee: MarqueeStep::Start },
                ),
            }
        } else {
            (
                EditorModel { dragging_selection: false, drag_started: false, ..m },
                MouseResponse { cursor: None, redraw: true, marquee: MarqueeStep::Finish },
            )
        },
        Tool::Hand => (
            m,
            MouseResponse {
                cursor: Some(
                    if pressed {
                        CursorIcon::Grabbing
                    } else {
                        tool_cursor(Tool::Hand)
                    },
                ),
                redraw: false,
                marquee: MarqueeStep::Keep,
            },
        ),
        Tool::Rectangle => (m, quiet_mouse_response()),
    }
}

/// The state and response after a mouse button goes down or up.
pub open spec fn mouse_handled(m: EditorModel, button: MouseButton, pressed: bool) -> (
    EditorModel,
    MouseResponse,
) {
    match button {
        MouseButton::Left => {
            let (m2, response) = left_button_handled(m, pressed);
            (EditorModel { left_pressed: pressed, ..m2 }, response)
        },
        MouseButton::Right => (EditorModel { right_pressed: pressed, ..m }, quiet_mouse_response()),
        MouseButton::Middle => (
            EditorModel { middle_pressed: pressed, ..m },
            MouseResponse {
                cursor: Some(
                    if pressed {
                        CursorIcon::Grabbing
                    } else {
                        tool_cursor(m.tool)
                    },
                ),
                redraw: false,
                marquee: MarqueeStep::Keep,
            },
        ),
        MouseButton::Other => (m, quiet_mouse_response()),
    }
}

/// The ids of the entries marked inside, in paint order.
pub open spec fn marked_ids(doc: Seq<(ElementId, ElementSlot)>, inside: Seq<bool>) -> Seq<ElementId>
    decreases doc.len(),
{
    if doc.len() == 0 {
        Seq::empty()
    } else {
        let prev = marked_ids(doc.drop_last(), inside.drop_last());
        if inside.last() {
            prev.push(doc.last().0)
        } else {
            prev
        }
    }
}

/// The response after the cursor moved over `hit` (the element under it,
/// if any).
pub open spec fn moved_response(m: EditorModel, hit: Option<ElementId>) -> MoveResponse {
    let selecting = m.tool == Tool::Selection && m.left_pressed;
    let drag_selection = selecting && m.dragging_selection;
    let resize_marquee = selecting && !m.dragging_selection && m.drag_started;
    let pan_camera = (m.tool == Tool::Hand && m.left_pressed) || m.middle_pressed;
    MoveResponse {
        drag_selection,
        resize_marquee,
        cursor: if m.tool == Tool::Selection && !m.middle_pressed {
            Some(
                if hit is Some {
                    CursorIcon::Move
                } else {
                    tool_cursor(m.tool)
                },
            )
        } else {
            None
        },
        pan_camera,
        redraw: drag_selection || resize_marquee || pan_camera,
    }
}

/// `first_position` is the first index holding `x`.
proof fn lemma_first_position(s: Seq<ElementId>, x: ElementId, i: int)
    requires
        0 <= i <= s.len(),
        forall|j: int| 0 <= j < i ==> s[j] != x,
        i < s.len() ==> s[i] == x,
    ensures
        first_position(s, x) == (if i < s.len() {
            i
        } else {
            -1
        }),
    decreases i,
{
    if i > 0 {
        assert forall|j: int| 0 <= j < i - 1 implies s.drop_first()[j] != x by {
            assert(s.drop_first()[j] == s[j + 1]);
        }
        if i < s.len() {
            assert(s.drop_first()[i - 1] == s[i]);
        }
        lemma_first_position(s.drop_first(), x, i - 1);
    }
}

/// The first index of `x` in `v`, if any.
fn position_in(v: &Vec<ElementId>, x: ElementId) -> (r: Option<usize>)
    ensures
        match r {
            Some(i) => i < v.len() && i as int == first_position(v@, x),
            None => first_position(v@, x) == -1,
        },
{
    let mut i: usize = 0;
    while i < v.len()
        invariant
            i <= v.len(),
            forall|j: int| 0 <= j < i ==> v@[j] != x,
        decreases v.len() - i,
    {
        if v[i] == x {
            proof {
                lemma_first_position(v@, x, i as int);
            }
            return Some(i);
        }
        i = i + 1;
    }
    proof {
        lemma_first_position(v@, x, v@.len() as int);
    }
    None
}

impl Default for Editor {
    /// An editor with an empty document, nothing selected or held, and
    /// the selection tool.
    fn default() -> (e: Self)
        ensures
            e.document.wf(),
            e.document@ == Seq::<(ElementId, ElementSlot)>::empty(),
            e@ == (EditorModel {
                selected: Seq::empty(),
                dragging_selection: false,
                drag_started: false,
                hit_element: None,
                tool: Tool::Selection,
                left_pressed: false,
                right_pressed: false,
                middle_pressed: false,
                super_pressed: false,
                shift_pressed: false,
            }),
    {
        Editor::new()
    }
}

impl Editor {
    /// An editor with an empty document whose ids start at 0, nothing
    /// selected or held, and the selection tool.
    pub fn new() -> (e: Self)
        ensures
            e.document.wf(),
            e.document@ == Seq::<(ElementId, ElementSlot)>::empty(),
            e.document.next_id() == 0,
            e@ == (EditorModel {
                selected: Seq::empty(),
                dragging_selection: false,
                drag_started: false,
                hit_element: None,
                tool: Tool::Selection,
                left_pressed: false,
                right_pressed: false,
                middle_pressed: false,
                super_pressed: false,
                shift_pressed: false,
            }),
    {
        Editor {
            document: Document::new(),
            selected: Vec::new(),
            dragging_selection: false,
            drag_started: false,
            hit_element: None,
            tool: Tool::Selection,
            left_pressed: false,
            right_pressed: false,
            middle_pressed: false,
            is_super_pressed: false,
            is_shift_pressed: false,
        }
    }

    /// The selected elements, in the order they were selected.
    pub fn selected(&self) -> (r: &Vec<ElementId>)
        ensures
            r@ == self@.selected,
    {
        &self.selected
    }

    /// The active tool.
    pub fn tool(&self) -> (t: Tool)
        ensures
            t == self@.tool,
    {
        self.tool
    }

    /// Sets the tool; returns the cursor to show when the tool changed.
    pub fn change_tool(&mut self, tool: Tool) -> (r: Option<CursorIcon>)
        ensures
            final(self).document == old(self).document,
            final(self)@ == tool_changed(old(self)@, tool).0,
            r == tool_changed(old(self)@, tool).1.cursor,
    {
        if self.tool == tool {
            return None;
        }
        self.tool = tool;
        Some(cursor_for_tool(tool))
    }

    /// Applies `change` to each selected element in turn.
    fn change_selected(&mut self, change: OrderChange)
        requires
            old(self).document.wf(),
        ensures
            final(self).document.wf(),
            final(self).document.next_id() == old(self).document.next_id(),
            final(self).document@ == changed_each(old(self).document@, change, old(self)@.selected),
            final(self)@ == old(self)@,
    {
        let ghost start = self.document@;
        let mut i: usize = 0;
        while i < self.selected.len()
            invariant
                i <= self.selected.len(),
                self.document.wf(),
                self.document.next_id() == old(self).document.next_id(),
                self@ == old(self)@,
                self.document@ == changed_each(start, change, self.selected@.take(i as int)),
            decreases self.selected.len() - i,
        {
            let id = self.selected[i];
            self.document.apply_change(change, id);
            assert(self.selected@.take(i + 1).drop_last() =~= self.selected@.take(i as int));
            i = i + 1;
        }
        assert(self.selected@.take(self.selected.len() as int) =~= self.selected@);
    }

    /// Handles a key going down (`pressed`) or up: `H` and `V` pick the hand
    /// and selection tools, super and shift are tracked, `Z` resets the
    /// camera, `[`/`]` reorder the selection and delete/backspace remove it.
    pub fn keyboard_input(&mut self, key: Key, pressed: bool) -> (r: KeyResponse)
        requires
            old(self).document.wf(),
        ensures
            final(self).document.wf(),
            final(self).document.next_id() == old(self).document.next_id(),
            final(self).document@ == key_document(old(self).document@, old(self)@, key, pressed),
            final(self)@ == key_handled(old(self)@, key, pressed).0,
            r == key_handled(old(self)@, key, pressed).1,
    {
        let quiet = KeyResponse { cursor: None, reset_camera: false, redraw: false };
        if let Some(change) = change_for_key(key, self.is_shift_pressed) {
            if pressed {
                self.change_selected(change);
                return KeyResponse { cursor: None, reset_camera: false, redraw: true };
            }
            return quiet;
        }
        match key {
            Key::KeyH => {
                if pressed {
                    let cursor = self.change_tool(Tool::Hand);
                    return KeyResponse { cursor, reset_camera: false, redraw: false };
                }
                quiet
            },
            Key::KeyV => {
                if pressed {
                    let cursor = self.change_tool(Tool::Selection);
                    return KeyResponse { cursor, reset_camera: false, redraw: false };
                }
                quiet
            },
            Key::SuperLeft | Key::SuperRight => {
                self.is_super_pressed = pressed;
                quiet
            },
            Key::ShiftLeft | Key::ShiftRight => {
                self.is_shift_pressed = pressed;
                quiet
            },
            Key::KeyZ => {
                if pressed {
                    return KeyResponse { cursor: None, reset_camera: true, redraw: true };
                }
                quiet
            },
            _ => quiet,
        }
    }

    /// Handles a mouse button going down (`pressed`) or up. With the
    /// selection tool a left press on an element selects it (super toggles
    /// it in the selection) and starts dragging the selection; a left press
    /// elsewhere starts a selection rectangle; a left release ends both.
    /// The hand tool and the middle button show a grabbing cursor while held.
    pub fn mouse_input(&mut self, button: MouseButton, pressed: bool) -> (r: MouseResponse)
        ensures
            final(self).document == old(self).document,
            final(self)@ == mouse_handled(old(self)@, button, pressed).0,
            r == mouse_handled(old(self)@, button, pressed).1,
    {
        let quiet = MouseResponse { cursor: None, redraw: false, marquee: MarqueeStep::Keep };
        match button {
            MouseButton::Left => {
                let response = match self.tool {
                    Tool::Selection => {
                        if pressed {
                            if let Some(id) = self.hit_element {
                                match position_in(&self.selected, id) {
                                    Some(pos) => {
                                        if self.is_super_pressed {
                                            self.selected.remove(pos);
                                        }
                                    },
                                    None => {
                                        if !self.is_super_pressed {
                                            self.selected.clear();
                                        }
                                        self.selected.push(id);
                                        proof {
                                            if !self.is_super_pressed {
                                                assert(self.selected@ =~= seq![id]);
                                            }
                                        }
                                    },
                                }
                                self.dragging_selection = true;
                                MouseResponse {
                                    cursor: None,
                                    redraw: true,
                                    marquee: MarqueeStep::Keep,
                                }
                            } else {
                                self.dragging_selection = false;
                                self.drag_started = true;
                                MouseResponse {
                                    cursor: None,
                                    redraw: true,
                                    marquee: MarqueeStep::Start,
                                }
                            }
                        } else {
                            self.dragging_selection = false;
                            self.drag_started = false;
                            MouseResponse {
                                cursor: None,
                                redraw: true,
                                marquee: MarqueeStep::Finish,
                            }
                        }
                    },
                    Tool::Hand => {
                        let cursor = if pressed {
                            CursorIcon::Grabbing
                        } else {
                            cursor_for_tool(self.tool)
                        };
                        MouseResponse { cursor: Some(cursor), redraw: false, marquee: MarqueeStep::Keep }
                    },
                    Tool::Rectangle => quiet,
                };
                self.left_pressed = pressed;
                response
            },
            MouseButton::Right => {
                self.right_pressed = pressed;
                quiet
            },
            MouseButton::Middle => {
                let cursor = if pressed {
                    CursorIcon::Grabbing
                } else {
                    cursor_for_tool(self.tool)
                };
                self.middle_pressed = pressed;
                MouseResponse { cursor: Some(cursor), redraw: false, marquee: MarqueeStep::Keep }
            },
            MouseButton::Other => quiet,
        }
    }

    /// Makes the selection the elements marked inside the selection
    /// rectangle, in paint order; `inside[i]` tells whether the element at
    /// position `i` lies inside.
    pub fn select_marquee(&mut self, inside: &Vec<bool>)
        requires
            inside.len() == old(self).document@.len(),
        ensures
            final(self).document == old(self).document,
            final(self)@ == (EditorModel {
                selected: marked_ids(old(self).document@, inside@),
                ..old(self)@
            }),
    {
        self.selected.clear();
        let n = self.document.len();
        let mut i: usize = 0;
        while i < n
            invariant
                i <= n,
                n == self.document@.len(),
                inside.len() == n,
                self.document == old(self).document,
                self@ == (EditorModel {
                    selected: marked_ids(self.document@.take(i as int), inside@.take(i as int)),
                    ..old(self)@
                }),
            decreases n - i,
        {
            let entry = self.document.get_by_position(i);
            proof {
                assert(self.document@.take(i + 1).drop_last() =~= self.document@.take(i as int));
                assert(inside@.take(i + 1).drop_last() =~= inside@.take(i as int));
            }
            if inside[i] {
                if let Some((id, _)) = entry {
                    self.selected.push(id);
                }
            }
            i = i + 1;
        }
        proof {
            assert(self.document@.take(n as int) =~= self.document@);
            assert(inside@.take(n as int) =~= inside@);
        }
    }

    /// Records the element under the cursor after it moved, and says what
    /// follows the cursor: the dragged selection, the selection rectangle or
    /// the camera; with the selection tool the cursor shows whether an
    /// element is under it.
    pub fn cursor_moved(&mut self, hit: Option<ElementId>) -> (r: MoveResponse)
        ensures
            final(self).document == old(self).document,
            final(self)@ == (EditorModel { hit_element: hit, ..old(self)@ }),
            r == moved_response(old(self)@, hit),
    {
        self.hit_element = hit;
        let selecting = self.tool == Tool::Selection && self.left_pressed;
        let drag_selection = selecting && self.dragging_selection;
        let resize_marquee = selecting && !self.dragging_selection && self.drag_started;
        let cursor = if self.tool == Tool::Selection && !self.middle_pressed {
            if hit.is_some() {
                Some(CursorIcon::Move)
            } else {
                Some(cursor_for_tool(self.tool))
            }
        } else {
            None
        };
        let pan_camera = (self.tool == Tool::Hand && self.left_pressed) || self.middle_pressed;
        MoveResponse {
            drag_selection,
            resize_marquee,
            cursor,
            pan_camera,
            redraw: drag_selection || resize_marquee || pan_camera,
        }
    }

    /// What the mouse wheel does: zoom while super is held, else pan.
    pub fn wheel_action(&self) -> (r: WheelAction)
        ensures
            r == (if self@.super_pressed {
                WheelAction::Zoom
            } else {
                WheelAction::Pan
            }),
    {
        if self.is_super_pressed {
            WheelAction::Zoom
        } else {
            WheelAction::Pan
        }
    }

    /// Adds the element kept in `slot` to the document, in front of all
    /// others; returns what the document's `push` returns.
    pub fn add_element(&mut self, slot: ElementSlot) -> (r: ElementId)
        requires
            old(self).document.wf(),
            old(self).document.next_id() < u64::MAX,
        ensures
            final(self).document.wf(),
            final(self).document@ == old(self).document@.push((old(self).document.next_id(), slot)),
            final(self).document.next_id() == old(self).document.next_id() + 1,
            r == final(self).document.next_id(),
            final(self)@ == old(self)@,
    {
        self.document.push(slot)
    }
}

/// A key going up never changes the document.
pub proof fn law_key_release_keeps_document(
    doc: Seq<(ElementId, ElementSlot)>,
    m: EditorModel,
    key: Key,
)
    ensures
        key_document(doc, m, key, false) == doc,
{
}

/// Clicking an unselected element twice with super held adds it, then
/// takes it out again: the selection is back to what it was.
pub proof fn law_super_click_twice_restores(sel: Seq<ElementId>, id: ElementId)
    requires
        first_position(sel, id) == -1,
    ensures
        clicked_selection(sel, id, true) == sel.push(id),
        clicked_selection(clicked_selection(sel, id, true), id, true) == sel,
{
    let t = sel.push(id);
    assert forall|j: int| 0 <= j < sel.len() implies t[j] != id by {
        if t[j] == id {
            lemma_first_hit(sel, id, j);
        }
    }
    lemma_first_position(t, id, sel.len() as int);
    assert(t.remove(sel.len() as int) =~= sel);
}

/// An element in `s` makes `first_position` non-negative.
proof fn lemma_first_hit(s: Seq<ElementId>, x: ElementId, j: int)
    requires
        0 <= j < s.len(),
        s[j] == x,
    ensures
        first_position(s, x) >= 0,
    decreases j,
{
    if j > 0 && s[0] != x {
        assert(s.drop_first()[j - 1] == s[j]);
        lemma_first_hit(s.drop_first(), x, j - 1);
    }
}

/// Clicking an unselected element without super makes it the whole
/// selection; clicking a selected one without super keeps the selection.
pub proof fn law_plain_click_selection(sel: Seq<ElementId>, id: ElementId)
    ensures
        first_position(sel, id) == -1 ==> clicked_selection(sel, id, false) == seq![id],
        first_position(sel, id) >= 0 ==> clicked_selection(sel, id, false) == sel,
{
}

/// Choosing the tool that is already active changes nothing and shows no
/// new cursor.
pub proof fn law_same_tool_is_quiet(m: EditorModel, tool: Tool)
    ensures
        tool_changed(tool_changed(m, tool).0, tool).0 == tool_changed(m, tool).0,
        tool_changed(tool_changed(m, tool).0, tool).1.cursor is None,
{
}

/// Pressing delete or backspace, with or without shift, removes every
/// selected element from the document and keeps every other element; the
/// editor's state stays and a redraw is asked for.
pub proof fn law_delete_keys_remove_selection(
    doc: Seq<(ElementId, ElementSlot)>,
    m: EditorModel,
    key: Key,
)
    requires
        distinct_keys(doc),
        key == Key::Delete || key == Key::Backspace,
    ensures
        key_handled(m, key, true).0 == m,
        key_handled(m, key, true).1.redraw,
        forall|j: int|
            0 <= j < m.selected.len() ==> !has_key(
                key_document(doc, m, key, true),
                #[trigger] m.selected[j],
            ),
        forall|y: ElementId|
            !m.selected.contains(y) ==> (has_key(key_document(doc, m, key, true), y) <==> has_key(
                doc,
                y,
            )),
{
    law_remove_each_drops_exactly(doc, m.selected);
}

/// `sel` lists ids of marked elements in paint order: its `j`-th id is
/// that of the element at position `idx[j]`, which is marked, and the
/// positions increase.
pub open spec fn drawn_from_marked(
    doc: Seq<(ElementId, ElementSlot)>,
    inside: Seq<bool>,
    sel: Seq<ElementId>,
    idx: Seq<int>,
) -> bool {
    &&& idx.len() == sel.len()
    &&& forall|j: int|
        0 <= j < idx.len() ==> 0 <= #[trigger] idx[j] < doc.len() && inside[idx[j]] && doc[idx[j]].0
            == sel[j]
    &&& forall|j: int, k: int| 0 <= j < k < idx.len() ==> #[trigger] idx[j] < #[trigger] idx[k]
}

/// The positions in paint order of the marked entries, in increasing order.
proof fn lemma_marked_positions(doc: Seq<(ElementId, ElementSlot)>, inside: Seq<bool>) -> (idx: Seq<
    int,
>)
    requires
        inside.len() == doc.len(),
    ensures
        idx.len() == marked_ids(doc, inside).len(),
        forall|j: int|
            0 <= j < idx.len() ==> 0 <= #[trigger] idx[j] < doc.len() && inside[idx[j]] && doc[idx[j]].0
                == marked_ids(doc, inside)[j],
        forall|j: int, k: int| 0 <= j < k < idx.len() ==> #[trigger] idx[j] < #[trigger] idx[k],
        forall|i: int| 0 <= i < doc.len() && #[trigger] inside[i] ==> exists|j: int| 0 <= j < idx.len() && idx[j] == i,
    decreases doc.len(),
{
    if doc.len() == 0 {
        Seq::empty()
    } else {
        let n = doc.len() - 1;
        let p = lemma_marked_positions(doc.drop_last(), inside.drop_last());
        assert forall|i: int| 0 <= i < n implies inside.drop_last()[i] == inside[i] && doc.drop_last()[i] == doc[i] by {}
        if inside.last() {
            let idx = p.push(n);
            assert forall|j: int| 0 <= j < idx.len() implies 0 <= #[trigger] idx[j] < doc.len() && inside[idx[j]]
                && doc[idx[j]].0 == marked_ids(doc, inside)[j] by {
                if j < p.len() {
                    assert(idx[j] == p[j]);
                }
            }
            assert forall|i: int| 0 <= i < doc.len() && #[trigger] inside[i] implies exists|j: int|
                0 <= j < idx.len() && idx[j] == i by {
                if i < n {
                    assert(inside.drop_last()[i]);
                    let j = choose|j: int| 0 <= j < p.len() && p[j] == i;
                    assert(idx[j] == i);
                } else {
                    assert(idx[p.len() as int] == i);
                }
            }
            idx
        } else {
            assert forall|i: int| 0 <= i < doc.len() && #[trigger] inside[i] implies exists|j: int|
                0 <= j < p.len() && p[j] == i by {
                assert(i != n);
                assert(inside.drop_last()[i]);
            }
            p
        }
    }
}

/// The selection a selection rectangle makes holds exactly the ids of the
/// marked elements: the element at position `i` in paint order is selected
/// when `inside[i]` is set, and the selection lists them in paint order.
pub proof fn law_marquee_selects_marked(doc: Seq<(ElementId, ElementSlot)>, inside: Seq<bool>)
    requires
        inside.len() == doc.len(),
    ensures
        forall|i: int| 0 <= i < doc.len() && inside[i] ==> marked_ids(doc, inside).contains(#[trigger] doc[i].0),
        exists|idx: Seq<int>| #[trigger] drawn_from_marked(doc, inside, marked_ids(doc, inside), idx),
{
    let idx = lemma_marked_positions(doc, inside);
    assert(drawn_from_marked(doc, inside, marked_ids(doc, inside), idx));
    assert forall|i: int| 0 <= i < doc.len() && inside[i] implies marked_ids(doc, inside).contains(#[trigger] doc[i].0) by {
        assert(inside[i]);
        let j = choose|j: int| 0 <= j < idx.len() && idx[j] == i;
        assert(marked_ids(doc, inside)[j] == doc[i].0);
    }
}

} // verus!
