//! The handles by which an element is resized.

use vstd::prelude::*;

verus! {

/// A handle on the bounding box of an element: a side or a corner.
#[derive(Debug, Clone, Copy, PartialEq, Eq, Structural)]
pub enum ResizeHandle {
    Left,
    Right,
    Top,
    Bottom,
    TopLeft,
    TopRight,
    BottomLeft,
    BottomRight,
}

/// Where a handle sits on the box, in halves of its width and height
/// from the top-left corner: 0 is the near edge, 1 the middle, 2 the far
/// edge.
pub open spec fn handle_uv_halves(h: ResizeHandle) -> (u8, u8) {
    match h {
        ResizeHandle::Left => (0, 1),
        ResizeHandle::Right => (2, 1),
        ResizeHandle::Top => (1, 0),
        ResizeHandle::Bottom => (1, 2),
        ResizeHandle::TopLeft => (0, 0),
        ResizeHandle::TopRight => (2, 0),
        ResizeHandle::BottomLeft => (0, 2),
        ResizeHandle::BottomRight => (2, 2),
    }
}

/// The axes along which a handle resizes: sides move one axis, corners
/// both.
pub open spec fn handle_active_axes(h: ResizeHandle) -> (bool, bool) {
    match h {
        ResizeHandle::Left | ResizeHandle::Right => (true, false),
        ResizeHandle::Top | ResizeHandle::Bottom => (false, true),
        _ => (true, true),
    }
}

impl ResizeHandle {
    /// Where the handle sits on the box, in halves of its extent: the
    /// normalized coordinates `(u, v)` of the handle are these halved.
    pub fn uv_halves(self) -> (r: (u8, u8))
        ensures
            r == handle_uv_halves(self),
    {
        match self {
            ResizeHandle::Left => (0, 1),
            ResizeHandle::Right => (2, 1),
            ResizeHandle::Top => (1, 0),
            ResizeHandle::Bottom => (1, 2),
            ResizeHandle::TopLeft => (0, 0),
            ResizeHandle::TopRight => (2, 0),
            ResizeHandle::BottomLeft => (0, 2),
            ResizeHandle::BottomRight => (2, 2),
        }
    }

    /// The point that stays in place while the handle is dragged: the one
    /// opposite it through the center, in halves of the box's extent.
    pub fn fixed_uv_halves(self) -> (r: (u8, u8))
        ensures
            r == ((2 - handle_uv_halves(self).0) as u8, (2 - handle_uv_halves(self).1) as u8),
    {
        let (u, v) = self.uv_halves();
        (2 - u, 2 - v)
    }

    /// Whether dragging the handle resizes along x and along y.
    pub fn active_axes(self) -> (r: (bool, bool))
        ensures
            r == handle_active_axes(self),
    {
        match self {
            ResizeHandle::Left | ResizeHandle::Right => (true, false),
            ResizeHandle::Top | ResizeHandle::Bottom => (false, true),
            ResizeHandle::TopLeft | ResizeHandle::TopRight | ResizeHandle::BottomLeft
            | ResizeHandle::BottomRight => (true, true),
        }
    }
}

/// A handle resizes along an axis exactly when it and the point it keeps
/// fixed differ on that axis, that is, when it is not centered on it.
pub proof fn law_active_axes_differ_from_fixed_point(h: ResizeHandle)
    ensures
        handle_active_axes(h).0 == (handle_uv_halves(h).0 != 2 - handle_uv_halves(h).0),
        handle_active_axes(h).1 == (handle_uv_halves(h).1 != 2 - handle_uv_halves(h).1),
{
}

/// The fixed point of a handle is where the opposite handle sits, so the
/// fixed point of the fixed point is the handle itself.
pub proof fn law_fixed_point_is_opposite_handle(h: ResizeHandle)
    ensures
        exists|o: ResizeHandle|
            #![trigger handle_uv_halves(o)]
            handle_uv_halves(o) == (
                (2 - handle_uv_halves(h).0) as u8,
                (2 - handle_uv_halves(h).1) as u8,
            ) && handle_active_axes(o) == handle_active_axes(h),
{
    let o = match h {
        ResizeHandle::Left => ResizeHandle::Right,
        ResizeHandle::Right => ResizeHandle::Left,
        ResizeHandle::Top => ResizeHandle::Bottom,
        ResizeHandle::Bottom => ResizeHandle::Top,
        ResizeHandle::TopLeft => ResizeHandle::BottomRight,
        ResizeHandle::TopRight => ResizeHandle::BottomLeft,
        ResizeHandle::BottomLeft => ResizeHandle::TopRight,
        ResizeHandle::BottomRight => ResizeHandle::TopLeft,
    };
    assert(handle_uv_halves(o) == ((2 - handle_uv_halves(h).0) as u8, (2 - handle_uv_halves(h).1) as u8));
}

} // verus!
