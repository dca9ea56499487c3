//! How a shape is painted: an optional fill and an optional stroke, each
//! with its color.

use vstd::prelude::*;

verus! {

/// Which points a fill covers.
#[derive(Debug, Clone, Copy, PartialEq, Eq, Structural)]
pub enum FillRule {
    NonZero,
    EvenOdd,
}

/// The paint of a shape: a fill with its color and rule, and a stroke
/// with its color and parameters `S`, each optional.
#[derive(Debug, Clone)]
pub struct Style<C, S> {
    pub fill: Option<(C, FillRule)>,
    pub stroke: Option<(C, S)>,
}

impl<C, S> Default for Style<C, S> {
    /// Neither filled nor stroked.
    fn default() -> (s: Self)
        ensures
            s.fill is None,
            s.stroke is None,
    {
        Style { fill: None, stroke: None }
    }
}

impl<C: Copy, S> Style<C, S> {
    /// Neither filled nor stroked.
    pub fn new() -> (s: Self)
        ensures
            s.fill is None,
            s.stroke is None,
    {
        Style { fill: None, stroke: None }
    }

    /// Filled with `color` by the non-zero rule, not stroked.
    pub fn filled(color: C) -> (s: Self)
        ensures
            s.fill == Some((color, FillRule::NonZero)),
            s.stroke is None,
    {
        Style { fill: Some((color, FillRule::NonZero)), stroke: None }
    }

    /// Stroked with `color` and `stroke`, not filled.
    pub fn stroked(color: C, stroke: S) -> (s: Self)
        ensures
            s.fill is None,
            s.stroke == Some((color, stroke)),
    {
        Style { fill: None, stroke: Some((color, stroke)) }
    }

    /// Filled with `fill_color` by the non-zero rule and stroked with
    /// `stroke_color` and `stroke`.
    pub fn filled_and_stroked(fill_color: C, stroke_color: C, stroke: S) -> (s: Self)
        ensures
            s.fill == Some((fill_color, FillRule::NonZero)),
            s.stroke == Some((stroke_color, stroke)),
    {
        Style {
            fill: Some((fill_color, FillRule::NonZero)),
            stroke: Some((stroke_color, stroke)),
        }
    }

    /// Recolors the fill and the stroke, those that are present.
    pub fn set_color(&mut self, color: C)
        ensures
            final(self).fill == (match old(self).fill {
                Some((_, rule)) => Some((color, rule)),
                None => None,
            }),
            final(self).stroke == (match old(self).stroke {
                Some((_, stroke)) => Some((color, stroke)),
                None => None,
            }),
    {
        self.set_fill_color(color);
        self.set_stroke_color(color);
    }

    /// Recolors the fill, if there is one; the stroke stays.
    pub fn set_fill_color(&mut self, color: C)
        ensures
            final(self).fill == (match old(self).fill {
                Some((_, rule)) => Some((color, rule)),
                None => None,
            }),
            final(self).stroke == old(self).stroke,
    {
        if let Some((_, rule)) = self.fill {
            self.fill = Some((color, rule));
        }
    }

    /// Recolors the stroke, if there is one; the fill stays.
    pub fn set_stroke_color(&mut self, color: C)
        ensures
            final(self).fill == old(self).fill,
            final(self).stroke == (match old(self).stroke {
                Some((_, stroke)) => Some((color, stroke)),
                None => None,
            }),
    {
        match self.stroke.take() {
            Some((_, stroke)) => {
                self.stroke = Some((color, stroke));
            },
            None => {},
        }
    }

    /// Whether the shape is filled.
    pub fn is_filled(&self) -> (r: bool)
        ensures
            r == self.fill is Some,
    {
        self.fill.is_some()
    }

    /// Whether the shape is stroked.
    pub fn is_stroked(&self) -> (r: bool)
        ensures
            r == self.stroke is Some,
    {
        self.stroke.is_some()
    }

    /// Whether the shape is both filled and stroked.
    pub fn is_filled_and_stroked(&self) -> (r: bool)
        ensures
            r == (self.fill is Some && self.stroke is Some),
    {
        self.is_filled() && self.is_stroked()
    }
}

} // verus!
