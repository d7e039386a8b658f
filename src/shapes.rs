//! One frame's worth of shape instances.
use vstd::prelude::*;
use crate::math::Vector2;

verus! {

/// A circle instance: centre, radius and the width of its anti-aliased rim.
#[derive(Debug, PartialEq, Clone, Copy)]
pub struct Circle<T> {
    pub pos: Vector2<T>,
    pub radius: T,
    pub brush_size: T,
}

/// An axis-aligned rectangle instance: corner, size and rim width.
#[derive(Debug, PartialEq, Clone, Copy)]
pub struct Rectangle<T> {
    pub pos: Vector2<T>,
    pub w: T,
    pub h: T,
    pub brush_size: T,
}

/// The circles and rectangles submitted for the current frame, in the
/// order they were added.
pub struct DrawObjects<T> {
    circles: Vec<Circle<T>>,
    rectangles: Vec<Rectangle<T>>,
}

impl<T> DrawObjects<T> {
    pub closed spec fn circle_seq(&self) -> Seq<Circle<T>> {
        self.circles@
    }

    pub closed spec fn rectangle_seq(&self) -> Seq<Rectangle<T>> {
        self.rectangles@
    }

    pub fn new() -> (r: Self)
        ensures
            r.circle_seq() == Seq::<Circle<T>>::empty(),
            r.rectangle_seq() == Seq::<Rectangle<T>>::empty(),
    {
        DrawObjects { circles: Vec::new(), rectangles: Vec::new() }
    }

    /// Appends a circle; no range is checked.
    pub fn circle(&mut self, x: T, y: T, radius: T, brush_size: T)
        ensures
            final(self).circle_seq() == old(self).circle_seq().push(
                Circle { pos: Vector2 { x, y }, radius, brush_size },
            ),
            final(self).rectangle_seq() == old(self).rectangle_seq(),
    {
        self.circles.push(Circle { pos: Vector2 { x, y }, radius, brush_size });
    }

    /// Appends a rectangle; no range is checked.
    pub fn rectangle(&mut self, x: T, y: T, w: T, h: T, brush_size: T)
        ensures
            final(self).rectangle_seq() == old(self).rectangle_seq().push(
                Rectangle { pos: Vector2 { x, y }, w, h, brush_size },
            ),
            final(self).circle_seq() == old(self).circle_seq(),
    {
        self.rectangles.push(Rectangle { pos: Vector2 { x, y }, w, h, brush_size });
    }

    /// Empties both collections, once the frame has been uploaded and drawn.
    pub fn clear(&mut self)
        ensures
            final(self).circle_seq() == Seq::<Circle<T>>::empty(),
            final(self).rectangle_seq() == Seq::<Rectangle<T>>::empty(),
    {
        self.circles.clear();
        self.rectangles.clear();
    }

    pub fn circles(&self) -> (r: &Vec<Circle<T>>)
        ensures
            r@ == self.circle_seq(),
    {
        &self.circles
    }

    pub fn rectangles(&self) -> (r: &Vec<Rectangle<T>>)
        ensures
            r@ == self.rectangle_seq(),
    {
        &self.rectangles
    }
}

} // verus!
