//! Immutable geometry built incrementally from segment commands.
//!
//! A [`PathBuilder`] accumulates verbs and a cursor; [`PathBuilder::copy_path_new`]
//! produces an immutable [`Path`] and leaves the builder intact, while
//! [`PathBuilder::take_path_new`] produces the path and empties the builder.

use vstd::prelude::*;

use crate::enums::FillType;
use crate::filters::clone_copied;
use crate::geometry::Point;
use crate::geometry::Rect;
use crate::geometry::RoundingRadii;
use crate::geometry::Scalar;

verus! {

/// One segment command of a path.
#[derive(Clone, Copy, Debug, PartialEq, Eq, Structural)]
pub enum PathVerb {
    MoveTo { location: Point },
    LineTo { location: Point },
    QuadraticCurveTo { control_point: Point, end_point: Point },
    CubicCurveTo { control_point_1: Point, control_point_2: Point, end_point: Point },
    AddRect { rect: Rect },
    AddArc { oval_bounds: Rect, start_angle_degrees: Scalar, end_angle_degrees: Scalar },
    AddOval { oval_bounds: Rect },
    AddRoundedRect { oval_bounds: Rect, rounding_radii: RoundingRadii },
    Close,
}

/// The mathematical value of a [`Path`]: its verbs and its fill rule.
pub ghost struct PathV {
    pub verbs: Seq<PathVerb>,
    pub fill_type: FillType,
}

/// An immutable two-dimensional path: a sequence of segment commands and the
/// fill rule chosen when it was finalized.
#[derive(Debug)]
pub struct Path {
    pub verbs: Vec<PathVerb>,
    pub fill_type: FillType,
}

impl View for Path {
    type V = PathV;

    open spec fn view(&self) -> PathV {
        PathV { verbs: self.verbs@, fill_type: self.fill_type }
    }
}

impl Clone for Path {
    fn clone(&self) -> (r: Self)
        ensures
            r@ == self@,
    {
        Path { verbs: clone_copied(&self.verbs), fill_type: self.fill_type }
    }
}

impl Path {
    /// The number of segment commands in the path.
    pub fn verb_count(&self) -> (r: usize)
        ensures
            r == self@.verbs.len(),
    {
        self.verbs.len()
    }
}

/// A mutable path accumulator: the verbs recorded so far and the current
/// cursor position, which move and segment commands update.
#[derive(Debug)]
pub struct PathBuilder {
    pub verbs: Vec<PathVerb>,
    pub cursor: Point,
}

/// The mathematical value of a [`PathBuilder`].
pub ghost struct PathBuilderV {
    pub verbs: Seq<PathVerb>,
    pub cursor: Point,
}

impl View for PathBuilder {
    type V = PathBuilderV;

    open spec fn view(&self) -> PathBuilderV {
        PathBuilderV { verbs: self.verbs@, cursor: self.cursor }
    }
}

impl Default for PathBuilder {
    /// A fresh builder: no verbs, cursor at the origin.
    fn default() -> (r: Self)
        ensures
            r@.verbs == Seq::<PathVerb>::empty(),
            r@.cursor == (Point { x: Scalar { bits: 0 }, y: Scalar { bits: 0 } }),
    {
        PathBuilder {
            verbs: Vec::new(),
            cursor: Point { x: Scalar { bits: 0 }, y: Scalar { bits: 0 } },
        }
    }
}

impl PathBuilder {
    /// Move the cursor to the given location without drawing.
    pub fn move_to(&mut self, location: Point)
        ensures
            final(self)@.verbs == old(self)@.verbs.push(PathVerb::MoveTo { location }),
            final(self)@.cursor == location,
    {
        self.verbs.push(PathVerb::MoveTo { location });
        self.cursor = location;
    }

    /// Add a line segment from the cursor to the given location; the cursor
    /// moves to the endpoint.
    pub fn line_to(&mut self, location: Point)
        ensures
            final(self)@.verbs == old(self)@.verbs.push(PathVerb::LineTo { location }),
            final(self)@.cursor == location,
    {
        self.verbs.push(PathVerb::LineTo { location });
        self.cursor = location;
    }

    /// Add a quadratic curve from the cursor to the end point; the cursor
    /// moves to the end point.
    pub fn quadratic_curve_to(&mut self, control_point: Point, end_point: Point)
        ensures
            final(self)@.verbs == old(self)@.verbs.push(
                PathVerb::QuadraticCurveTo { control_point, end_point },
            ),
            final(self)@.cursor == end_point,
    {
        self.verbs.push(PathVerb::QuadraticCurveTo { control_point, end_point });
        self.cursor = end_point;
    }

    /// Add a cubic curve from the cursor to the end point; the cursor moves
    /// to the end point.
    pub fn cubic_curve_to(&mut self, control_point_1: Point, control_point_2: Point, end_point: Point)
        ensures
            final(self)@.verbs == old(self)@.verbs.push(
                PathVerb::CubicCurveTo { control_point_1, control_point_2, end_point },
            ),
            final(self)@.cursor == end_point,
    {
        self.verbs.push(PathVerb::CubicCurveTo { control_point_1, control_point_2, end_point });
        self.cursor = end_point;
    }

    /// Add a whole rectangle sub-path.  The cursor is left where it was; how
    /// whole-shape sub-paths relate to the cursor is the geometry engine's
    /// own rule.
    pub fn add_rect(&mut self, rect: &Rect)
        ensures
            final(self)@.verbs == old(self)@.verbs.push(PathVerb::AddRect { rect: *rect }),
            final(self)@.cursor == old(self)@.cursor,
    {
        self.verbs.push(PathVerb::AddRect { rect: *rect });
    }

    /// Add an arc of the given oval between two angles as a sub-path.
    pub fn add_arc(&mut self, oval_bounds: &Rect, start_angle_degrees: Scalar, end_angle_degrees: Scalar)
        ensures
            final(self)@.verbs == old(self)@.verbs.push(
                PathVerb::AddArc {
                    oval_bounds: *oval_bounds,
                    start_angle_degrees,
                    end_angle_degrees,
                },
            ),
            final(self)@.cursor == old(self)@.cursor,
    {
        self.verbs.push(
            PathVerb::AddArc { oval_bounds: *oval_bounds, start_angle_degrees, end_angle_degrees },
        );
    }

    /// Add a whole oval sub-path.
    pub fn add_oval(&mut self, oval_bounds: &Rect)
        ensures
            final(self)@.verbs == old(self)@.verbs.push(
                PathVerb::AddOval { oval_bounds: *oval_bounds },
            ),
            final(self)@.cursor == old(self)@.cursor,
    {
        self.verbs.push(PathVerb::AddOval { oval_bounds: *oval_bounds });
    }

    /// Add a whole rounded-rectangle sub-path with per-corner radii.
    pub fn add_rounded_rect(&mut self, oval_bounds: &Rect, rounding_radii: &RoundingRadii)
        ensures
            final(self)@.verbs == old(self)@.verbs.push(
                PathVerb::AddRoundedRect {
                    oval_bounds: *oval_bounds,
                    rounding_radii: *rounding_radii,
                },
            ),
            final(self)@.cursor == old(self)@.cursor,
    {
        self.verbs.push(
            PathVerb::AddRoundedRect { oval_bounds: *oval_bounds, rounding_radii: *rounding_radii },
        );
    }

    /// Close the current sub-path, connecting it back to its start.
    pub fn close(&mut self)
        ensures
            final(self)@.verbs == old(self)@.verbs.push(PathVerb::Close),
            final(self)@.cursor == old(self)@.cursor,
    {
        self.verbs.push(PathVerb::Close);
    }

    /// Produce an immutable path from the accumulated verbs, leaving the
    /// builder intact so more verbs can be added afterwards.
    pub fn copy_path_new(&mut self, fill: FillType) -> (r: Path)
        ensures
            r@ == (PathV { verbs: old(self)@.verbs, fill_type: fill }),
            final(self)@ == old(self)@,
    {
        Path { verbs: clone_copied(&self.verbs), fill_type: fill }
    }

    /// Produce an immutable path from the accumulated verbs and empty the
    /// builder: afterwards it holds no verbs and the cursor is back at the
    /// origin.
    pub fn take_path_new(&mut self, fill: FillType) -> (r: Path)
        ensures
            r@ == (PathV { verbs: old(self)@.verbs, fill_type: fill }),
            final(self)@.verbs == Seq::<PathVerb>::empty(),
            final(self)@.cursor == (Point { x: Scalar { bits: 0 }, y: Scalar { bits: 0 } }),
    {
        let mut verbs: Vec<PathVerb> = Vec::new();
        std::mem::swap(&mut verbs, &mut self.verbs);
        self.cursor = Point { x: Scalar { bits: 0 }, y: Scalar { bits: 0 } };
        Path { verbs, fill_type: fill }
    }
}

} // verus!
