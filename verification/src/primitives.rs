//! Geometry primitives and the camera.
//!
//! Every coordinate is a whole number of units held in an `i32`; arithmetic
//! saturates at the ends of that range. Each value carries the coordinate
//! space it belongs to as a type parameter, so WORLD and SCREEN values only
//! meet inside [`Camera`].

use vstd::prelude::*;
use std::marker::PhantomData;
use crate::numeric::saturate;
use crate::numeric::saturate_wide;
use crate::numeric::saturating_sum;
use crate::numeric::saturating_difference;
use crate::numeric::floor_div;
use crate::numeric::floor_sqrt;
use crate::numeric::isqrt;

verus! {

/// Marker of a coordinate space.
pub trait Tag: Clone + Copy {
}

/// The zoom- and pan-independent space in which geometry is stored.
#[derive(Clone, Copy, Debug, PartialEq, Eq)]
pub struct WorldSpace;

impl Tag for WorldSpace {
}

/// The viewport's pixel space.
#[derive(Clone, Copy, Debug, PartialEq, Eq)]
pub struct ScreenSpace;

impl Tag for ScreenSpace {
}

/// A length or size in the space `T`.
#[derive(Copy, Debug, PartialEq, Eq)]
pub struct Number<T: Tag> {
    pub value: i32,
    pub tag: PhantomData<T>,
}

impl<T: Tag> Clone for Number<T> {
    fn clone(&self) -> (r: Self)
        ensures
            r == *self,
    {
        *self
    }
}

impl<T: Tag> Number<T> {
    pub open spec fn spec_new(value: i32) -> Self {
        Number { value, tag: PhantomData }
    }

    #[verifier::when_used_as_spec(spec_new)]
    pub fn new(value: i32) -> (r: Self)
        ensures
            r == Self::spec_new(value),
    {
        Number { value, tag: PhantomData }
    }

    /// Saturating sum.
    pub fn plus(self, other: Self) -> (r: Self)
        ensures
            r == Self::spec_new(saturate(self.value + other.value)),
    {
        Self::new(saturating_sum(self.value, other.value))
    }

    /// Saturating difference.
    pub fn minus(self, other: Self) -> (r: Self)
        ensures
            r == Self::spec_new(saturate(self.value - other.value)),
    {
        Self::new(saturating_difference(self.value, other.value))
    }
}

/// A point or a displacement in the space `T`.
#[derive(Copy, Debug, PartialEq, Eq)]
pub struct Vector2<T: Tag> {
    pub x: i32,
    pub y: i32,
    pub tag: PhantomData<T>,
}

impl<T: Tag> Clone for Vector2<T> {
    fn clone(&self) -> (r: Self)
        ensures
            r == *self,
    {
        *self
    }
}

/// Squared Euclidean distance between `(ax, ay)` and `(bx, by)`.
pub open spec fn distance_squared_of(ax: int, ay: int, bx: int, by: int) -> int {
    (ax - bx) * (ax - bx) + (ay - by) * (ay - by)
}

impl<T: Tag> Vector2<T> {
    pub open spec fn spec_new(x: i32, y: i32) -> Self {
        Vector2 { x, y, tag: PhantomData }
    }

    #[verifier::when_used_as_spec(spec_new)]
    pub fn new(x: i32, y: i32) -> (r: Self)
        ensures
            r == Self::spec_new(x, y),
    {
        Vector2 { x, y, tag: PhantomData }
    }

    pub fn zero() -> (r: Self)
        ensures
            r == Self::spec_new(0, 0),
    {
        Self::new(0, 0)
    }

    /// Componentwise saturating sum.
    pub open spec fn spec_plus(self, other: Self) -> Self {
        Self::spec_new(saturate(self.x + other.x), saturate(self.y + other.y))
    }

    /// Componentwise saturating difference.
    pub open spec fn spec_minus(self, other: Self) -> Self {
        Self::spec_new(saturate(self.x - other.x), saturate(self.y - other.y))
    }

    #[verifier::when_used_as_spec(spec_plus)]
    pub fn plus(self, other: Self) -> (r: Self)
        ensures
            r == self.spec_plus(other),
    {
        Self::new(saturating_sum(self.x, other.x), saturating_sum(self.y, other.y))
    }

    #[verifier::when_used_as_spec(spec_minus)]
    pub fn minus(self, other: Self) -> (r: Self)
        ensures
            r == self.spec_minus(other),
    {
        Self::new(saturating_difference(self.x, other.x), saturating_difference(self.y, other.y))
    }

    /// Whether both coordinates agree.
    pub fn same_point(self, other: Self) -> (r: bool)
        ensures
            r == (self.x == other.x && self.y == other.y),
    {
        self.x == other.x && self.y == other.y
    }

    /// Squared length, exact.
    pub fn length_squared(&self) -> (r: u64)
        ensures
            r == self.x * self.x + self.y * self.y,
    {
        let r = squared_distance(self.x, self.y, 0, 0);
        assert(self.x * self.x + self.y * self.y <= 0x8000_0000_0000_0000) by (nonlinear_arith)
            requires
                -0x8000_0000 <= self.x <= 0x7fff_ffff,
                -0x8000_0000 <= self.y <= 0x7fff_ffff,
        ;
        r as u64
    }

    /// Length, rounded down to a whole unit.
    pub fn length(&self) -> (r: u64)
        ensures
            r == floor_sqrt(self.x * self.x + self.y * self.y),
    {
        isqrt(squared_distance(self.x, self.y, 0, 0))
    }

    /// Squared distance to `other`, exact.
    pub fn distance_squared(&self, other: Self) -> (r: u128)
        ensures
            r == distance_squared_of(self.x as int, self.y as int, other.x as int, other.y as int),
    {
        squared_distance(self.x, self.y, other.x, other.y)
    }

    /// Distance to `other`, rounded down to a whole unit.
    pub fn distance(&self, other: Self) -> (r: u64)
        ensures
            r == floor_sqrt(
                distance_squared_of(self.x as int, self.y as int, other.x as int, other.y as int),
            ),
    {
        isqrt(squared_distance(self.x, self.y, other.x, other.y))
    }
}

/// Squared distance between two points given by their coordinates.
pub fn squared_distance(ax: i32, ay: i32, bx: i32, by: i32) -> (r: u128)
    ensures
        r == distance_squared_of(ax as int, ay as int, bx as int, by as int),
        r <= 0x2_0000_0000_0000_0000,
{
    let dx: i128 = ax as i128 - bx as i128;
    let dy: i128 = ay as i128 - by as i128;
    assert(0 <= dx * dx <= 0x1_0000_0000_0000_0000) by (nonlinear_arith)
        requires
            -0x1_0000_0000 <= dx <= 0x1_0000_0000,
    ;
    assert(0 <= dy * dy <= 0x1_0000_0000_0000_0000) by (nonlinear_arith)
        requires
            -0x1_0000_0000 <= dy <= 0x1_0000_0000,
    ;
    let s: i128 = dx * dx + dy * dy;
    s as u128
}

/// One of the four corners of a rectangle.
#[derive(Clone, Copy, Debug, PartialEq, Eq)]
pub enum RectangleVertex {
    TopLeft,
    TopRight,
    BottomLeft,
    BottomRight,
}

/// An axis-aligned rectangle given by two corners; `p1` is meant to be the
/// top-left one and `p2` the bottom-right one.
#[derive(Clone, Copy, Debug, PartialEq, Eq)]
pub struct Rectangle<T: Tag> {
    pub p1: Vector2<T>,
    pub p2: Vector2<T>,
}

/// Whether the point `(px, py)` lies strictly within `radius` of `(vx, vy)`.
pub open spec fn within_radius(vx: int, vy: int, px: int, py: int, radius: int) -> bool {
    distance_squared_of(vx, vy, px, py) < radius * radius
}

/// Where the line through `(x0, y0)` and `(x1, y1)` meets the coordinate
/// `at` of the first axis, measured along the second axis and rounded down.
pub open spec fn line_at(x0: int, y0: int, x1: int, y1: int, at: int) -> int {
    if x1 > x0 {
        y0 + ((at - x0) * (y1 - y0)) / (x1 - x0)
    } else {
        y0 + ((x0 - at) * (y1 - y0)) / (x0 - x1)
    }
}

fn near<T: Tag>(vertex: Vector2<T>, point: Vector2<T>, radius: Number<T>) -> (r: bool)
    ensures
        r == within_radius(
            vertex.x as int,
            vertex.y as int,
            point.x as int,
            point.y as int,
            radius.value as int,
        ),
{
    let d = vertex.distance_squared(point);
    let rr: i128 = radius.value as i128;
    assert(0 <= rr * rr <= 0x4000_0000_0000_0000) by (nonlinear_arith)
        requires
            -0x8000_0000 <= rr <= 0x7fff_ffff,
    ;
    let limit: i128 = rr * rr;
    d < limit as u128
}

pub fn solve_line(x0: i32, y0: i32, x1: i32, y1: i32, at: i32) -> (r: i32)
    requires
        x0 != x1,
    ensures
        r == saturate(line_at(x0 as int, y0 as int, x1 as int, y1 as int, at as int)),
{
    let rise: i128 = y1 as i128 - y0 as i128;
    if x1 > x0 {
        let run: i128 = x1 as i128 - x0 as i128;
        let along: i128 = at as i128 - x0 as i128;
        assert(-0x1_0000_0000_0000_0000 <= along * rise <= 0x1_0000_0000_0000_0000)
            by (nonlinear_arith)
            requires
                -0x1_0000_0000 <= along <= 0x1_0000_0000,
                -0x1_0000_0000 <= rise <= 0x1_0000_0000,
        ;
        let q = floor_div(along * rise, run);
        assert(-0x1_0000_0000_0000_0000 <= q <= 0x1_0000_0000_0000_0000) by (nonlinear_arith)
            requires
                q == (along * rise) / (run as int),
                run >= 1,
                -0x1_0000_0000_0000_0000 <= along * rise <= 0x1_0000_0000_0000_0000,
        ;
        saturate_wide(y0 as i128 + q)
    } else {
        let run: i128 = x0 as i128 - x1 as i128;
        let along: i128 = x0 as i128 - at as i128;
        assert(-0x1_0000_0000_0000_0000 <= along * rise <= 0x1_0000_0000_0000_0000)
            by (nonlinear_arith)
            requires
                -0x1_0000_0000 <= along <= 0x1_0000_0000,
                -0x1_0000_0000 <= rise <= 0x1_0000_0000,
        ;
        let q = floor_div(along * rise, run);
        assert(-0x1_0000_0000_0000_0000 <= q <= 0x1_0000_0000_0000_0000) by (nonlinear_arith)
            requires
                q == (along * rise) / (run as int),
                run >= 1,
                -0x1_0000_0000_0000_0000 <= along * rise <= 0x1_0000_0000_0000_0000,
        ;
        saturate_wide(y0 as i128 + q)
    }
}

impl<T: Tag> Rectangle<T> {
    /// The rectangle with top-left corner `p` and the given extent.
    pub open spec fn spec_from_point_and_size(p: Vector2<T>, width: Number<T>, height: Number<T>)
        -> Self {
        Rectangle { p1: p, p2: p.spec_plus(Vector2::spec_new(width.value, height.value)) }
    }

    #[verifier::when_used_as_spec(spec_from_point_and_size)]
    pub fn from_point_and_size(p: Vector2<T>, width: Number<T>, height: Number<T>) -> (r: Self)
        ensures
            r == Self::spec_from_point_and_size(p, width, height),
    {
        Rectangle { p1: p, p2: p.plus(Vector2::new(width.value, height.value)) }
    }

    /// The rectangle spanned by two arbitrary corners, normalised so that
    /// `p1` holds the minima and `p2` the maxima.
    pub open spec fn spec_from_points_well_ordered(p1: Vector2<T>, p2: Vector2<T>) -> Self {
        Rectangle {
            p1: Vector2::spec_new(
                if p1.x <= p2.x { p1.x } else { p2.x },
                if p1.y <= p2.y { p1.y } else { p2.y },
            ),
            p2: Vector2::spec_new(
                if p1.x <= p2.x { p2.x } else { p1.x },
                if p1.y <= p2.y { p2.y } else { p1.y },
            ),
        }
    }

    #[verifier::when_used_as_spec(spec_from_points_well_ordered)]
    pub fn from_points_well_ordered(p1: Vector2<T>, p2: Vector2<T>) -> (r: Self)
        ensures
            r == Self::spec_from_points_well_ordered(p1, p2),
            r.p1.x <= r.p2.x,
            r.p1.y <= r.p2.y,
    {
        let x1: i32 = if p1.x <= p2.x { p1.x } else { p2.x };
        let x2: i32 = if p1.x <= p2.x { p2.x } else { p1.x };
        let y1: i32 = if p1.y <= p2.y { p1.y } else { p2.y };
        let y2: i32 = if p1.y <= p2.y { p2.y } else { p1.y };
        Rectangle { p1: Vector2::new(x1, y1), p2: Vector2::new(x2, y2) }
    }

    /// Containment, borders included.
    pub open spec fn spec_contains_point(&self, p: Vector2<T>) -> bool {
        self.p1.x <= p.x && p.x <= self.p2.x && self.p1.y <= p.y && p.y <= self.p2.y
    }

    #[verifier::when_used_as_spec(spec_contains_point)]
    pub fn contains_point(&self, p: Vector2<T>) -> (r: bool)
        ensures
            r == self.spec_contains_point(p),
    {
        self.p1.x <= p.x && p.x <= self.p2.x && self.p1.y <= p.y && p.y <= self.p2.y
    }

    /// Both corners moved by `v`.
    pub open spec fn spec_shifted_with(self, v: Vector2<T>) -> Self {
        Rectangle { p1: self.p1.spec_plus(v), p2: self.p2.spec_plus(v) }
    }

    #[verifier::when_used_as_spec(spec_shifted_with)]
    pub fn shifted_with(self, v: Vector2<T>) -> (r: Self)
        ensures
            r == self.spec_shifted_with(v),
    {
        Rectangle { p1: self.p1.plus(v), p2: self.p2.plus(v) }
    }

    /// Horizontal extent, saturating.
    pub fn width(&self) -> (r: Number<T>)
        ensures
            r == Number::<T>::spec_new(saturate(self.p2.x - self.p1.x)),
    {
        Number::new(saturating_difference(self.p2.x, self.p1.x))
    }

    /// Vertical extent, saturating.
    pub fn height(&self) -> (r: Number<T>)
        ensures
            r == Number::<T>::spec_new(saturate(self.p2.y - self.p1.y)),
    {
        Number::new(saturating_difference(self.p2.y, self.p1.y))
    }

    /// The position of one corner.
    pub open spec fn spec_vertex(&self, vertex: RectangleVertex) -> Vector2<T> {
        match vertex {
            RectangleVertex::TopLeft => self.p1,
            RectangleVertex::TopRight => Vector2::spec_new(self.p2.x, self.p1.y),
            RectangleVertex::BottomRight => self.p2,
            RectangleVertex::BottomLeft => Vector2::spec_new(self.p1.x, self.p2.y),
        }
    }

    #[verifier::when_used_as_spec(spec_vertex)]
    pub fn vertex(&self, vertex: RectangleVertex) -> (r: Vector2<T>)
        ensures
            r == self.spec_vertex(vertex),
    {
        match vertex {
            RectangleVertex::TopLeft => self.p1,
            RectangleVertex::TopRight => Vector2::new(self.p2.x, self.p1.y),
            RectangleVertex::BottomRight => self.p2,
            RectangleVertex::BottomLeft => Vector2::new(self.p1.x, self.p2.y),
        }
    }

    /// The four corners: top-left, top-right, bottom-right, bottom-left.
    pub fn vertices(&self) -> (r: [Vector2<T>; 4])
        ensures
            r@ == seq![
                self.spec_vertex(RectangleVertex::TopLeft),
                self.spec_vertex(RectangleVertex::TopRight),
                self.spec_vertex(RectangleVertex::BottomRight),
                self.spec_vertex(RectangleVertex::BottomLeft),
            ],
    {
        let r = [
            self.p1,
            Vector2::new(self.p2.x, self.p1.y),
            self.p2,
            Vector2::new(self.p1.x, self.p2.y),
        ];
        assert(r@ =~= seq![
            self.spec_vertex(RectangleVertex::TopLeft),
            self.spec_vertex(RectangleVertex::TopRight),
            self.spec_vertex(RectangleVertex::BottomRight),
            self.spec_vertex(RectangleVertex::BottomLeft),
        ]);
        r
    }

    /// Whether `point` lies strictly within `radius` of the given corner.
    pub open spec fn vertex_is_under(
        &self,
        vertex: RectangleVertex,
        point: Vector2<T>,
        radius: Number<T>,
    ) -> bool {
        within_radius(
            self.spec_vertex(vertex).x as int,
            self.spec_vertex(vertex).y as int,
            point.x as int,
            point.y as int,
            radius.value as int,
        )
    }

    /// The first corner, in the order top-left, top-right, bottom-right,
    /// bottom-left, that lies strictly within `radius` of `point`.
    pub open spec fn spec_vertex_under_point(&self, point: Vector2<T>, radius: Number<T>) -> Option<
        RectangleVertex,
    > {
        if self.vertex_is_under(RectangleVertex::TopLeft, point, radius) {
            Some(RectangleVertex::TopLeft)
        } else if self.vertex_is_under(RectangleVertex::TopRight, point, radius) {
            Some(RectangleVertex::TopRight)
        } else if self.vertex_is_under(RectangleVertex::BottomRight, point, radius) {
            Some(RectangleVertex::BottomRight)
        } else if self.vertex_is_under(RectangleVertex::BottomLeft, point, radius) {
            Some(RectangleVertex::BottomLeft)
        } else {
            None
        }
    }

    #[verifier::when_used_as_spec(spec_vertex_under_point)]
    pub fn vertex_under_point(&self, point: Vector2<T>, radius: Number<T>) -> (r: Option<
        RectangleVertex,
    >)
        ensures
            r == self.spec_vertex_under_point(point, radius),
    {
        if near(self.vertex(RectangleVertex::TopLeft), point, radius) {
            Some(RectangleVertex::TopLeft)
        } else if near(self.vertex(RectangleVertex::TopRight), point, radius) {
            Some(RectangleVertex::TopRight)
        } else if near(self.vertex(RectangleVertex::BottomRight), point, radius) {
            Some(RectangleVertex::BottomRight)
        } else if near(self.vertex(RectangleVertex::BottomLeft), point, radius) {
            Some(RectangleVertex::BottomLeft)
        } else {
            None
        }
    }

    /// The rectangle after the given corner is dragged by `drag_delta`: only
    /// the coordinates of that corner move, the opposite corner stays.
    pub open spec fn spec_resize_by_dragging_vertex(
        &self,
        vertex: RectangleVertex,
        drag_delta: Vector2<T>,
    ) -> Self {
        match vertex {
            RectangleVertex::TopLeft => Rectangle { p1: self.p1.spec_plus(drag_delta), p2: self.p2 },
            RectangleVertex::TopRight => Rectangle {
                p1: Vector2::spec_new(self.p1.x, saturate(self.p1.y + drag_delta.y)),
                p2: Vector2::spec_new(saturate(self.p2.x + drag_delta.x), self.p2.y),
            },
            RectangleVertex::BottomLeft => Rectangle {
                p1: Vector2::spec_new(saturate(self.p1.x + drag_delta.x), self.p1.y),
                p2: Vector2::spec_new(self.p2.x, saturate(self.p2.y + drag_delta.y)),
            },
            RectangleVertex::BottomRight => Rectangle {
                p1: self.p1,
                p2: self.p2.spec_plus(drag_delta),
            },
        }
    }

    #[verifier::when_used_as_spec(spec_resize_by_dragging_vertex)]
    pub fn resize_by_dragging_vertex(&self, vertex: RectangleVertex, drag_delta: Vector2<T>) -> (r:
        Self)
        ensures
            r == self.spec_resize_by_dragging_vertex(vertex, drag_delta),
    {
        match vertex {
            RectangleVertex::TopLeft => Rectangle { p1: self.p1.plus(drag_delta), p2: self.p2 },
            RectangleVertex::TopRight => Rectangle {
                p1: Vector2::new(self.p1.x, saturating_sum(self.p1.y, drag_delta.y)),
                p2: Vector2::new(saturating_sum(self.p2.x, drag_delta.x), self.p2.y),
            },
            RectangleVertex::BottomLeft => Rectangle {
                p1: Vector2::new(saturating_sum(self.p1.x, drag_delta.x), self.p1.y),
                p2: Vector2::new(self.p2.x, saturating_sum(self.p2.y, drag_delta.y)),
            },
            RectangleVertex::BottomRight => Rectangle { p1: self.p1, p2: self.p2.plus(drag_delta) },
        }
    }

    /// Where the line through `start` and `end` meets the horizontal line
    /// `y = at`; nothing when the line is itself horizontal.
    pub open spec fn horizontal_crossing(start: Vector2<T>, end: Vector2<T>, at: i32) -> Option<
        Vector2<T>,
    > {
        if start.y == end.y {
            None
        } else {
            Some(
                Vector2::spec_new(
                    saturate(
                        line_at(
                            start.y as int,
                            start.x as int,
                            end.y as int,
                            end.x as int,
                            at as int,
                        ),
                    ),
                    at,
                ),
            )
        }
    }

    /// Where the line through `start` and `end` meets the vertical line
    /// `x = at`; nothing when the line is itself vertical.
    pub open spec fn vertical_crossing(start: Vector2<T>, end: Vector2<T>, at: i32) -> Option<
        Vector2<T>,
    > {
        if start.x == end.x {
            None
        } else {
            Some(
                Vector2::spec_new(
                    at,
                    saturate(
                        line_at(
                            start.x as int,
                            start.y as int,
                            end.x as int,
                            end.y as int,
                            at as int,
                        ),
                    ),
                ),
            )
        }
    }

    /// The crossings of the line through `start` and `end` with the lines
    /// that carry the four sides, in the order top, right, bottom, left.
    pub open spec fn crossings(&self, start: Vector2<T>, end: Vector2<T>) -> Seq<
        Option<Vector2<T>>,
    > {
        seq![
            Self::horizontal_crossing(start, end, self.p1.y),
            Self::vertical_crossing(start, end, self.p2.x),
            Self::horizontal_crossing(start, end, self.p2.y),
            Self::vertical_crossing(start, end, self.p1.x),
        ]
    }

    /// The crossings of the line through `start` and `end` with the lines
    /// that carry the four sides, in the order top, right, bottom, left. A
    /// side that the line runs parallel to has no crossing.
    pub fn intersection_with_line(&self, start: Vector2<T>, end: Vector2<T>) -> (r: [Option<
        Vector2<T>,
    >; 4])
        ensures
            r@ == self.crossings(start, end),
    {
        let top = if start.y == end.y {
            None
        } else {
            Some(Vector2::new(solve_line(start.y, start.x, end.y, end.x, self.p1.y), self.p1.y))
        };
        let right = if start.x == end.x {
            None
        } else {
            Some(Vector2::new(self.p2.x, solve_line(start.x, start.y, end.x, end.y, self.p2.x)))
        };
        let bottom = if start.y == end.y {
            None
        } else {
            Some(Vector2::new(solve_line(start.y, start.x, end.y, end.x, self.p2.y), self.p2.y))
        };
        let left = if start.x == end.x {
            None
        } else {
            Some(Vector2::new(self.p1.x, solve_line(start.x, start.y, end.x, end.y, self.p1.x)))
        };
        let r = [top, right, bottom, left];
        assert(r@ =~= seq![
            Self::horizontal_crossing(start, end, self.p1.y),
            Self::vertical_crossing(start, end, self.p2.x),
            Self::horizontal_crossing(start, end, self.p2.y),
            Self::vertical_crossing(start, end, self.p1.x),
        ]);
        r
    }
}

/// An RGBA colour.
#[derive(Clone, Copy, Debug, PartialEq, Eq)]
pub struct Color {
    pub red: u8,
    pub green: u8,
    pub blue: u8,
    pub alpha: u8,
}

impl Color {
    /// An opaque colour.
    pub fn from_rgb(red: u8, green: u8, blue: u8) -> (r: Self)
        ensures
            r == (Color { red, green, blue, alpha: 255 }),
    {
        Color { red, green, blue, alpha: 255 }
    }

    /// The complementary colour, with the same opacity.
    pub fn inverse(&self) -> (r: Self)
        ensures
            r == self.spec_inverse(),
    {
        Color {
            red: 255 - self.red,
            green: 255 - self.green,
            blue: 255 - self.blue,
            alpha: self.alpha,
        }
    }

    pub open spec fn spec_inverse(&self) -> Self {
        Color {
            red: (255 - self.red) as u8,
            green: (255 - self.green) as u8,
            blue: (255 - self.blue) as u8,
            alpha: self.alpha,
        }
    }
}

/// A pen: a colour and a thickness in the space `T`.
#[derive(Clone, Copy, Debug, PartialEq, Eq)]
pub struct Stroke<T: Tag> {
    pub color: Color,
    pub thickness: Number<T>,
}

impl<T: Tag> Stroke<T> {
    pub fn new(color: Color, thickness: Number<T>) -> (r: Self)
        ensures
            r == (Stroke { color, thickness }),
    {
        Stroke { color, thickness }
    }
}

/// The zoom value that shows one WORLD unit as one SCREEN unit. Zoom is a
/// fixed-point factor counted in thousandths.
pub const ZOOM_UNIT: i32 = 1000;

/// The smallest zoom the camera accepts; zoom never reaches zero.
pub const ZOOM_MIN: i32 = 1;

/// A WORLD length shown at `zoom`, rounded down.
pub open spec fn scaled_to_screen(d: int, zoom: int) -> int {
    (d * zoom) / (ZOOM_UNIT as int)
}

/// The WORLD length that a SCREEN length stands for at `zoom`, rounded down.
pub open spec fn scaled_to_world(d: int, zoom: int) -> int {
    (d * ZOOM_UNIT) / zoom
}

/// The least WORLD length that covers a SCREEN length at `zoom`: the
/// quotient rounded up.
pub open spec fn scaled_to_world_rounded_up(d: int, zoom: int) -> int {
    (d * ZOOM_UNIT + zoom - 1) / zoom
}

fn scale_to_world_rounded_up(d: i128, zoom: i32) -> (r: i128)
    requires
        -0x2_0000_0000 <= d <= 0x2_0000_0000,
        zoom >= 1,
    ensures
        r == scaled_to_world_rounded_up(d as int, zoom as int),
        -0x1_0000_0000_0000_0000 <= r <= 0x1_0000_0000_0000_0000,
{
    let z: i128 = zoom as i128;
    let q = floor_div(d * 1000 + z - 1, z);
    assert(-0x1_0000_0000_0000_0000 <= q <= 0x1_0000_0000_0000_0000) by (nonlinear_arith)
        requires
            q == (d * 1000 + z - 1) / (z as int),
            z >= 1,
            -0x1_0000_0000_0000 <= d * 1000 + z - 1 <= 0x1_0000_0000_0000,
    ;
    q
}

fn scale_to_screen(d: i128, zoom: i32) -> (r: i128)
    requires
        -0x2_0000_0000 <= d <= 0x2_0000_0000,
        zoom >= 1,
    ensures
        r == scaled_to_screen(d as int, zoom as int),
        -0x1_0000_0000_0000_0000 <= r <= 0x1_0000_0000_0000_0000,
{
    let z: i128 = zoom as i128;
    assert(-0x1_0000_0000_0000_0000 <= d * z <= 0x1_0000_0000_0000_0000) by (nonlinear_arith)
        requires
            -0x2_0000_0000 <= d <= 0x2_0000_0000,
            1 <= z <= 0x7fff_ffff,
    ;
    let q = floor_div(d * z, 1000);
    q
}

fn scale_to_world(d: i128, zoom: i32) -> (r: i128)
    requires
        -0x2_0000_0000 <= d <= 0x2_0000_0000,
        zoom >= 1,
    ensures
        r == scaled_to_world(d as int, zoom as int),
        -0x1_0000_0000_0000_0000 <= r <= 0x1_0000_0000_0000_0000,
{
    let z: i128 = zoom as i128;
    let q = floor_div(d * 1000, z);
    assert(-0x1_0000_0000_0000_0000 <= q <= 0x1_0000_0000_0000_0000) by (nonlinear_arith)
        requires
            q == (d * 1000) / (z as int),
            z >= 1,
            -0x1_0000_0000_0000 <= d * 1000 <= 0x1_0000_0000_0000,
    ;
    q
}

/// The mapping between WORLD and SCREEN: the WORLD point at the centre of
/// the view, the SCREEN position of that centre, and the zoom factor.
#[derive(Clone, Copy, Debug, PartialEq, Eq)]
pub struct Camera {
    pub position: Vector2<WorldSpace>,
    pub offset: Vector2<ScreenSpace>,
    pub zoom: i32,
}

impl Default for Camera {
    fn default() -> (r: Self)
        ensures
            r == Camera::initial(),
    {
        Camera { position: Vector2::zero(), offset: Vector2::zero(), zoom: ZOOM_UNIT }
    }
}

impl Camera {
    /// The camera of a fresh scene: centred on the origin, zoom one.
    pub open spec fn initial() -> Self {
        Camera {
            position: Vector2::spec_new(0, 0),
            offset: Vector2::spec_new(0, 0),
            zoom: ZOOM_UNIT,
        }
    }

    /// The zoom is positive.
    pub open spec fn wf(&self) -> bool {
        self.zoom >= ZOOM_MIN
    }

    pub open spec fn spec_to_screen(&self, point: Vector2<WorldSpace>) -> Vector2<ScreenSpace> {
        Vector2::spec_new(
            saturate(scaled_to_screen(point.x - self.position.x, self.zoom as int) + self.offset.x),
            saturate(scaled_to_screen(point.y - self.position.y, self.zoom as int) + self.offset.y),
        )
    }

    pub open spec fn spec_to_world(&self, point: Vector2<ScreenSpace>) -> Vector2<WorldSpace> {
        Vector2::spec_new(
            saturate(scaled_to_world(point.x - self.offset.x, self.zoom as int) + self.position.x),
            saturate(scaled_to_world(point.y - self.offset.y, self.zoom as int) + self.position.y),
        )
    }

    pub open spec fn spec_distance_to_world(&self, distance: Vector2<ScreenSpace>) -> Vector2<
        WorldSpace,
    > {
        Vector2::spec_new(
            saturate(scaled_to_world(distance.x as int, self.zoom as int)),
            saturate(scaled_to_world(distance.y as int, self.zoom as int)),
        )
    }

    pub open spec fn spec_size_to_world(&self, size: Number<ScreenSpace>) -> Number<WorldSpace> {
        Number::spec_new(saturate(scaled_to_world(size.value as int, self.zoom as int)))
    }

    pub open spec fn spec_size_to_world_rounded_up(&self, size: Number<ScreenSpace>) -> Number<
        WorldSpace,
    > {
        Number::spec_new(saturate(scaled_to_world_rounded_up(size.value as int, self.zoom as int)))
    }

    pub open spec fn spec_size_to_screen(&self, size: Number<WorldSpace>) -> Number<ScreenSpace> {
        Number::spec_new(saturate(scaled_to_screen(size.value as int, self.zoom as int)))
    }

    pub open spec fn spec_stroke_to_screen(&self, stroke: Stroke<WorldSpace>) -> Stroke<
        ScreenSpace,
    > {
        Stroke { color: stroke.color, thickness: self.spec_size_to_screen(stroke.thickness) }
    }

    /// `(point - position) * zoom + offset`.
    pub fn convert_to_screen_coordinates(&self, point: Vector2<WorldSpace>) -> (r: Vector2<
        ScreenSpace,
    >)
        requires
            self.wf(),
        ensures
            r == self.spec_to_screen(point),
    {
        let dx: i128 = point.x as i128 - self.position.x as i128;
        let dy: i128 = point.y as i128 - self.position.y as i128;
        let sx = scale_to_screen(dx, self.zoom);
        let sy = scale_to_screen(dy, self.zoom);
        Vector2::new(
            saturate_wide(sx + self.offset.x as i128),
            saturate_wide(sy + self.offset.y as i128),
        )
    }

    /// `(point - offset) / zoom + position`.
    pub fn convert_to_world_coordinates(&self, point: Vector2<ScreenSpace>) -> (r: Vector2<
        WorldSpace,
    >)
        requires
            self.wf(),
        ensures
            r == self.spec_to_world(point),
    {
        let dx: i128 = point.x as i128 - self.offset.x as i128;
        let dy: i128 = point.y as i128 - self.offset.y as i128;
        let wx = scale_to_world(dx, self.zoom);
        let wy = scale_to_world(dy, self.zoom);
        Vector2::new(
            saturate_wide(wx + self.position.x as i128),
            saturate_wide(wy + self.position.y as i128),
        )
    }

    /// `distance / zoom`: a displacement keeps no offset.
    pub fn distance_to_world_coordinates(&self, distance: Vector2<ScreenSpace>) -> (r: Vector2<
        WorldSpace,
    >)
        requires
            self.wf(),
        ensures
            r == self.spec_distance_to_world(distance),
    {
        let wx = scale_to_world(distance.x as i128, self.zoom);
        let wy = scale_to_world(distance.y as i128, self.zoom);
        Vector2::new(saturate_wide(wx), saturate_wide(wy))
    }

    /// `size / zoom`.
    pub fn size_to_world_coordinates(&self, size: Number<ScreenSpace>) -> (r: Number<WorldSpace>)
        requires
            self.wf(),
        ensures
            r == self.spec_size_to_world(size),
    {
        Number::new(saturate_wide(scale_to_world(size.value as i128, self.zoom)))
    }

    /// `size / zoom`, rounded up: the least WORLD size that is no smaller on
    /// screen than `size`.
    pub fn size_to_world_coordinates_rounded_up(&self, size: Number<ScreenSpace>) -> (r: Number<
        WorldSpace,
    >)
        requires
            self.wf(),
        ensures
            r == self.spec_size_to_world_rounded_up(size),
    {
        Number::new(saturate_wide(scale_to_world_rounded_up(size.value as i128, self.zoom)))
    }

    /// `size * zoom`.
    pub fn size_to_screen_coordinates(&self, size: Number<WorldSpace>) -> (r: Number<ScreenSpace>)
        requires
            self.wf(),
        ensures
            r == self.spec_size_to_screen(size),
    {
        Number::new(saturate_wide(scale_to_screen(size.value as i128, self.zoom)))
    }

    /// The same pen with its thickness brought to SCREEN units.
    pub fn stroke_to_screen_coordinates(&self, stroke: Stroke<WorldSpace>) -> (r: Stroke<
        ScreenSpace,
    >)
        requires
            self.wf(),
        ensures
            r == self.spec_stroke_to_screen(stroke),
    {
        Stroke { color: stroke.color, thickness: self.size_to_screen_coordinates(stroke.thickness) }
    }

    /// The zoom after a zoom input: the saturating sum, held at `ZOOM_MIN`
    /// from below.
    pub open spec fn zoom_after(zoom: i32, delta: i32) -> i32 {
        if saturate(zoom + delta) < ZOOM_MIN {
            ZOOM_MIN
        } else {
            saturate(zoom + delta)
        }
    }

    /// Applies a zoom input.
    pub fn zoom_by(&mut self, delta: i32)
        ensures
            final(self).zoom == Self::zoom_after(old(self).zoom, delta),
            final(self).position == old(self).position,
            final(self).offset == old(self).offset,
            final(self).wf(),
    {
        let z = saturating_sum(self.zoom, delta);
        self.zoom = if z < ZOOM_MIN { ZOOM_MIN } else { z };
    }

    /// Applies a pan input: the centre moves by the SCREEN displacement
    /// brought to WORLD units.
    pub fn pan_by(&mut self, delta: Vector2<ScreenSpace>)
        requires
            old(self).wf(),
        ensures
            final(self).position == old(self).position.spec_plus(
                old(self).spec_distance_to_world(delta),
            ),
            final(self).zoom == old(self).zoom,
            final(self).offset == old(self).offset,
    {
        let d = self.distance_to_world_coordinates(delta);
        self.position = self.position.plus(d);
    }
}

/// Zoom linearity: as long as nothing saturates, a point that lies `d` WORLD
/// units from the camera's position along an axis is shown `d * zoom` SCREEN
/// units (in thousandths, rounded down) from the view's centre along that
/// axis, and a size is scaled by the same factor. At a whole-number zoom `k`
/// the displacement is exactly `d * k`.
pub proof fn lemma_zoom_linearity(camera: Camera, point: Vector2<WorldSpace>, k: int)
    requires
        camera.wf(),
        saturate(scaled_to_screen(point.x - camera.position.x, camera.zoom as int) + camera.offset.x)
            == scaled_to_screen(point.x - camera.position.x, camera.zoom as int) + camera.offset.x,
        saturate(scaled_to_screen(point.y - camera.position.y, camera.zoom as int) + camera.offset.y)
            == scaled_to_screen(point.y - camera.position.y, camera.zoom as int) + camera.offset.y,
    ensures
        camera.spec_to_screen(point).x - camera.offset.x == ((point.x - camera.position.x)
            * camera.zoom) / (ZOOM_UNIT as int),
        camera.spec_to_screen(point).y - camera.offset.y == ((point.y - camera.position.y)
            * camera.zoom) / (ZOOM_UNIT as int),
        camera.zoom == k * ZOOM_UNIT ==> camera.spec_to_screen(point).x - camera.offset.x == (
        point.x - camera.position.x) * k,
        camera.zoom == k * ZOOM_UNIT ==> camera.spec_to_screen(point).y - camera.offset.y == (
        point.y - camera.position.y) * k,
{
    if camera.zoom == k * ZOOM_UNIT {
        lemma_whole_zoom(point.x - camera.position.x, k);
        lemma_whole_zoom(point.y - camera.position.y, k);
    }
}

/// Sizes, such as a circle's radius, scale by the zoom factor: exactly
/// `size * k` at a whole-number zoom `k`, as long as nothing saturates.
pub proof fn lemma_size_scales_with_zoom(camera: Camera, size: Number<WorldSpace>, k: int)
    requires
        camera.wf(),
        camera.zoom == k * ZOOM_UNIT,
        i32::MIN <= size.value * k <= i32::MAX,
    ensures
        camera.spec_size_to_screen(size).value == size.value * k,
{
    lemma_whole_zoom(size.value as int, k);
}

/// At a whole-number zoom the fixed-point scaling is an exact product.
pub proof fn lemma_whole_zoom(d: int, k: int)
    ensures
        scaled_to_screen(d, k * ZOOM_UNIT) == d * k,
{
    assert(d * (k * 1000) == 1000 * (d * k)) by (nonlinear_arith);
    vstd::arithmetic::div_mod::lemma_div_multiples_vanish(d * k, 1000);
}

/// At a whole-number zoom, taking a point to the screen and back gives
/// the point again, as long as nothing saturates on the way.
pub proof fn lemma_world_is_inverse_of_screen(camera: Camera, point: Vector2<WorldSpace>, k: int)
    requires
        camera.wf(),
        camera.zoom == k * ZOOM_UNIT,
        i32::MIN <= (point.x - camera.position.x) * k + camera.offset.x <= i32::MAX,
        i32::MIN <= (point.y - camera.position.y) * k + camera.offset.y <= i32::MAX,
    ensures
        camera.spec_to_world(camera.spec_to_screen(point)).x == point.x,
        camera.spec_to_world(camera.spec_to_screen(point)).y == point.y,
{
    lemma_whole_zoom(point.x - camera.position.x, k);
    lemma_whole_zoom(point.y - camera.position.y, k);
    lemma_whole_zoom_back(point.x - camera.position.x, k);
    lemma_whole_zoom_back(point.y - camera.position.y, k);
}

/// At a whole-number zoom `k`, a SCREEN length `d * k` stands for the WORLD
/// length `d`.
pub proof fn lemma_whole_zoom_back(d: int, k: int)
    requires
        k >= 1,
    ensures
        scaled_to_world(d * k, k * ZOOM_UNIT) == d,
{
    assert(d * k * 1000 == (k * 1000) * d) by (nonlinear_arith);
    vstd::arithmetic::div_mod::lemma_div_multiples_vanish(d, k * 1000);
}

/// A positive SCREEN size, rounded up to WORLD units, is at least one unit
/// at every zoom, and never more than the size at the smallest zoom.
pub proof fn lemma_rounded_up_size_is_positive(camera: Camera, size: Number<ScreenSpace>)
    requires
        camera.wf(),
        size.value >= 1,
    ensures
        1 <= scaled_to_world_rounded_up(size.value as int, camera.zoom as int) <= size.value
            * ZOOM_UNIT,
{
    let z = camera.zoom as int;
    let n = size.value * 1000 + z - 1;
    vstd::arithmetic::div_mod::lemma_div_is_ordered(z, n, z);
    vstd::arithmetic::div_mod::lemma_div_multiples_vanish(1, z);
    assert(z * 1 == z);
    assert(z * (size.value * 1000) >= n) by (nonlinear_arith)
        requires
            z >= 1,
            size.value >= 1,
            n == size.value * 1000 + z - 1,
    ;
    vstd::arithmetic::div_mod::lemma_div_is_ordered(n, z * (size.value * 1000), z);
    vstd::arithmetic::div_mod::lemma_div_multiples_vanish(size.value * 1000, z);
}

/// At a zoom of one or more, a WORLD length taken to the screen and back
/// loses less than one unit, and gains nothing.
pub proof fn lemma_there_and_back_loses_less_than_a_unit(d: int, zoom: int)
    requires
        zoom >= ZOOM_UNIT,
    ensures
        d - 1 <= scaled_to_world(scaled_to_screen(d, zoom), zoom) <= d,
{
    let s = (d * zoom) / 1000;
    let r = (d * zoom) % 1000;
    vstd::arithmetic::div_mod::lemma_fundamental_div_mod(d * zoom, 1000);
    vstd::arithmetic::div_mod::lemma_mod_bound(d * zoom, 1000);
    assert(d * zoom == 1000 * s + r);
    assert((d - 1) * zoom <= s * 1000 <= d * zoom) by (nonlinear_arith)
        requires
            d * zoom == 1000 * s + r,
            0 <= r < 1000,
            zoom >= 1000,
    ;
    assert(zoom * d == d * zoom && zoom * (d - 1) == (d - 1) * zoom) by (nonlinear_arith);
    vstd::arithmetic::div_mod::lemma_div_is_ordered(s * 1000, zoom * d, zoom);
    vstd::arithmetic::div_mod::lemma_div_multiples_vanish(d, zoom);
    vstd::arithmetic::div_mod::lemma_div_is_ordered(zoom * (d - 1), s * 1000, zoom);
    vstd::arithmetic::div_mod::lemma_div_multiples_vanish(d - 1, zoom);
}

/// At a zoom of one or more, taking a point to the screen and back gives
/// the point again or the one a unit below it along each axis, as long as
/// nothing saturates on the way to the screen.
pub proof fn lemma_world_is_nearly_inverse_of_screen(camera: Camera, point: Vector2<WorldSpace>)
    requires
        camera.zoom >= ZOOM_UNIT,
        i32::MIN <= scaled_to_screen(point.x - camera.position.x, camera.zoom as int)
            + camera.offset.x <= i32::MAX,
        i32::MIN <= scaled_to_screen(point.y - camera.position.y, camera.zoom as int)
            + camera.offset.y <= i32::MAX,
    ensures
        point.x - 1 <= camera.spec_to_world(camera.spec_to_screen(point)).x <= point.x,
        point.y - 1 <= camera.spec_to_world(camera.spec_to_screen(point)).y <= point.y,
{
    lemma_there_and_back_loses_less_than_a_unit(point.x - camera.position.x, camera.zoom as int);
    lemma_there_and_back_loses_less_than_a_unit(point.y - camera.position.y, camera.zoom as int);
}

/// Pan conversion: a pan by the SCREEN displacement `v` moves the camera's
/// position by `v / zoom` WORLD units along each axis, as long as the sum
/// stays inside the coordinate range.
pub proof fn lemma_pan_conversion(camera: Camera, v: Vector2<ScreenSpace>)
    requires
        camera.wf(),
        i32::MIN <= scaled_to_world(v.x as int, camera.zoom as int) <= i32::MAX,
        i32::MIN <= scaled_to_world(v.y as int, camera.zoom as int) <= i32::MAX,
        i32::MIN <= camera.position.x + scaled_to_world(v.x as int, camera.zoom as int) <= i32::MAX,
        i32::MIN <= camera.position.y + scaled_to_world(v.y as int, camera.zoom as int) <= i32::MAX,
    ensures
        camera.position.spec_plus(camera.spec_distance_to_world(v)).x == camera.position.x + (v.x
            * ZOOM_UNIT) / (camera.zoom as int),
        camera.position.spec_plus(camera.spec_distance_to_world(v)).y == camera.position.y + (v.y
            * ZOOM_UNIT) / (camera.zoom as int),
{
}

} // verus!
