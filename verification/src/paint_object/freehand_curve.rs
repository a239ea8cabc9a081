//! The free-hand curve and the tool that draws it.

use vstd::prelude::*;
use vstd::arithmetic::div_mod::lemma_div_is_ordered;
use vstd::arithmetic::div_mod::lemma_div_multiples_vanish;
use crate::input::MouseButton;
use crate::input::UserInput;
use crate::numeric::saturate;
use crate::numeric::saturating_sum;
use crate::paint_object::PaintObjectCommon;
use crate::painter::world_line;
use crate::painter::DrawCommand;
use crate::painter::WorldPainter;
use crate::primitives::distance_squared_of;
use crate::primitives::line_at;
use crate::primitives::solve_line;
use crate::primitives::Camera;
use crate::primitives::Rectangle;
use crate::primitives::Stroke;
use crate::primitives::Vector2;
use crate::primitives::WorldSpace;

verus! {

/// The square of the distance within which the pointer counts as on one of
/// the curve's points.
pub const CURVE_HIT_RADIUS_SQUARED: u128 = 25;

/// A curve through sampled WORLD points, with its bounding box.
#[derive(Debug, PartialEq, Eq)]
pub struct FreehandCurve {
    pub base: PaintObjectCommon,
    pub points: Vec<Vector2<WorldSpace>>,
    /// The pen; nothing until the tool has seen one.
    pub stroke: Option<Stroke<WorldSpace>>,
    pub min_x: i32,
    pub max_x: i32,
    pub min_y: i32,
    pub max_y: i32,
    /// The pointer's last known WORLD position.
    pub mouse_pos: Vector2<WorldSpace>,
}

/// The curve as a mathematical value: its points as a sequence.
pub struct FreehandCurveView {
    pub base: PaintObjectCommon,
    pub points: Seq<Vector2<WorldSpace>>,
    pub stroke: Option<Stroke<WorldSpace>>,
    pub min_x: i32,
    pub max_x: i32,
    pub min_y: i32,
    pub max_y: i32,
    pub mouse_pos: Vector2<WorldSpace>,
}

impl View for FreehandCurve {
    type V = FreehandCurveView;

    open spec fn view(&self) -> FreehandCurveView {
        FreehandCurveView {
            base: self.base,
            points: self.points@,
            stroke: self.stroke,
            min_x: self.min_x,
            max_x: self.max_x,
            min_y: self.min_y,
            max_y: self.max_y,
            mouse_pos: self.mouse_pos,
        }
    }
}

/// A coordinate carried from the span `old_lo..old_hi` to the span
/// `new_lo..new_hi`; a span of no extent collapses onto `new_lo`.
pub open spec fn remapped(v: i32, old_lo: i32, old_hi: i32, new_lo: i32, new_hi: i32) -> i32 {
    if old_lo == old_hi {
        new_lo
    } else {
        saturate(line_at(old_lo as int, new_lo as int, old_hi as int, new_hi as int, v as int))
    }
}

fn remap(v: i32, old_lo: i32, old_hi: i32, new_lo: i32, new_hi: i32) -> (r: i32)
    ensures
        r == remapped(v, old_lo, old_hi, new_lo, new_hi),
{
    if old_lo == old_hi {
        new_lo
    } else {
        solve_line(old_lo, new_lo, old_hi, new_hi, v)
    }
}

impl FreehandCurveView {
    /// A curve without points: its bounding box is inverted, so that the
    /// first point sets all four bounds.
    pub open spec fn empty() -> Self {
        FreehandCurveView {
            base: PaintObjectCommon { is_selected: false },
            points: Seq::empty(),
            stroke: None,
            min_x: i32::MAX,
            max_x: i32::MIN,
            min_y: i32::MAX,
            max_y: i32::MIN,
            mouse_pos: Vector2::spec_new(0, 0),
        }
    }

    pub open spec fn bounding_rect(&self) -> Rectangle<WorldSpace> {
        Rectangle {
            p1: Vector2::spec_new(self.min_x, self.min_y),
            p2: Vector2::spec_new(self.max_x, self.max_y),
        }
    }

    /// Whether the pointer lies within the hit radius of the point `i`.
    pub open spec fn point_is_hit(&self, i: int) -> bool {
        distance_squared_of(
            self.points[i].x as int,
            self.points[i].y as int,
            self.mouse_pos.x as int,
            self.mouse_pos.y as int,
        ) < CURVE_HIT_RADIUS_SQUARED
    }

    /// The pointer is inside the bounding box and within the hit radius
    /// of one of the points.
    pub open spec fn is_under_mouse(&self) -> bool {
        self.bounding_rect().spec_contains_point(self.mouse_pos) && exists|i: int|
            0 <= i < self.points.len() && #[trigger] self.point_is_hit(i)
    }

    /// The curve with the pointer position refreshed from `input`.
    pub open spec fn refreshed(&self, input: UserInput, camera: Camera) -> Self {
        match input.spec_mouse_position() {
            Some(position) => FreehandCurveView {
                mouse_pos: camera.spec_to_world(position),
                ..*self
            },
            None => *self,
        }
    }

    /// The curve moved by `v`: every point and the bounding box. A curve
    /// without points has nothing to move, and keeps its box.
    pub open spec fn shifted(&self, v: Vector2<WorldSpace>) -> Self {
        if self.points.len() == 0 {
            *self
        } else {
            FreehandCurveView {
                points: Seq::new(self.points.len(), |i: int| self.points[i].spec_plus(v)),
                min_x: saturate(self.min_x + v.x),
                max_x: saturate(self.max_x + v.x),
                min_y: saturate(self.min_y + v.y),
                max_y: saturate(self.max_y + v.y),
                ..*self
            }
        }
    }

    /// The point `p` carried from the bounding box to `rectangle`.
    pub open spec fn remapped_point(&self, p: Vector2<WorldSpace>, rectangle: Rectangle<WorldSpace>)
        -> Vector2<WorldSpace> {
        Vector2::spec_new(
            remapped(p.x, self.min_x, self.max_x, rectangle.p1.x, rectangle.p2.x),
            remapped(p.y, self.min_y, self.max_y, rectangle.p1.y, rectangle.p2.y),
        )
    }

    /// Every point carried affinely from the bounding box to `rectangle`,
    /// which becomes the new bounding box.
    pub open spec fn resized(&self, rectangle: Rectangle<WorldSpace>) -> Self {
        FreehandCurveView {
            points: Seq::new(
                self.points.len(),
                |i: int| self.remapped_point(self.points[i], rectangle),
            ),
            min_x: rectangle.p1.x,
            min_y: rectangle.p1.y,
            max_x: rectangle.p2.x,
            max_y: rectangle.p2.y,
            ..*self
        }
    }

    /// The curve with `p` appended and the bounding box grown to hold it.
    pub open spec fn extended(&self, p: Vector2<WorldSpace>) -> Self {
        FreehandCurveView {
            points: self.points.push(p),
            min_x: if p.x < self.min_x { p.x } else { self.min_x },
            min_y: if p.y < self.min_y { p.y } else { self.min_y },
            max_x: if p.x > self.max_x { p.x } else { self.max_x },
            max_y: if p.y > self.max_y { p.y } else { self.max_y },
            ..*self
        }
    }

    /// The number of line segments: one between each two neighbours.
    pub open spec fn segment_count(&self) -> nat {
        if self.points.len() == 0 {
            0
        } else {
            (self.points.len() - 1) as nat
        }
    }

    /// The first `n` segments as drawing commands.
    pub open spec fn segments(&self, n: nat, stroke: Stroke<WorldSpace>, camera: Camera) -> Seq<
        DrawCommand,
    > {
        Seq::new(n, |i: int| world_line(self.points[i], self.points[i + 1], stroke, camera))
    }

    /// One line between each two neighbouring points; nothing without a pen.
    pub open spec fn commands(&self, camera: Camera) -> Seq<DrawCommand> {
        match self.stroke {
            Some(stroke) => self.segments(self.segment_count(), stroke, camera),
            None => Seq::empty(),
        }
    }

    /// Every point lies inside the bounding box.
    pub open spec fn box_holds_points(&self) -> bool {
        forall|i: int|
            0 <= i < self.points.len() ==> #[trigger] self.bounding_rect().spec_contains_point(
                self.points[i],
            )
    }

    /// Some point has the first coordinate `x`.
    pub open spec fn some_point_at_x(&self, x: i32) -> bool {
        exists|i: int| 0 <= i < self.points.len() && (#[trigger] self.points[i]).x == x
    }

    /// Some point has the second coordinate `y`.
    pub open spec fn some_point_at_y(&self, y: i32) -> bool {
        exists|i: int| 0 <= i < self.points.len() && (#[trigger] self.points[i]).y == y
    }

    /// The bounding box of a curve without points: inverted, so that the
    /// first point sets all four bounds.
    pub open spec fn box_is_inverted(&self) -> bool {
        self.min_x == i32::MAX && self.max_x == i32::MIN && self.min_y == i32::MAX && self.max_y
            == i32::MIN
    }

    /// The curve is valid: its bounding box is exactly the extent of its
    /// points. Every point lies inside, and each of the four bounds is
    /// reached by a point. A curve without points has the inverted box.
    pub open spec fn wf(&self) -> bool {
        if self.points.len() == 0 {
            self.box_is_inverted()
        } else {
            self.box_holds_points() && self.some_point_at_x(self.min_x) && self.some_point_at_x(
                self.max_x,
            ) && self.some_point_at_y(self.min_y) && self.some_point_at_y(self.max_y)
        }
    }

    /// The bounding box has a width and a height.
    pub open spec fn has_extent(&self) -> bool {
        self.min_x < self.max_x && self.min_y < self.max_y
    }
}

/// A coordinate inside the old span is carried inside the new one, and the
/// ends of a span with an extent are carried to the ends.
pub proof fn lemma_remapped_within(v: i32, old_lo: i32, old_hi: i32, new_lo: i32, new_hi: i32)
    requires
        old_lo <= v <= old_hi,
        new_lo <= new_hi,
    ensures
        new_lo <= remapped(v, old_lo, old_hi, new_lo, new_hi) <= new_hi,
        old_lo < old_hi && v == old_lo ==> remapped(v, old_lo, old_hi, new_lo, new_hi) == new_lo,
        old_lo < old_hi && v == old_hi ==> remapped(v, old_lo, old_hi, new_lo, new_hi) == new_hi,
{
    if old_lo < old_hi {
        let a = v - old_lo;
        let w = old_hi - old_lo;
        let n = new_hi - new_lo;
        assert(0 <= a * n <= w * n) by (nonlinear_arith)
            requires
                0 <= a <= w,
                0 <= n,
        ;
        assert(w * 0 == 0);
        lemma_div_multiples_vanish(0, w);
        lemma_div_is_ordered(0, a * n, w);
        lemma_div_is_ordered(a * n, w * n, w);
        lemma_div_multiples_vanish(n, w);
        assert(line_at(old_lo as int, new_lo as int, old_hi as int, new_hi as int, v as int)
            == new_lo + (a * n) / w);
        if v == old_lo {
            assert(a * n == 0) by (nonlinear_arith)
                requires
                    a == 0,
            ;
        }
        if v == old_hi {
            assert(a * n == w * n) by (nonlinear_arith)
                requires
                    a == w,
            ;
        }
    }
}

/// Appending a point keeps a curve valid.
pub proof fn lemma_extended_is_valid(curve: FreehandCurveView, p: Vector2<WorldSpace>)
    requires
        curve.wf(),
    ensures
        curve.extended(p).wf(),
{
    let grown = curve.extended(p);
    let last = curve.points.len() as int;
    assert(grown.points[last] == p);
    assert forall|i: int| 0 <= i < grown.points.len() implies #[trigger] grown.bounding_rect().spec_contains_point(
        grown.points[i],
    ) by {
        if i < last {
            assert(curve.bounding_rect().spec_contains_point(curve.points[i]));
        }
    }
    if last > 0 {
        let a = choose|i: int| 0 <= i < curve.points.len() && (#[trigger] curve.points[i]).x
            == curve.min_x;
        let b = choose|i: int| 0 <= i < curve.points.len() && (#[trigger] curve.points[i]).x
            == curve.max_x;
        let c = choose|i: int| 0 <= i < curve.points.len() && (#[trigger] curve.points[i]).y
            == curve.min_y;
        let d = choose|i: int| 0 <= i < curve.points.len() && (#[trigger] curve.points[i]).y
            == curve.max_y;
        assert(grown.points[a] == curve.points[a]);
        assert(grown.points[b] == curve.points[b]);
        assert(grown.points[c] == curve.points[c]);
        assert(grown.points[d] == curve.points[d]);
    }
    assert(grown.some_point_at_x(grown.min_x));
    assert(grown.some_point_at_x(grown.max_x));
    assert(grown.some_point_at_y(grown.min_y));
    assert(grown.some_point_at_y(grown.max_y));
}

/// Moving a curve keeps it valid, and keeps its points inside its box.
pub proof fn lemma_shifted_is_valid(curve: FreehandCurveView, v: Vector2<WorldSpace>)
    ensures
        curve.box_holds_points() ==> curve.shifted(v).box_holds_points(),
        curve.wf() ==> curve.shifted(v).wf(),
{
    let moved = curve.shifted(v);
    if curve.points.len() > 0 {
        if curve.box_holds_points() {
            assert forall|i: int| 0 <= i < moved.points.len() implies #[trigger] moved.bounding_rect().spec_contains_point(
                moved.points[i],
            ) by {
                assert(curve.bounding_rect().spec_contains_point(curve.points[i]));
            }
        }
        if curve.wf() {
            let a = choose|i: int| 0 <= i < curve.points.len() && (#[trigger] curve.points[i]).x
                == curve.min_x;
            let b = choose|i: int| 0 <= i < curve.points.len() && (#[trigger] curve.points[i]).x
                == curve.max_x;
            let c = choose|i: int| 0 <= i < curve.points.len() && (#[trigger] curve.points[i]).y
                == curve.min_y;
            let d = choose|i: int| 0 <= i < curve.points.len() && (#[trigger] curve.points[i]).y
                == curve.max_y;
            assert(moved.points[a].x == moved.min_x);
            assert(moved.points[b].x == moved.max_x);
            assert(moved.points[c].y == moved.min_y);
            assert(moved.points[d].y == moved.max_y);
        }
    }
}

/// Fitting a curve to a rectangle whose corners are in order keeps its
/// points inside its box. If the curve was valid and had a width and a
/// height, it is valid afterwards. A curve without a width or a height
/// collapses onto one side of the rectangle, which its points then do not
/// span.
pub proof fn lemma_resized_is_valid(curve: FreehandCurveView, rectangle: Rectangle<WorldSpace>)
    requires
        rectangle.p1.x <= rectangle.p2.x,
        rectangle.p1.y <= rectangle.p2.y,
    ensures
        curve.box_holds_points() ==> curve.resized(rectangle).box_holds_points(),
        curve.wf() && curve.has_extent() ==> curve.resized(rectangle).wf(),
{
    let fitted = curve.resized(rectangle);
    if curve.box_holds_points() {
        assert forall|i: int| 0 <= i < fitted.points.len() implies #[trigger] fitted.bounding_rect().spec_contains_point(
            fitted.points[i],
        ) by {
            assert(curve.bounding_rect().spec_contains_point(curve.points[i]));
            lemma_remapped_within(
                curve.points[i].x,
                curve.min_x,
                curve.max_x,
                rectangle.p1.x,
                rectangle.p2.x,
            );
            lemma_remapped_within(
                curve.points[i].y,
                curve.min_y,
                curve.max_y,
                rectangle.p1.y,
                rectangle.p2.y,
            );
        }
    }
    if curve.wf() && curve.has_extent() {
        let a = choose|i: int| 0 <= i < curve.points.len() && (#[trigger] curve.points[i]).x
            == curve.min_x;
        let b = choose|i: int| 0 <= i < curve.points.len() && (#[trigger] curve.points[i]).x
            == curve.max_x;
        let c = choose|i: int| 0 <= i < curve.points.len() && (#[trigger] curve.points[i]).y
            == curve.min_y;
        let d = choose|i: int| 0 <= i < curve.points.len() && (#[trigger] curve.points[i]).y
            == curve.max_y;
        lemma_remapped_within(curve.min_x, curve.min_x, curve.max_x, rectangle.p1.x, rectangle.p2.x);
        lemma_remapped_within(curve.max_x, curve.min_x, curve.max_x, rectangle.p1.x, rectangle.p2.x);
        lemma_remapped_within(curve.min_y, curve.min_y, curve.max_y, rectangle.p1.y, rectangle.p2.y);
        lemma_remapped_within(curve.max_y, curve.min_y, curve.max_y, rectangle.p1.y, rectangle.p2.y);
        assert(fitted.points[a].x == fitted.min_x);
        assert(fitted.points[b].x == fitted.max_x);
        assert(fitted.points[c].y == fitted.min_y);
        assert(fitted.points[d].y == fitted.max_y);
    }
}

impl FreehandCurve {
    /// A curve without points.
    pub fn new() -> (r: Self)
        ensures
            r@ == FreehandCurveView::empty(),
            r@.wf(),
    {
        FreehandCurve {
            base: PaintObjectCommon { is_selected: false },
            points: Vec::new(),
            stroke: None,
            min_x: i32::MAX,
            max_x: i32::MIN,
            min_y: i32::MAX,
            max_y: i32::MIN,
            mouse_pos: Vector2::zero(),
        }
    }

    /// Refreshes the cached pointer position from an event that carries one.
    pub fn update(&mut self, input: &UserInput, camera: &Camera)
        requires
            camera.wf(),
        ensures
            final(self)@ == old(self)@.refreshed(*input, *camera),
    {
        if let Some(position) = input.mouse_position() {
            self.mouse_pos = camera.convert_to_world_coordinates(position);
        }
    }

    pub fn draw(&self, painter: &mut WorldPainter, camera: &Camera)
        requires
            camera.wf(),
        ensures
            final(painter).commands@ == old(painter).commands@ + self@.commands(*camera),
    {
        if let Some(stroke) = self.stroke {
            let n = self.points.len();
            let mut i: usize = 0;
            while i + 1 < n
                invariant
                    n == self.points.len(),
                    camera.wf(),
                    self.stroke == Some(stroke),
                    i <= self@.segment_count(),
                    painter.commands@ == old(painter).commands@ + self@.segments(
                        i as nat,
                        stroke,
                        *camera,
                    ),
                decreases n - i,
            {
                painter.draw_line(self.points[i], self.points[i + 1], stroke, camera);
                i = i + 1;
                assert(painter.commands@ =~= old(painter).commands@ + self@.segments(
                    i as nat,
                    stroke,
                    *camera,
                ));
            }
            assert(i == self@.segment_count());
        } else {
            assert(painter.commands@ =~= old(painter).commands@ + self@.commands(*camera));
        }
    }

    pub fn is_under_mouse(&self) -> (r: bool)
        ensures
            r == self@.is_under_mouse(),
    {
        if self.get_bounding_rect().contains_point(self.mouse_pos) {
            let n = self.points.len();
            let mut i: usize = 0;
            while i < n
                invariant
                    n == self.points.len(),
                    i <= n,
                    self@.bounding_rect().spec_contains_point(self.mouse_pos),
                    forall|j: int| 0 <= j < i ==> !#[trigger] self@.point_is_hit(j),
                decreases n - i,
            {
                if self.points[i].distance_squared(self.mouse_pos) < CURVE_HIT_RADIUS_SQUARED {
                    assert(self@.point_is_hit(i as int));
                    return true;
                }
                i = i + 1;
            }
        }
        false
    }

    pub fn get_bounding_rect(&self) -> (r: Rectangle<WorldSpace>)
        ensures
            r == self@.bounding_rect(),
    {
        Rectangle {
            p1: Vector2::new(self.min_x, self.min_y),
            p2: Vector2::new(self.max_x, self.max_y),
        }
    }

    /// Moves every point and the bounding box by `p`. A curve without
    /// points stays as it is.
    pub fn shift_with(&mut self, p: Vector2<WorldSpace>)
        ensures
            final(self)@ == old(self)@.shifted(p),
            old(self)@.box_holds_points() ==> final(self)@.box_holds_points(),
            old(self)@.wf() ==> final(self)@.wf(),
    {
        proof {
            lemma_shifted_is_valid(old(self)@, p);
        }
        let n = self.points.len();
        if n == 0 {
            return ;
        }
        let mut i: usize = 0;
        while i < n
            invariant
                n == self.points.len(),
                n == old(self).points.len(),
                i <= n,
                self.base == old(self).base,
                self.stroke == old(self).stroke,
                self.mouse_pos == old(self).mouse_pos,
                self.min_x == old(self).min_x,
                self.max_x == old(self).max_x,
                self.min_y == old(self).min_y,
                self.max_y == old(self).max_y,
                forall|j: int| 0 <= j < i ==> self.points@[j] == old(self).points@[j].spec_plus(p),
                forall|j: int| i <= j < n ==> self.points@[j] == old(self).points@[j],
            decreases n - i,
        {
            let moved = self.points[i].plus(p);
            self.points.set(i, moved);
            i = i + 1;
        }
        self.min_x = saturating_sum(self.min_x, p.x);
        self.min_y = saturating_sum(self.min_y, p.y);
        self.max_x = saturating_sum(self.max_x, p.x);
        self.max_y = saturating_sum(self.max_y, p.y);
        assert(self@.points =~= old(self)@.shifted(p).points);
    }

    /// Carries every point from the old bounding box to `new_size`. A
    /// bounding box of no width or height collapses onto the new one's
    /// left or top side.
    pub fn resize_to(&mut self, new_size: Rectangle<WorldSpace>)
        ensures
            final(self)@ == old(self)@.resized(new_size),
            old(self)@.box_holds_points() && new_size.p1.x <= new_size.p2.x && new_size.p1.y
                <= new_size.p2.y ==> final(self)@.box_holds_points(),
            old(self)@.wf() && old(self)@.has_extent() && new_size.p1.x <= new_size.p2.x
                && new_size.p1.y <= new_size.p2.y ==> final(self)@.wf(),
    {
        proof {
            if new_size.p1.x <= new_size.p2.x && new_size.p1.y <= new_size.p2.y {
                lemma_resized_is_valid(old(self)@, new_size);
            }
        }
        let n = self.points.len();
        let mut i: usize = 0;
        while i < n
            invariant
                n == self.points.len(),
                n == old(self).points.len(),
                i <= n,
                self.base == old(self).base,
                self.stroke == old(self).stroke,
                self.mouse_pos == old(self).mouse_pos,
                self.min_x == old(self).min_x,
                self.max_x == old(self).max_x,
                self.min_y == old(self).min_y,
                self.max_y == old(self).max_y,
                forall|j: int|
                    0 <= j < i ==> self.points@[j] == old(self)@.remapped_point(
                        old(self).points@[j],
                        new_size,
                    ),
                forall|j: int| i <= j < n ==> self.points@[j] == old(self).points@[j],
            decreases n - i,
        {
            let point = self.points[i];
            let x = remap(point.x, self.min_x, self.max_x, new_size.p1.x, new_size.p2.x);
            let y = remap(point.y, self.min_y, self.max_y, new_size.p1.y, new_size.p2.y);
            self.points.set(i, Vector2::new(x, y));
            i = i + 1;
        }
        self.min_x = new_size.p1.x;
        self.min_y = new_size.p1.y;
        self.max_x = new_size.p2.x;
        self.max_y = new_size.p2.y;
        assert(self@.points =~= old(self)@.resized(new_size).points);
    }

    /// Appends `p` and grows the bounding box to hold it.
    pub fn push_point(&mut self, p: Vector2<WorldSpace>)
        ensures
            final(self)@ == old(self)@.extended(p),
            old(self)@.box_holds_points() ==> final(self)@.box_holds_points(),
            old(self)@.wf() ==> final(self)@.wf(),
    {
        proof {
            if old(self)@.wf() {
                lemma_extended_is_valid(old(self)@, p);
            }
        }
        self.points.push(p);
        if p.x < self.min_x {
            self.min_x = p.x;
        }
        if p.y < self.min_y {
            self.min_y = p.y;
        }
        if p.x > self.max_x {
            self.max_x = p.x;
        }
        if p.y > self.max_y {
            self.max_y = p.y;
        }
        proof {
            if old(self)@.box_holds_points() {
                assert forall|i: int| 0 <= i < self@.points.len() implies #[trigger] self@.bounding_rect().spec_contains_point(
                    self@.points[i],
                ) by {
                    if i < old(self)@.points.len() {
                        assert(old(self)@.bounding_rect().spec_contains_point(old(self)@.points[i]));
                    }
                }
            }
        }
    }
}

/// The tool that draws a free-hand curve while the primary button is held.
#[derive(Debug, PartialEq, Eq)]
pub struct FreehandCurveTool {
    /// The curve in progress.
    pub curve: FreehandCurve,
}

impl Default for FreehandCurveTool {
    fn default() -> (r: Self)
        ensures
            r.curve@ == FreehandCurveView::empty(),
            Self::valid(r.curve@),
    {
        FreehandCurveTool { curve: FreehandCurve::new() }
    }
}

impl FreehandCurveTool {
    /// The curve in progress is valid: its box is exactly the extent of
    /// its points, and it is not selected.
    pub open spec fn valid(curve: FreehandCurveView) -> bool {
        curve.wf() && !curve.base.is_selected
    }

    /// The WORLD point that `input` appends: the pointer position of a
    /// move with the primary button held and shift not held.
    pub open spec fn drawn_point(input: UserInput, camera: Camera) -> Option<Vector2<WorldSpace>> {
        match input {
            UserInput::MouseMove { position, button, is_shift_down, .. } => if button
                == MouseButton::Left && !is_shift_down {
                Some(camera.spec_to_world(position))
            } else {
                None
            },
            _ => None,
        }
    }

    /// Whether `p` differs from the last point of `points`, or there is none.
    pub open spec fn is_new_point(points: Seq<Vector2<WorldSpace>>, p: Vector2<WorldSpace>) -> bool {
        points.len() == 0 || points.last().x != p.x || points.last().y != p.y
    }

    /// The curve in progress with the step's pen.
    pub open spec fn inked(curve: FreehandCurveView, stroke: Stroke<WorldSpace>)
        -> FreehandCurveView {
        FreehandCurveView { stroke: Some(stroke), ..curve }
    }

    /// The curve that the step completes, if it completes one: any input
    /// that draws no point, while the curve in progress has points.
    pub open spec fn completed(curve: FreehandCurveView, input: UserInput, stroke: Stroke<WorldSpace>, camera: Camera)
        -> Option<FreehandCurveView> {
        if Self::drawn_point(input, camera) is None && curve.points.len() > 0 {
            Some(Self::inked(curve, stroke))
        } else {
            None
        }
    }

    /// The curve in progress after the step.
    pub open spec fn stepped(curve: FreehandCurveView, input: UserInput, stroke: Stroke<WorldSpace>, camera: Camera)
        -> FreehandCurveView {
        match Self::drawn_point(input, camera) {
            Some(p) => if Self::is_new_point(curve.points, p) {
                Self::inked(curve, stroke).extended(p)
            } else {
                Self::inked(curve, stroke)
            },
            None => if curve.points.len() > 0 {
                FreehandCurveView::empty()
            } else {
                Self::inked(curve, stroke)
            },
        }
    }

    /// A move with the primary button held and shift not held appends the
    /// pointer's WORLD position, unless it repeats the last point. Any other
    /// input completes the curve in progress, if it has points, and starts
    /// an empty one.
    pub fn update(&mut self, input: &UserInput, stroke: Stroke<WorldSpace>, camera: &Camera) -> (r:
        Option<FreehandCurve>)
        requires
            camera.wf(),
        ensures
            final(self).curve@ == Self::stepped(old(self).curve@, *input, stroke, *camera),
            match Self::completed(old(self).curve@, *input, stroke, *camera) {
                Some(curve) => r is Some && r->0@ == curve,
                None => r is None,
            },
            Self::valid(old(self).curve@) ==> Self::valid(final(self).curve@),
            r is Some ==> r->0@.points.len() > 0,
            Self::valid(old(self).curve@) && r is Some ==> r->0@.wf() && !r->0@.base.is_selected,
    {
        self.curve.stroke = Some(stroke);
        let drawn = match *input {
            UserInput::MouseMove { position, button, is_shift_down, .. } => {
                if matches!(button, MouseButton::Left) && !is_shift_down {
                    Some(camera.convert_to_world_coordinates(position))
                } else {
                    None
                }
            },
            _ => None,
        };
        match drawn {
            Some(p) => {
                let n = self.curve.points.len();
                if n == 0 || !self.curve.points[n - 1].same_point(p) {
                    self.curve.push_point(p);
                }
                None
            },
            None => {
                if self.curve.points.len() > 0 {
                    let mut finished = FreehandCurve::new();
                    std::mem::swap(&mut self.curve, &mut finished);
                    Some(finished)
                } else {
                    None
                }
            },
        }
    }

    /// The preview: the curve in progress.
    pub fn draw(&self, painter: &mut WorldPainter, camera: &Camera)
        requires
            camera.wf(),
        ensures
            final(painter).commands@ == old(painter).commands@ + self.curve@.commands(*camera),
    {
        self.curve.draw(painter, camera);
    }

    pub fn display_name(&self) -> (r: &'static str)
        ensures
            r@ == "free-hand curve"@,
    {
        "free-hand curve"
    }
}

} // verus!
