//! The straight line and the tool that draws it.

use vstd::prelude::*;
use crate::input::MouseButton;
use crate::input::UserInput;
use crate::numeric::floor_sqrt;
use crate::paint_object::PaintObjectCommon;
use crate::painter::world_line;
use crate::painter::DrawCommand;
use crate::painter::WorldPainter;
use crate::primitives::distance_squared_of;
use crate::primitives::Camera;
use crate::primitives::Rectangle;
use crate::primitives::Stroke;
use crate::primitives::Vector2;
use crate::primitives::WorldSpace;

verus! {

/// How much longer than the line itself the way from one end over the
/// pointer to the other end may be for the pointer to count as on the line.
pub const LINE_SLACK: u64 = 10;

/// A line between two WORLD points.
#[derive(Clone, Copy, Debug, PartialEq, Eq)]
pub struct StraightLine {
    pub base: PaintObjectCommon,
    pub start: Vector2<WorldSpace>,
    pub end: Vector2<WorldSpace>,
    pub stroke: Stroke<WorldSpace>,
    /// The pointer's last known WORLD position.
    pub mouse_pos: Vector2<WorldSpace>,
}

/// Distance between two points, rounded down to a whole unit.
pub open spec fn whole_distance(a: Vector2<WorldSpace>, b: Vector2<WorldSpace>) -> int {
    floor_sqrt(distance_squared_of(a.x as int, a.y as int, b.x as int, b.y as int))
}

/// One step of choosing the clipped ends: the first crossing found becomes
/// the start, every later one replaces the end.
pub open spec fn clip_step(
    ends: (Option<Vector2<WorldSpace>>, Option<Vector2<WorldSpace>>),
    crossing: Option<Vector2<WorldSpace>>,
) -> (Option<Vector2<WorldSpace>>, Option<Vector2<WorldSpace>>) {
    if crossing is Some {
        if ends.0 is None {
            (crossing, ends.1)
        } else {
            (ends.0, crossing)
        }
    } else {
        ends
    }
}

/// The ends chosen from the four crossings, taken in order.
pub open spec fn clipped_ends(crossings: Seq<Option<Vector2<WorldSpace>>>) -> (
    Option<Vector2<WorldSpace>>,
    Option<Vector2<WorldSpace>>,
) {
    clip_step(
        clip_step(clip_step(clip_step((None, None), crossings[0]), crossings[1]), crossings[2]),
        crossings[3],
    )
}

fn clip_next(
    ends: (Option<Vector2<WorldSpace>>, Option<Vector2<WorldSpace>>),
    crossing: Option<Vector2<WorldSpace>>,
) -> (r: (Option<Vector2<WorldSpace>>, Option<Vector2<WorldSpace>>))
    ensures
        r == clip_step(ends, crossing),
{
    if crossing.is_some() {
        if ends.0.is_none() {
            (crossing, ends.1)
        } else {
            (ends.0, crossing)
        }
    } else {
        ends
    }
}

impl StraightLine {
    /// The perimeter-slack test: the way from the start over the pointer
    /// to the end is less than `LINE_SLACK` longer than the line.
    pub open spec fn spec_is_under_mouse(&self) -> bool {
        whole_distance(self.start, self.mouse_pos) + whole_distance(self.end, self.mouse_pos)
            < whole_distance(self.end, self.start) + LINE_SLACK
    }

    /// The smallest rectangle that holds both ends.
    pub open spec fn spec_bounding_rect(&self) -> Rectangle<WorldSpace> {
        Rectangle::spec_from_points_well_ordered(self.start, self.end)
    }

    /// The line with the pointer position refreshed from `input`.
    pub open spec fn refreshed(&self, input: UserInput, camera: Camera) -> Self {
        match input.spec_mouse_position() {
            Some(position) => StraightLine { mouse_pos: camera.spec_to_world(position), ..*self },
            None => *self,
        }
    }

    pub open spec fn shifted(&self, v: Vector2<WorldSpace>) -> Self {
        StraightLine { start: self.start.spec_plus(v), end: self.end.spec_plus(v), ..*self }
    }

    pub open spec fn resized(&self, rectangle: Rectangle<WorldSpace>) -> Self {
        StraightLine { start: rectangle.p1, end: rectangle.p2, ..*self }
    }

    /// The line cut at the lines that carry the sides of `rectangle`.
    pub open spec fn clipped(&self, crossings: Seq<Option<Vector2<WorldSpace>>>) -> Self {
        StraightLine {
            start: match clipped_ends(crossings).0 {
                Some(p) => p,
                None => self.start,
            },
            end: match clipped_ends(crossings).1 {
                Some(p) => p,
                None => self.end,
            },
            ..*self
        }
    }

    pub open spec fn commands(&self, camera: Camera) -> Seq<DrawCommand> {
        seq![world_line(self.start, self.end, self.stroke, camera)]
    }

    /// Refreshes the cached pointer position from an event that carries one.
    pub fn update(&mut self, input: &UserInput, camera: &Camera)
        requires
            camera.wf(),
        ensures
            *final(self) == old(self).refreshed(*input, *camera),
    {
        if let Some(position) = input.mouse_position() {
            self.mouse_pos = camera.convert_to_world_coordinates(position);
        }
    }

    pub fn draw(&self, painter: &mut WorldPainter, camera: &Camera)
        requires
            camera.wf(),
        ensures
            final(painter).commands@ == old(painter).commands@ + self.commands(*camera),
    {
        painter.draw_line(self.start, self.end, self.stroke, camera);
        assert(painter.commands@ =~= old(painter).commands@ + self.commands(*camera));
    }

    #[verifier::when_used_as_spec(spec_is_under_mouse)]
    pub fn is_under_mouse(&self) -> (r: bool)
        ensures
            r == self.spec_is_under_mouse(),
    {
        let a: u128 = self.start.distance(self.mouse_pos) as u128;
        let b: u128 = self.end.distance(self.mouse_pos) as u128;
        let c: u128 = self.end.distance(self.start) as u128;
        a + b < c + LINE_SLACK as u128
    }

    #[verifier::when_used_as_spec(spec_bounding_rect)]
    pub fn get_bounding_rect(&self) -> (r: Rectangle<WorldSpace>)
        ensures
            r == self.spec_bounding_rect(),
    {
        Rectangle::from_points_well_ordered(self.start, self.end)
    }

    pub fn shift_with(&mut self, p: Vector2<WorldSpace>)
        ensures
            *final(self) == old(self).shifted(p),
    {
        self.start = self.start.plus(p);
        self.end = self.end.plus(p);
    }

    /// Puts the ends on the two corners of `new_size`.
    pub fn resize_to(&mut self, new_size: Rectangle<WorldSpace>)
        ensures
            *final(self) == old(self).resized(new_size),
    {
        self.start = new_size.p1;
        self.end = new_size.p2;
    }

    /// Cuts the line at the lines that carry the sides of `new_size`: of
    /// the crossings, in the order top, right, bottom, left, the first
    /// becomes the start and the last of the others the end.
    pub fn clip_to(&mut self, new_size: Rectangle<WorldSpace>)
        ensures
            *final(self) == old(self).clipped(new_size.crossings(old(self).start, old(self).end)),
    {
        let crossings = new_size.intersection_with_line(self.start, self.end);
        let e0 = clip_next((None, None), crossings[0]);
        let e1 = clip_next(e0, crossings[1]);
        let e2 = clip_next(e1, crossings[2]);
        let e3 = clip_next(e2, crossings[3]);
        if let Some(p) = e3.0 {
            self.start = p;
        }
        if let Some(p) = e3.1 {
            self.end = p;
        }
    }
}

/// The tool that draws a straight line with two clicks.
#[derive(Clone, Copy, Debug, PartialEq, Eq)]
pub struct StraghtLineTool {
    /// The first end, once it has been clicked.
    pub start: Option<Vector2<WorldSpace>>,
    /// The pen of the last step; nothing before the first.
    pub stroke: Option<Stroke<WorldSpace>>,
    pub mouse_pos: Vector2<WorldSpace>,
}

impl Default for StraghtLineTool {
    fn default() -> (r: Self)
        ensures
            r == (StraghtLineTool { start: None, stroke: None, mouse_pos: Vector2::spec_new(0, 0) }),
    {
        StraghtLineTool { start: None, stroke: None, mouse_pos: Vector2::zero() }
    }
}

impl StraghtLineTool {
    /// Whether `input` is a click of the primary button without shift.
    pub open spec fn is_plain_left_click(input: UserInput) -> bool {
        match input {
            UserInput::MouseClick { button, is_shift_down, .. } => button == MouseButton::Left
                && !is_shift_down,
            _ => false,
        }
    }

    /// The line that this step completes, if it completes one: a plain
    /// primary click while a start is recorded.
    pub open spec fn completed(&self, input: UserInput, stroke: Stroke<WorldSpace>, camera: Camera)
        -> Option<StraightLine> {
        if Self::is_plain_left_click(input) && self.start is Some {
            Some(
                StraightLine {
                    base: PaintObjectCommon { is_selected: false },
                    start: self.start->0,
                    end: camera.spec_to_world(input.spec_mouse_position()->0),
                    stroke,
                    mouse_pos: camera.spec_to_world(input.spec_mouse_position()->0),
                },
            )
        } else {
            None
        }
    }

    /// The tool after the step.
    pub open spec fn stepped(&self, input: UserInput, stroke: Stroke<WorldSpace>, camera: Camera)
        -> Self {
        if Self::is_plain_left_click(input) {
            if self.start is Some {
                StraghtLineTool { start: None, stroke: Some(stroke), mouse_pos: self.mouse_pos }
            } else {
                StraghtLineTool {
                    start: Some(camera.spec_to_world(input.spec_mouse_position()->0)),
                    stroke: Some(stroke),
                    mouse_pos: camera.spec_to_world(input.spec_mouse_position()->0),
                }
            }
        } else {
            match input {
                UserInput::MouseMove { position, .. } => StraghtLineTool {
                    start: self.start,
                    stroke: Some(stroke),
                    mouse_pos: camera.spec_to_world(position),
                },
                _ => StraghtLineTool { start: self.start, stroke: Some(stroke), mouse_pos: self.mouse_pos },
            }
        }
    }

    /// The preview: the line from the recorded start to the pointer.
    pub open spec fn commands(&self, camera: Camera) -> Seq<DrawCommand> {
        if self.stroke is Some && self.start is Some {
            seq![world_line(self.start->0, self.mouse_pos, self.stroke->0, camera)]
        } else {
            Seq::empty()
        }
    }

    /// A plain primary click records the start, or, with a start
    /// recorded, completes the line and clears the start.
    pub fn update(&mut self, input: &UserInput, stroke: Stroke<WorldSpace>, camera: &Camera) -> (r:
        Option<StraightLine>)
        requires
            camera.wf(),
        ensures
            r == old(self).completed(*input, stroke, *camera),
            *final(self) == old(self).stepped(*input, stroke, *camera),
    {
        self.stroke = Some(stroke);
        match *input {
            UserInput::MouseMove { position, .. } => {
                self.mouse_pos = camera.convert_to_world_coordinates(position);
                None
            },
            UserInput::MouseClick { position, button, is_shift_down } => {
                if matches!(button, MouseButton::Left) && !is_shift_down {
                    let p = camera.convert_to_world_coordinates(position);
                    if let Some(start) = self.start {
                        self.start = None;
                        Some(
                            StraightLine {
                                base: PaintObjectCommon { is_selected: false },
                                start,
                                end: p,
                                stroke,
                                mouse_pos: p,
                            },
                        )
                    } else {
                        self.start = Some(p);
                        self.mouse_pos = p;
                        None
                    }
                } else {
                    None
                }
            },
            _ => None,
        }
    }

    pub fn draw(&self, painter: &mut WorldPainter, camera: &Camera)
        requires
            camera.wf(),
        ensures
            final(painter).commands@ == old(painter).commands@ + self.commands(*camera),
    {
        if let Some(stroke) = self.stroke {
            if let Some(start) = self.start {
                painter.draw_line(start, self.mouse_pos, stroke, camera);
            }
        }
        assert(painter.commands@ =~= old(painter).commands@ + self.commands(*camera));
    }

    pub fn display_name(&self) -> (r: &'static str)
        ensures
            r@ == "straight line"@,
    {
        "straight line"
    }
}

} // verus!
