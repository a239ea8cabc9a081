//! Scene objects: the closed set of shapes that the engine selects, moves,
//! resizes, deletes and draws.

use vstd::prelude::*;
use crate::input::UserInput;
use crate::paint_object::freehand_curve::FreehandCurve;
use crate::paint_object::freehand_curve::FreehandCurveView;
use crate::paint_object::picture::Picture;
use crate::paint_object::straight_line::StraightLine;
use crate::painter::DrawCommand;
use crate::painter::WorldPainter;
use crate::primitives::Camera;
use crate::primitives::Rectangle;
use crate::primitives::Vector2;
use crate::primitives::WorldSpace;

pub mod freehand_curve;
pub mod image_format;
pub mod picture;
pub mod straight_line;

verus! {

/// What every scene object carries.
#[derive(Clone, Copy, Debug, PartialEq, Eq)]
pub struct PaintObjectCommon {
    pub is_selected: bool,
}

impl Default for PaintObjectCommon {
    fn default() -> (r: Self)
        ensures
            r == (PaintObjectCommon { is_selected: false }),
    {
        PaintObjectCommon { is_selected: false }
    }
}

/// A scene object of one of the three kinds.
#[derive(Debug, PartialEq, Eq)]
pub enum PaintObject {
    Curve(FreehandCurve),
    Line(StraightLine),
    Picture(Picture),
}

/// A scene object as a mathematical value.
pub enum PaintObjectView {
    Curve(FreehandCurveView),
    Line(StraightLine),
    Picture(Picture),
}

impl View for PaintObject {
    type V = PaintObjectView;

    open spec fn view(&self) -> PaintObjectView {
        match *self {
            PaintObject::Curve(curve) => PaintObjectView::Curve(curve@),
            PaintObject::Line(line) => PaintObjectView::Line(line),
            PaintObject::Picture(picture) => PaintObjectView::Picture(picture),
        }
    }
}

impl PaintObjectView {
    pub open spec fn is_selected(&self) -> bool {
        match *self {
            PaintObjectView::Curve(curve) => curve.base.is_selected,
            PaintObjectView::Line(line) => line.base.is_selected,
            PaintObjectView::Picture(picture) => picture.base.is_selected,
        }
    }

    /// The same object with its selection flag set to `value`.
    pub open spec fn with_selected(&self, value: bool) -> Self {
        match *self {
            PaintObjectView::Curve(curve) => PaintObjectView::Curve(
                FreehandCurveView { base: PaintObjectCommon { is_selected: value }, ..curve },
            ),
            PaintObjectView::Line(line) => PaintObjectView::Line(
                StraightLine { base: PaintObjectCommon { is_selected: value }, ..line },
            ),
            PaintObjectView::Picture(picture) => PaintObjectView::Picture(
                Picture { base: PaintObjectCommon { is_selected: value }, ..picture },
            ),
        }
    }

    /// The same object with the pointer position refreshed from `input`.
    pub open spec fn refreshed(&self, input: UserInput, camera: Camera) -> Self {
        match *self {
            PaintObjectView::Curve(curve) => PaintObjectView::Curve(curve.refreshed(input, camera)),
            PaintObjectView::Line(line) => PaintObjectView::Line(line.refreshed(input, camera)),
            PaintObjectView::Picture(picture) => PaintObjectView::Picture(
                picture.refreshed(input, camera),
            ),
        }
    }

    /// Whether the cached pointer position hits the object.
    pub open spec fn is_under_mouse(&self) -> bool {
        match *self {
            PaintObjectView::Curve(curve) => curve.is_under_mouse(),
            PaintObjectView::Line(line) => line.spec_is_under_mouse(),
            PaintObjectView::Picture(picture) => picture.spec_is_under_mouse(),
        }
    }

    pub open spec fn bounding_rect(&self) -> Rectangle<WorldSpace> {
        match *self {
            PaintObjectView::Curve(curve) => curve.bounding_rect(),
            PaintObjectView::Line(line) => line.spec_bounding_rect(),
            PaintObjectView::Picture(picture) => picture.bounding_rect,
        }
    }

    /// The object moved by `v`.
    pub open spec fn shifted(&self, v: Vector2<WorldSpace>) -> Self {
        match *self {
            PaintObjectView::Curve(curve) => PaintObjectView::Curve(curve.shifted(v)),
            PaintObjectView::Line(line) => PaintObjectView::Line(line.shifted(v)),
            PaintObjectView::Picture(picture) => PaintObjectView::Picture(picture.shifted(v)),
        }
    }

    /// The object fitted to `rectangle`.
    pub open spec fn resized(&self, rectangle: Rectangle<WorldSpace>) -> Self {
        match *self {
            PaintObjectView::Curve(curve) => PaintObjectView::Curve(curve.resized(rectangle)),
            PaintObjectView::Line(line) => PaintObjectView::Line(line.resized(rectangle)),
            PaintObjectView::Picture(picture) => PaintObjectView::Picture(
                picture.resized(rectangle),
            ),
        }
    }

    /// The object is valid: a curve's bounding box is exactly the extent of
    /// its points. Lines and pictures are always valid.
    pub open spec fn wf(&self) -> bool {
        match *self {
            PaintObjectView::Curve(curve) => curve.wf(),
            _ => true,
        }
    }

    /// The commands that draw the object.
    pub open spec fn commands(&self, camera: Camera) -> Seq<DrawCommand> {
        match *self {
            PaintObjectView::Curve(curve) => curve.commands(camera),
            PaintObjectView::Line(line) => line.commands(camera),
            PaintObjectView::Picture(picture) => picture.commands(camera),
        }
    }
}

impl PaintObject {
    pub fn is_selected(&self) -> (r: bool)
        ensures
            r == self@.is_selected(),
    {
        match self {
            PaintObject::Curve(curve) => curve.base.is_selected,
            PaintObject::Line(line) => line.base.is_selected,
            PaintObject::Picture(picture) => picture.base.is_selected,
        }
    }

    pub fn set_selected(&mut self, value: bool)
        ensures
            final(self)@ == old(self)@.with_selected(value),
    {
        match self {
            PaintObject::Curve(curve) => {
                curve.base.is_selected = value;
            },
            PaintObject::Line(line) => {
                line.base.is_selected = value;
            },
            PaintObject::Picture(picture) => {
                picture.base.is_selected = value;
            },
        }
    }

    /// Refreshes the cached pointer position from an event that carries
    /// one; selection and geometry stay as they are.
    pub fn update(&mut self, input: &UserInput, camera: &Camera)
        requires
            camera.wf(),
        ensures
            final(self)@ == old(self)@.refreshed(*input, *camera),
    {
        match self {
            PaintObject::Curve(curve) => curve.update(input, camera),
            PaintObject::Line(line) => line.update(input, camera),
            PaintObject::Picture(picture) => picture.update(input, camera),
        }
    }

    pub fn draw(&self, painter: &mut WorldPainter, camera: &Camera)
        requires
            camera.wf(),
        ensures
            final(painter).commands@ == old(painter).commands@ + self@.commands(*camera),
    {
        match self {
            PaintObject::Curve(curve) => curve.draw(painter, camera),
            PaintObject::Line(line) => line.draw(painter, camera),
            PaintObject::Picture(picture) => picture.draw(painter, camera),
        }
    }

    pub fn is_under_mouse(&self) -> (r: bool)
        ensures
            r == self@.is_under_mouse(),
    {
        match self {
            PaintObject::Curve(curve) => curve.is_under_mouse(),
            PaintObject::Line(line) => line.is_under_mouse(),
            PaintObject::Picture(picture) => picture.is_under_mouse(),
        }
    }

    pub fn get_bounding_rect(&self) -> (r: Rectangle<WorldSpace>)
        ensures
            r == self@.bounding_rect(),
    {
        match self {
            PaintObject::Curve(curve) => curve.get_bounding_rect(),
            PaintObject::Line(line) => line.get_bounding_rect(),
            PaintObject::Picture(picture) => picture.get_bounding_rect(),
        }
    }

    pub fn shift_with(&mut self, p: Vector2<WorldSpace>)
        ensures
            final(self)@ == old(self)@.shifted(p),
    {
        match self {
            PaintObject::Curve(curve) => curve.shift_with(p),
            PaintObject::Line(line) => line.shift_with(p),
            PaintObject::Picture(picture) => picture.shift_with(p),
        }
    }

    pub fn resize_to(&mut self, new_size: Rectangle<WorldSpace>)
        ensures
            final(self)@ == old(self)@.resized(new_size),
    {
        match self {
            PaintObject::Curve(curve) => curve.resize_to(new_size),
            PaintObject::Line(line) => line.resize_to(new_size),
            PaintObject::Picture(picture) => picture.resize_to(new_size),
        }
    }
}

} // verus!
