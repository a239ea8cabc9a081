//! The drawing surface seen from the core: a list of SCREEN-space drawing
//! commands, and a painter that takes WORLD-space shapes through the camera.

use vstd::prelude::*;
use crate::primitives::Camera;
use crate::primitives::Color;
use crate::primitives::Number;
use crate::primitives::Rectangle;
use crate::primitives::ScreenSpace;
use crate::primitives::Stroke;
use crate::primitives::Vector2;
use crate::primitives::WorldSpace;

verus! {

/// One request to the drawing surface. All arguments are in SCREEN space;
/// an image is named by the handle under which the host keeps it.
#[derive(Clone, Copy, Debug, PartialEq, Eq)]
pub enum DrawCommand {
    Line { start: Vector2<ScreenSpace>, end: Vector2<ScreenSpace>, stroke: Stroke<ScreenSpace> },
    Circle { center: Vector2<ScreenSpace>, radius: Number<ScreenSpace>, stroke: Stroke<ScreenSpace> },
    Rectangle { rectangle: Rectangle<ScreenSpace>, stroke: Stroke<ScreenSpace> },
    RectangleFilled {
        rectangle: Rectangle<ScreenSpace>,
        color: Color,
        stroke: Option<Stroke<ScreenSpace>>,
    },
    Image { frame: Rectangle<ScreenSpace>, image: u64 },
}

/// A rectangle's corners taken through the camera.
pub open spec fn rectangle_on_screen(rectangle: Rectangle<WorldSpace>, camera: Camera) -> Rectangle<
    ScreenSpace,
> {
    Rectangle { p1: camera.spec_to_screen(rectangle.p1), p2: camera.spec_to_screen(rectangle.p2) }
}

/// The command that shows a WORLD-space line.
pub open spec fn world_line(
    start: Vector2<WorldSpace>,
    end: Vector2<WorldSpace>,
    stroke: Stroke<WorldSpace>,
    camera: Camera,
) -> DrawCommand {
    DrawCommand::Line {
        start: camera.spec_to_screen(start),
        end: camera.spec_to_screen(end),
        stroke: camera.spec_stroke_to_screen(stroke),
    }
}

/// The command that shows a WORLD-space circle.
pub open spec fn world_circle(
    center: Vector2<WorldSpace>,
    radius: Number<WorldSpace>,
    stroke: Stroke<WorldSpace>,
    camera: Camera,
) -> DrawCommand {
    DrawCommand::Circle {
        center: camera.spec_to_screen(center),
        radius: camera.spec_size_to_screen(radius),
        stroke: camera.spec_stroke_to_screen(stroke),
    }
}

/// The command that shows the outline of a WORLD-space rectangle.
pub open spec fn world_rectangle(
    rectangle: Rectangle<WorldSpace>,
    stroke: Stroke<WorldSpace>,
    camera: Camera,
) -> DrawCommand {
    DrawCommand::Rectangle {
        rectangle: rectangle_on_screen(rectangle, camera),
        stroke: camera.spec_stroke_to_screen(stroke),
    }
}

/// The command that shows a filled WORLD-space rectangle.
pub open spec fn world_rectangle_filled(
    rectangle: Rectangle<WorldSpace>,
    color: Color,
    stroke: Option<Stroke<WorldSpace>>,
    camera: Camera,
) -> DrawCommand {
    DrawCommand::RectangleFilled {
        rectangle: rectangle_on_screen(rectangle, camera),
        color,
        stroke: match stroke {
            Some(s) => Some(camera.spec_stroke_to_screen(s)),
            None => None,
        },
    }
}

/// The command that shows an image in a WORLD-space frame.
pub open spec fn world_image(frame: Rectangle<WorldSpace>, image: u64, camera: Camera)
    -> DrawCommand {
    DrawCommand::Image { frame: rectangle_on_screen(frame, camera), image }
}

/// Collects drawing commands. Its methods take WORLD-space shapes and
/// record them as they appear on screen.
pub struct WorldPainter {
    pub commands: Vec<DrawCommand>,
}

impl WorldPainter {
    /// A painter that has drawn nothing.
    pub fn new() -> (r: Self)
        ensures
            r.commands@ == Seq::<DrawCommand>::empty(),
    {
        WorldPainter { commands: Vec::new() }
    }

    /// Records a command that is already in SCREEN space.
    pub fn draw_on_screen(&mut self, command: DrawCommand)
        ensures
            final(self).commands@ == old(self).commands@.push(command),
    {
        self.commands.push(command);
    }

    pub fn draw_line(
        &mut self,
        start: Vector2<WorldSpace>,
        end: Vector2<WorldSpace>,
        stroke: Stroke<WorldSpace>,
        camera: &Camera,
    )
        requires
            camera.wf(),
        ensures
            final(self).commands@ == old(self).commands@.push(
                world_line(start, end, stroke, *camera),
            ),
    {
        let s = camera.convert_to_screen_coordinates(start);
        let e = camera.convert_to_screen_coordinates(end);
        self.commands.push(
            DrawCommand::Line { start: s, end: e, stroke: camera.stroke_to_screen_coordinates(stroke) },
        );
    }

    pub fn draw_circle(
        &mut self,
        center: Vector2<WorldSpace>,
        radius: Number<WorldSpace>,
        stroke: Stroke<WorldSpace>,
        camera: &Camera,
    )
        requires
            camera.wf(),
        ensures
            final(self).commands@ == old(self).commands@.push(
                world_circle(center, radius, stroke, *camera),
            ),
    {
        let c = camera.convert_to_screen_coordinates(center);
        let r = camera.size_to_screen_coordinates(radius);
        self.commands.push(
            DrawCommand::Circle {
                center: c,
                radius: r,
                stroke: camera.stroke_to_screen_coordinates(stroke),
            },
        );
    }

    pub fn draw_rectangle(
        &mut self,
        rectangle: Rectangle<WorldSpace>,
        stroke: Stroke<WorldSpace>,
        camera: &Camera,
    )
        requires
            camera.wf(),
        ensures
            final(self).commands@ == old(self).commands@.push(
                world_rectangle(rectangle, stroke, *camera),
            ),
    {
        let rect = Rectangle {
            p1: camera.convert_to_screen_coordinates(rectangle.p1),
            p2: camera.convert_to_screen_coordinates(rectangle.p2),
        };
        self.commands.push(
            DrawCommand::Rectangle {
                rectangle: rect,
                stroke: camera.stroke_to_screen_coordinates(stroke),
            },
        );
    }

    pub fn draw_rectangle_filled(
        &mut self,
        rectangle: Rectangle<WorldSpace>,
        color: Color,
        stroke: Option<Stroke<WorldSpace>>,
        camera: &Camera,
    )
        requires
            camera.wf(),
        ensures
            final(self).commands@ == old(self).commands@.push(
                world_rectangle_filled(rectangle, color, stroke, *camera),
            ),
    {
        let rect = Rectangle {
            p1: camera.convert_to_screen_coordinates(rectangle.p1),
            p2: camera.convert_to_screen_coordinates(rectangle.p2),
        };
        let screen_stroke = match stroke {
            Some(s) => Some(camera.stroke_to_screen_coordinates(s)),
            None => None,
        };
        self.commands.push(
            DrawCommand::RectangleFilled { rectangle: rect, color, stroke: screen_stroke },
        );
    }

    pub fn draw_image(&mut self, frame: Rectangle<WorldSpace>, image: u64, camera: &Camera)
        requires
            camera.wf(),
        ensures
            final(self).commands@ == old(self).commands@.push(world_image(frame, image, *camera)),
    {
        let rect = Rectangle {
            p1: camera.convert_to_screen_coordinates(frame.p1),
            p2: camera.convert_to_screen_coordinates(frame.p2),
        };
        self.commands.push(DrawCommand::Image { frame: rect, image });
    }
}

} // verus!
