//! Tools: the closed set of gesture handlers that turn input events into
//! new scene objects.

use vstd::prelude::*;
use crate::input::UserInput;
use crate::paint_object::freehand_curve::lemma_extended_is_valid;
use crate::paint_object::freehand_curve::FreehandCurveTool;
use crate::paint_object::freehand_curve::FreehandCurveView;
use crate::paint_object::picture::PickResult;
use crate::paint_object::picture::PictureTool;
use crate::paint_object::straight_line::StraghtLineTool;
use crate::paint_object::PaintObject;
use crate::paint_object::PaintObjectView;
use crate::painter::DrawCommand;
use crate::painter::WorldPainter;
use crate::primitives::Camera;
use crate::primitives::Color;
use crate::primitives::Stroke;
use crate::primitives::WorldSpace;

pub mod selection_tool;

verus! {

/// Names the picture that the host shows for a tool.
#[derive(Clone, Copy, Debug, PartialEq, Eq)]
pub enum ToolIcon {
    FreehandCurve,
    StraightLine,
    Picture,
}

/// A tool of one of the three kinds.
#[derive(Debug, PartialEq, Eq)]
pub enum Tool {
    Curve(FreehandCurveTool),
    Line(StraghtLineTool),
    Picture(PictureTool),
}

/// A tool as a mathematical value.
pub enum ToolView {
    Curve(FreehandCurveView),
    Line(StraghtLineTool),
    Picture(PictureTool),
}

impl View for Tool {
    type V = ToolView;

    open spec fn view(&self) -> ToolView {
        match *self {
            Tool::Curve(tool) => ToolView::Curve(tool.curve@),
            Tool::Line(tool) => ToolView::Line(tool),
            Tool::Picture(tool) => ToolView::Picture(tool),
        }
    }
}

impl ToolView {
    /// The tool is valid: a curve in progress is a valid curve and is not
    /// selected. The other tools are always valid.
    pub open spec fn wf(&self) -> bool {
        match *self {
            ToolView::Curve(curve) => FreehandCurveTool::valid(curve),
            _ => true,
        }
    }

    /// Whether the tool asks the host for an image on this input.
    pub open spec fn wants_picture(&self, input: UserInput) -> bool {
        match *self {
            ToolView::Picture(tool) => tool.spec_wants_picture(input),
            _ => false,
        }
    }

    /// Whether the step fails. Only the picture tool can fail: when the
    /// host could not open or decode the image.
    pub open spec fn fails(&self, input: UserInput, picked: PickResult) -> bool {
        match *self {
            ToolView::Picture(tool) => tool.fails(input, picked),
            _ => false,
        }
    }

    /// The tool after the step. A tool whose step fails is left with its
    /// gesture cleared.
    pub open spec fn stepped(
        &self,
        input: UserInput,
        stroke: Stroke<WorldSpace>,
        camera: Camera,
        picked: PickResult,
    ) -> Self {
        match *self {
            ToolView::Curve(curve) => ToolView::Curve(
                FreehandCurveTool::stepped(curve, input, stroke, camera),
            ),
            ToolView::Line(tool) => ToolView::Line(tool.stepped(input, stroke, camera)),
            ToolView::Picture(tool) => ToolView::Picture(tool.stepped(input, camera, picked)),
        }
    }

    /// The object that the step completes, if it completes one.
    pub open spec fn created(
        &self,
        input: UserInput,
        stroke: Stroke<WorldSpace>,
        camera: Camera,
        picked: PickResult,
    ) -> Option<PaintObjectView> {
        match *self {
            ToolView::Curve(curve) => match FreehandCurveTool::completed(
                curve,
                input,
                stroke,
                camera,
            ) {
                Some(done) => Some(PaintObjectView::Curve(done)),
                None => None,
            },
            ToolView::Line(tool) => match tool.completed(input, stroke, camera) {
                Some(line) => Some(PaintObjectView::Line(line)),
                None => None,
            },
            ToolView::Picture(tool) => match tool.placed(input, camera, picked) {
                Some(picture) => Some(PaintObjectView::Picture(picture)),
                None => None,
            },
        }
    }

    /// The tool's preview of the shape in progress.
    pub open spec fn commands(&self, camera: Camera, background: Color) -> Seq<DrawCommand> {
        match *self {
            ToolView::Curve(curve) => curve.commands(camera),
            ToolView::Line(tool) => tool.commands(camera),
            ToolView::Picture(tool) => tool.commands(camera, background),
        }
    }
}

/// A valid tool stays valid over a step, and the object that it completes
/// is valid and not selected.
pub proof fn lemma_a_step_keeps_the_tool_valid(
    tool: ToolView,
    input: UserInput,
    stroke: Stroke<WorldSpace>,
    camera: Camera,
    picked: PickResult,
)
    requires
        tool.wf(),
    ensures
        tool.stepped(input, stroke, camera, picked).wf(),
        tool.created(input, stroke, camera, picked) is Some ==> tool.created(
            input,
            stroke,
            camera,
            picked,
        )->0.wf() && !tool.created(input, stroke, camera, picked)->0.is_selected(),
{
    match tool {
        ToolView::Curve(curve) => {
            let inked = FreehandCurveTool::inked(curve, stroke);
            assert(inked.wf()) by {
                if curve.points.len() > 0 {
                    let a = choose|i: int|
                        0 <= i < curve.points.len() && (#[trigger] curve.points[i]).x == curve.min_x;
                    let b = choose|i: int|
                        0 <= i < curve.points.len() && (#[trigger] curve.points[i]).x == curve.max_x;
                    let c = choose|i: int|
                        0 <= i < curve.points.len() && (#[trigger] curve.points[i]).y == curve.min_y;
                    let d = choose|i: int|
                        0 <= i < curve.points.len() && (#[trigger] curve.points[i]).y == curve.max_y;
                    assert(inked.points[a].x == inked.min_x);
                    assert(inked.points[b].x == inked.max_x);
                    assert(inked.points[c].y == inked.min_y);
                    assert(inked.points[d].y == inked.max_y);
                    assert forall|i: int| 0 <= i < inked.points.len() implies #[trigger] inked.bounding_rect().spec_contains_point(
                        inked.points[i],
                    ) by {
                        assert(curve.bounding_rect().spec_contains_point(curve.points[i]));
                    }
                }
            }
            match FreehandCurveTool::drawn_point(input, camera) {
                Some(p) => {
                    lemma_extended_is_valid(inked, p);
                },
                None => {},
            }
        },
        _ => {},
    }
}

impl Tool {
    /// Whether the host has to run its "pick and decode an image" operation
    /// before it hands this input to [`Tool::update`].
    pub fn wants_picture(&self, input: &UserInput) -> (r: bool)
        ensures
            r == self@.wants_picture(*input),
    {
        match self {
            Tool::Picture(tool) => tool.wants_picture(input),
            _ => false,
        }
    }

    /// Advances the gesture by one input. Gives the object that the input
    /// completes, nothing when it completes none, or the message of a
    /// failed pick. Objects already in the scene are out of its reach.
    pub fn update(
        &mut self,
        input: &UserInput,
        stroke: Stroke<WorldSpace>,
        camera: &Camera,
        picked: PickResult,
    ) -> (r: Result<Option<PaintObject>, String>)
        requires
            camera.wf(),
        ensures
            final(self)@ == old(self)@.stepped(*input, stroke, *camera, picked),
            old(self)@.wf() ==> final(self)@.wf(),
            old(self)@.wf() && r is Ok && r->Ok_0 is Some ==> r->Ok_0->0@.wf()
                && !r->Ok_0->0@.is_selected(),
            r is Err <==> old(self)@.fails(*input, picked),
            r is Err ==> r->Err_0 == picked->Failed_0,
            r is Ok ==> match old(self)@.created(*input, stroke, *camera, picked) {
                Some(object) => r->Ok_0 is Some && r->Ok_0->0@ == object,
                None => r->Ok_0 is None,
            },
    {
        proof {
            if old(self)@.wf() {
                lemma_a_step_keeps_the_tool_valid(old(self)@, *input, stroke, *camera, picked);
            }
        }
        match self {
            Tool::Curve(tool) => {
                match tool.update(input, stroke, camera) {
                    Some(curve) => Ok(Some(PaintObject::Curve(curve))),
                    None => Ok(None),
                }
            },
            Tool::Line(tool) => {
                match tool.update(input, stroke, camera) {
                    Some(line) => Ok(Some(PaintObject::Line(line))),
                    None => Ok(None),
                }
            },
            Tool::Picture(tool) => {
                match tool.update(input, camera, picked) {
                    Ok(Some(picture)) => Ok(Some(PaintObject::Picture(picture))),
                    Ok(None) => Ok(None),
                    Err(message) => Err(message),
                }
            },
        }
    }

    /// Draws the preview of the shape in progress.
    pub fn draw(&self, painter: &mut WorldPainter, background_color: Color, camera: &Camera)
        requires
            camera.wf(),
        ensures
            final(painter).commands@ == old(painter).commands@ + self@.commands(
                *camera,
                background_color,
            ),
    {
        match self {
            Tool::Curve(tool) => tool.draw(painter, camera),
            Tool::Line(tool) => tool.draw(painter, camera),
            Tool::Picture(tool) => tool.draw(painter, background_color, camera),
        }
    }

    pub fn display_name(&self) -> (r: &'static str)
        ensures
            r@ == (match *self {
                Tool::Curve(_) => "free-hand curve"@,
                Tool::Line(_) => "straight line"@,
                Tool::Picture(_) => "insert picture"@,
            }),
    {
        match self {
            Tool::Curve(tool) => tool.display_name(),
            Tool::Line(tool) => tool.display_name(),
            Tool::Picture(tool) => tool.display_name(),
        }
    }

    pub fn icon(&self) -> (r: ToolIcon)
        ensures
            r == (match *self {
                Tool::Curve(_) => ToolIcon::FreehandCurve,
                Tool::Line(_) => ToolIcon::StraightLine,
                Tool::Picture(_) => ToolIcon::Picture,
            }),
    {
        match self {
            Tool::Curve(_) => ToolIcon::FreehandCurve,
            Tool::Line(_) => ToolIcon::StraightLine,
            Tool::Picture(_) => ToolIcon::Picture,
        }
    }
}

} // verus!
