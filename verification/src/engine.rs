//! The engine: the scene, the camera, the tools and the state machine of
//! selecting, dragging, resizing and deleting.

use vstd::prelude::*;
use crate::input::UserInput;
use crate::numeric::floor_div;
use crate::paint_object::picture::PickResult;
use crate::paint_object::PaintObject;
use crate::paint_object::PaintObjectView;
use crate::painter::rectangle_on_screen;
use crate::painter::DrawCommand;
use crate::painter::WorldPainter;
use crate::primitives::Camera;
use crate::primitives::Color;
use crate::primitives::Number;
use crate::primitives::Rectangle;
use crate::primitives::RectangleVertex;
use crate::primitives::ScreenSpace;
use crate::primitives::Stroke;
use crate::primitives::Vector2;
use crate::primitives::WorldSpace;
use crate::tool::selection_tool::deselect_all;
use crate::tool::selection_tool::object_views;
use crate::tool::Tool;
use crate::tool::ToolView;

pub mod lemmas;

verus! {

/// A resize is applied only while both sides of the result stay longer
/// than this many WORLD units.
pub const MINIMUM_OBJECT_SIZE: i32 = 20;

/// Radius, in SCREEN units, of the handles at the corners of a selected
/// object; the pointer grabs a corner within this radius.
pub const SELECTION_MARKER_SIZE: i32 = 5;

/// Thickness, in SCREEN units, of the outline of a selected object.
pub const SELECTION_MARKER_THICKNESS: i32 = 2;

/// The views of a list of tools.
pub open spec fn tool_views(tools: Seq<Tool>) -> Seq<ToolView> {
    Seq::new(tools.len(), |i: int| tools[i]@)
}

/// Half of a viewport extent, rounded down.
pub open spec fn half(extent: i32) -> i32 {
    (extent as int / 2) as i32
}

/// The selection flag of an object after the selection pass, given the
/// object with its pointer position already refreshed. Select-all and
/// deselect-all set it. A primary click selects an object under the pointer,
/// or toggles it with shift; away from the pointer it deselects, or leaves
/// the flag alone with shift. Nothing else touches it.
pub open spec fn selected_after(object: PaintObjectView, input: UserInput) -> bool {
    match input {
        UserInput::SelectAll => true,
        UserInput::DeselectAll => false,
        UserInput::MouseClick { is_shift_down, .. } => if input.spec_is_left_click() {
            if object.is_under_mouse() {
                if is_shift_down {
                    !object.is_selected()
                } else {
                    true
                }
            } else {
                if is_shift_down {
                    object.is_selected()
                } else {
                    false
                }
            }
        } else {
            object.is_selected()
        },
        _ => object.is_selected(),
    }
}

/// An object after the selection pass: its pointer position is refreshed
/// and, in selection mode, its flag follows [`selected_after`].
pub open spec fn object_after_selection(
    object: PaintObjectView,
    input: UserInput,
    camera: Camera,
    selecting: bool,
) -> PaintObjectView {
    if selecting {
        object.refreshed(input, camera).with_selected(
            selected_after(object.refreshed(input, camera), input),
        )
    } else {
        object.refreshed(input, camera)
    }
}

/// Whether an object, as it stands after the selection pass, starts a drag:
/// in selection mode it is selected and under the pointer, and the input is
/// none of select-all, deselect-all and delete.
pub open spec fn starts_drag(object: PaintObjectView, input: UserInput, selecting: bool) -> bool {
    selecting && !(input is SelectAll) && !(input is DeselectAll) && !(input is Delete)
        && object.is_selected() && object.is_under_mouse()
}

/// Whether one of the first `n` objects starts a drag.
pub open spec fn any_starts_drag(
    objects: Seq<PaintObjectView>,
    n: nat,
    input: UserInput,
    selecting: bool,
) -> bool
    decreases n,
{
    if n == 0 {
        false
    } else {
        any_starts_drag(objects, (n - 1) as nat, input, selecting) || starts_drag(
            objects[n - 1],
            input,
            selecting,
        )
    }
}

/// The corner of a selected object that the pointer grabs, if any.
pub open spec fn grips(
    object: PaintObjectView,
    position: Vector2<WorldSpace>,
    radius: Number<WorldSpace>,
) -> Option<RectangleVertex> {
    if object.is_selected() {
        object.bounding_rect().spec_vertex_under_point(position, radius)
    } else {
        None
    }
}

/// The corner remembered for the gesture once the first `n` objects have
/// been looked at, starting from `before`: the last grip found, if any.
pub open spec fn grabbed_after(
    objects: Seq<PaintObjectView>,
    n: nat,
    before: Option<RectangleVertex>,
    position: Vector2<WorldSpace>,
    radius: Number<WorldSpace>,
) -> Option<RectangleVertex>
    decreases n,
{
    if n == 0 {
        before
    } else {
        match grips(objects[n - 1], position, radius) {
            Some(vertex) => Some(vertex),
            None => grabbed_after(objects, (n - 1) as nat, before, position, radius),
        }
    }
}

/// Whether both sides of a rectangle are longer than the minimum size.
pub open spec fn large_enough(rectangle: Rectangle<WorldSpace>) -> bool {
    rectangle.p2.x - rectangle.p1.x > MINIMUM_OBJECT_SIZE && rectangle.p2.y - rectangle.p1.y
        > MINIMUM_OBJECT_SIZE
}

/// An object after the manipulation pass. An object that is not selected
/// stays. While a corner is remembered, a selected object is resized by
/// dragging that corner, unless the result would not be large enough: then
/// the movement is dropped. With no corner remembered, a selected object
/// moves along while a drag is on.
pub open spec fn manipulated(
    object: PaintObjectView,
    vertex: Option<RectangleVertex>,
    delta: Vector2<WorldSpace>,
    dragged: bool,
) -> PaintObjectView {
    if !object.is_selected() {
        object
    } else {
        match vertex {
            Some(v) => if large_enough(
                object.bounding_rect().spec_resize_by_dragging_vertex(v, delta),
            ) {
                object.resized(object.bounding_rect().spec_resize_by_dragging_vertex(v, delta))
            } else {
                object
            },
            None => if dragged {
                object.shifted(delta)
            } else {
                object
            },
        }
    }
}

/// The list after the indices below `i` have been visited from the highest
/// down, each selected object being replaced by the list's last and the
/// list shortened by one. Survivors may change places.
pub open spec fn swept(objects: Seq<PaintObjectView>, i: nat) -> Seq<PaintObjectView>
    decreases i,
{
    if i == 0 || i > objects.len() {
        objects
    } else if objects[i - 1].is_selected() {
        swept(objects.update(i - 1, objects.last()).drop_last(), (i - 1) as nat)
    } else {
        swept(objects, (i - 1) as nat)
    }
}

/// The outline and the four corner handles of a selected object, in SCREEN
/// units that do not change with the zoom; nothing for an unselected one.
pub open spec fn selection_marks(object: PaintObjectView, camera: Camera, background: Color) -> Seq<
    DrawCommand,
> {
    if object.is_selected() {
        seq![
            DrawCommand::Rectangle {
                rectangle: rectangle_on_screen(object.bounding_rect(), camera),
                stroke: marker_stroke(background),
            },
            handle(object, camera, background, RectangleVertex::TopLeft),
            handle(object, camera, background, RectangleVertex::TopRight),
            handle(object, camera, background, RectangleVertex::BottomRight),
            handle(object, camera, background, RectangleVertex::BottomLeft),
        ]
    } else {
        Seq::empty()
    }
}

/// The pen of the selection marks: the background's complement.
pub open spec fn marker_stroke(background: Color) -> Stroke<ScreenSpace> {
    Stroke {
        color: background.spec_inverse(),
        thickness: Number::spec_new(SELECTION_MARKER_THICKNESS),
    }
}

/// The handle at one corner of a selected object.
pub open spec fn handle(
    object: PaintObjectView,
    camera: Camera,
    background: Color,
    vertex: RectangleVertex,
) -> DrawCommand {
    DrawCommand::Circle {
        center: rectangle_on_screen(object.bounding_rect(), camera).spec_vertex(vertex),
        radius: Number::spec_new(SELECTION_MARKER_SIZE),
        stroke: marker_stroke(background),
    }
}

/// The drawing of the first `n` objects, in list order: each object, then
/// its selection marks.
pub open spec fn objects_scene(
    objects: Seq<PaintObjectView>,
    n: nat,
    camera: Camera,
    background: Color,
) -> Seq<DrawCommand>
    decreases n,
{
    if n == 0 {
        Seq::empty()
    } else {
        objects_scene(objects, (n - 1) as nat, camera, background) + objects[n - 1].commands(camera)
            + selection_marks(objects[n - 1], camera, background)
    }
}

/// The command that fills the viewport with the background colour.
pub open spec fn background_fill(view_width: i32, view_height: i32, background: Color)
    -> DrawCommand {
    DrawCommand::RectangleFilled {
        rectangle: Rectangle::spec_from_point_and_size(
            Vector2::spec_new(0, 0),
            Number::spec_new(view_width),
            Number::spec_new(view_height),
        ),
        color: background,
        stroke: None,
    }
}

/// The scene, the camera, the tools and the state of the current gesture.
pub struct Engine {
    /// The scene; list order is drawing order.
    pub objects: Vec<PaintObject>,
    pub tools: Vec<Tool>,
    /// The active tool; nothing in selection mode.
    pub selected_tool_index: Option<usize>,
    pub view_width: i32,
    pub view_height: i32,
    pub camera: Camera,
    /// A drag of the selected objects is on.
    pub objects_are_dragged: bool,
    /// The corner that the current gesture resizes by.
    pub object_is_resized_by_vertex: Option<RectangleVertex>,
}

/// The engine as a mathematical value.
pub struct EngineView {
    pub objects: Seq<PaintObjectView>,
    pub tools: Seq<ToolView>,
    pub selected_tool_index: Option<usize>,
    pub view_width: i32,
    pub view_height: i32,
    pub camera: Camera,
    pub objects_are_dragged: bool,
    pub object_is_resized_by_vertex: Option<RectangleVertex>,
}

impl View for Engine {
    type V = EngineView;

    open spec fn view(&self) -> EngineView {
        EngineView {
            objects: object_views(self.objects@),
            tools: tool_views(self.tools@),
            selected_tool_index: self.selected_tool_index,
            view_width: self.view_width,
            view_height: self.view_height,
            camera: self.camera,
            objects_are_dragged: self.objects_are_dragged,
            object_is_resized_by_vertex: self.object_is_resized_by_vertex,
        }
    }
}

impl EngineView {
    /// The camera can convert: its zoom is positive.
    pub open spec fn wf(&self) -> bool {
        self.camera.wf()
    }

    /// The engine of a fresh scene with the given tools.
    pub open spec fn initial(tools: Seq<ToolView>) -> Self {
        EngineView {
            objects: Seq::empty(),
            tools,
            selected_tool_index: None,
            view_width: 0,
            view_height: 0,
            camera: Camera::initial(),
            objects_are_dragged: false,
            object_is_resized_by_vertex: None,
        }
    }

    /// No tool is active: clicks select.
    pub open spec fn selecting(&self) -> bool {
        self.selected_tool_index is None
    }

    /// The active tool, if the index names one.
    pub open spec fn active_tool(&self) -> Option<ToolView> {
        match self.selected_tool_index {
            Some(i) => if i < self.tools.len() {
                Some(self.tools[i as int])
            } else {
                None
            },
            None => None,
        }
    }

    /// Whether the step's tool asks the host for an image.
    pub open spec fn wants_picture(&self, input: UserInput) -> bool {
        self.active_tool() is Some && self.active_tool()->0.wants_picture(input)
    }

    /// Whether the step reports a failure: the active tool's.
    pub open spec fn tool_fails(&self, input: UserInput, picked: PickResult) -> bool {
        self.active_tool() is Some && self.active_tool()->0.fails(input, picked)
    }

    /// The viewport taken over, the camera's offset put at its centre.
    pub open spec fn framed(&self, view_width: i32, view_height: i32) -> Self {
        EngineView {
            view_width,
            view_height,
            camera: Camera {
                offset: Vector2::spec_new(half(view_width), half(view_height)),
                ..self.camera
            },
            ..*self
        }
    }

    /// The active tool advanced by the input, the object it completes
    /// appended to the scene.
    pub open spec fn after_tool(&self, input: UserInput, stroke: Stroke<WorldSpace>, picked: PickResult)
        -> Self {
        match self.active_tool() {
            Some(tool) => EngineView {
                tools: self.tools.update(
                    self.selected_tool_index->0 as int,
                    tool.stepped(input, stroke, self.camera, picked),
                ),
                objects: match tool.created(input, stroke, self.camera, picked) {
                    Some(object) => self.objects.push(object),
                    None => self.objects,
                },
                ..*self
            },
            None => *self,
        }
    }

    /// Select-all leaves the active tool; an input that says that no
    /// button is held ends the gesture.
    pub open spec fn after_mode(&self, input: UserInput) -> Self {
        EngineView {
            selected_tool_index: if input is SelectAll {
                None
            } else {
                self.selected_tool_index
            },
            objects_are_dragged: if input.spec_mouse_is_up() {
                false
            } else {
                self.objects_are_dragged
            },
            object_is_resized_by_vertex: if input.spec_mouse_is_up() {
                None
            } else {
                self.object_is_resized_by_vertex
            },
            ..*self
        }
    }

    /// Every object after the selection pass.
    pub open spec fn objects_after_selection(&self, input: UserInput) -> Seq<PaintObjectView> {
        Seq::new(
            self.objects.len(),
            |i: int| object_after_selection(self.objects[i], input, self.camera, self.selecting()),
        )
    }

    /// The selection pass over every object. A drag is on afterwards if it
    /// was on before or one of the objects starts one.
    pub open spec fn after_selection(&self, input: UserInput) -> Self {
        EngineView {
            objects: self.objects_after_selection(input),
            objects_are_dragged: self.objects_are_dragged || any_starts_drag(
                self.objects_after_selection(input),
                self.objects.len(),
                input,
                self.selecting(),
            ),
            ..*self
        }
    }

    /// The radius of a corner handle in WORLD units, rounded up, so that at
    /// every zoom the pointer can grab a corner.
    pub open spec fn grip_radius(&self) -> Number<WorldSpace> {
        self.camera.spec_size_to_world_rounded_up(Number::spec_new(SELECTION_MARKER_SIZE))
    }

    /// The manipulation pass: it runs on an input that carries a pointer
    /// position and a movement, and resizes or moves the selected objects.
    pub open spec fn after_manipulation(&self, input: UserInput) -> Self {
        match input {
            UserInput::MouseMove { position, delta, .. } => EngineView {
                objects: Seq::new(
                    self.objects.len(),
                    |i: int|
                        manipulated(
                            self.objects[i],
                            grabbed_after(
                                self.objects,
                                (i + 1) as nat,
                                self.object_is_resized_by_vertex,
                                self.camera.spec_to_world(position),
                                self.grip_radius(),
                            ),
                            self.camera.spec_distance_to_world(delta),
                            self.objects_are_dragged,
                        ),
                ),
                object_is_resized_by_vertex: grabbed_after(
                    self.objects,
                    self.objects.len(),
                    self.object_is_resized_by_vertex,
                    self.camera.spec_to_world(position),
                    self.grip_radius(),
                ),
                ..*self
            },
            _ => *self,
        }
    }

    /// A delete input in selection mode removes the selected objects.
    pub open spec fn after_removal(&self, input: UserInput) -> Self {
        if input is Delete && self.selecting() {
            EngineView { objects: swept(self.objects, self.objects.len()), ..*self }
        } else {
            *self
        }
    }

    /// The engine after one step.
    pub open spec fn updated(
        &self,
        input: UserInput,
        stroke: Stroke<WorldSpace>,
        view_width: i32,
        view_height: i32,
        picked: PickResult,
    ) -> Self {
        match input {
            UserInput::Pan { delta } => EngineView {
                camera: Camera {
                    position: self.camera.position.spec_plus(
                        self.camera.spec_distance_to_world(delta),
                    ),
                    ..self.framed(view_width, view_height).camera
                },
                ..self.framed(view_width, view_height)
            },
            UserInput::Zoom { delta } => EngineView {
                camera: Camera {
                    zoom: Camera::zoom_after(self.camera.zoom, delta),
                    ..self.framed(view_width, view_height).camera
                },
                ..self.framed(view_width, view_height)
            },
            _ => self.framed(view_width, view_height).after_tool(input, stroke, picked).after_mode(
                input,
            ).after_selection(input).after_manipulation(input).after_removal(input),
        }
    }

    /// What a frame shows: the background, every object in list order with
    /// its selection marks, then the active tool's preview.
    pub open spec fn scene(&self, background: Color) -> Seq<DrawCommand> {
        seq![background_fill(self.view_width, self.view_height, background)] + objects_scene(
            self.objects,
            self.objects.len(),
            self.camera,
            background,
        ) + (match self.active_tool() {
            Some(tool) => tool.commands(self.camera, background),
            None => Seq::empty(),
        })
    }
}

/// Setting the selection flag to what it is changes nothing.
pub proof fn lemma_same_flag(object: PaintObjectView)
    ensures
        object.with_selected(object.is_selected()) == object,
{
}

/// One object's part of the selection pass.
fn select_object(object: &mut PaintObject, input: &UserInput, camera: &Camera, selecting: bool) -> (r:
    bool)
    requires
        camera.wf(),
    ensures
        final(object)@ == object_after_selection(old(object)@, *input, *camera, selecting),
        r == starts_drag(final(object)@, *input, selecting),
{
    object.update(input, camera);
    if !selecting {
        return false;
    }
    proof {
        lemma_same_flag(object@);
    }
    match *input {
        UserInput::SelectAll => {
            object.set_selected(true);
            false
        },
        UserInput::DeselectAll => {
            object.set_selected(false);
            false
        },
        UserInput::Delete => false,
        _ => {
            if input.is_left_click() {
                if object.is_under_mouse() {
                    if input.is_shift_click() {
                        let selected = object.is_selected();
                        object.set_selected(!selected);
                    } else {
                        object.set_selected(true);
                    }
                } else if !input.is_shift_click() {
                    object.set_selected(false);
                }
            }
            object.is_selected() && object.is_under_mouse()
        },
    }
}

/// One object's part of the manipulation pass.
fn manipulate_object(
    object: &mut PaintObject,
    vertex: Option<RectangleVertex>,
    position: Vector2<WorldSpace>,
    radius: Number<WorldSpace>,
    delta: Vector2<WorldSpace>,
    dragged: bool,
) -> (r: Option<RectangleVertex>)
    ensures
        r == (match grips(old(object)@, position, radius) {
            Some(v) => Some(v),
            None => vertex,
        }),
        final(object)@ == manipulated(old(object)@, r, delta, dragged),
{
    if !object.is_selected() {
        return vertex;
    }
    let bounds = object.get_bounding_rect();
    let grabbed = match bounds.vertex_under_point(position, radius) {
        Some(v) => Some(v),
        None => vertex,
    };
    match grabbed {
        Some(v) => {
            let new_rect = bounds.resize_by_dragging_vertex(v, delta);
            if new_rect.width().value > MINIMUM_OBJECT_SIZE && new_rect.height().value
                > MINIMUM_OBJECT_SIZE {
                object.resize_to(new_rect);
            }
        },
        None => {
            if dragged {
                object.shift_with(delta);
            }
        },
    }
    grabbed
}

/// Removes the selected objects, visiting the indices from the highest
/// down and filling each gap with the list's last object.
fn remove_selected(objects: &mut Vec<PaintObject>)
    ensures
        object_views(final(objects)@) == swept(object_views(old(objects)@), old(objects)@.len()),
{
    let mut i = objects.len();
    while i > 0
        invariant
            i <= objects@.len(),
            swept(object_views(objects@), i as nat) == swept(
                object_views(old(objects)@),
                old(objects)@.len(),
            ),
        decreases i,
    {
        let ghost before = objects@;
        i = i - 1;
        if objects[i].is_selected() {
            objects.swap_remove(i);
            assert(object_views(objects@) =~= object_views(before).update(
                i as int,
                object_views(before).last(),
            ).drop_last());
        }
    }
}

impl Engine {
    /// An engine with an empty scene, in selection mode.
    pub fn new(tools: Vec<Tool>) -> (r: Self)
        ensures
            r@ == EngineView::initial(tool_views(tools@)),
            r@.wf(),
    {
        let r = Engine {
            objects: Vec::new(),
            tools,
            selected_tool_index: None,
            view_width: 0,
            view_height: 0,
            camera: Camera::default(),
            objects_are_dragged: false,
            object_is_resized_by_vertex: None,
        };
        assert(r@.objects =~= Seq::empty());
        r
    }

    /// Puts an object on top of the scene.
    pub fn add_object(&mut self, object: PaintObject)
        ensures
            final(self)@ == (EngineView { objects: old(self)@.objects.push(object@), ..old(self)@ }),
    {
        self.objects.push(object);
        assert(self@.objects =~= old(self)@.objects.push(object@));
    }

    /// Whether the host has to run its "pick and decode an image" operation
    /// before it hands `input` to [`Engine::update`].
    pub fn picture_requested(&self, input: &UserInput) -> (r: bool)
        ensures
            r == self@.wants_picture(*input),
    {
        match self.selected_tool_index {
            Some(i) => {
                if i < self.tools.len() {
                    self.tools[i].wants_picture(input)
                } else {
                    false
                }
            },
            None => false,
        }
    }

    fn frame(&mut self, view_width: i32, view_height: i32)
        ensures
            final(self)@ == old(self)@.framed(view_width, view_height),
    {
        self.view_width = view_width;
        self.view_height = view_height;
        let hx = floor_div(view_width as i128, 2) as i32;
        let hy = floor_div(view_height as i128, 2) as i32;
        self.camera.offset = Vector2::new(hx, hy);
    }

    fn step_tool(&mut self, input: &UserInput, stroke: Stroke<WorldSpace>, picked: PickResult) -> (r:
        Result<(), String>)
        requires
            old(self)@.wf(),
        ensures
            final(self)@ == old(self)@.after_tool(*input, stroke, picked),
            r is Err <==> old(self)@.tool_fails(*input, picked),
            r is Err ==> r->Err_0 == picked->Failed_0,
    {
        match self.selected_tool_index {
            Some(i) => {
                if i < self.tools.len() {
                    let camera = self.camera;
                    let outcome = self.tools[i].update(input, stroke, &camera, picked);
                    assert(self@.tools =~= old(self)@.tools.update(
                        i as int,
                        old(self)@.tools[i as int].stepped(*input, stroke, camera, picked),
                    ));
                    match outcome {
                        Ok(Some(object)) => {
                            self.objects.push(object);
                            assert(self@.objects =~= old(self)@.objects.push(object@));
                            Ok(())
                        },
                        Ok(None) => Ok(()),
                        Err(message) => Err(message),
                    }
                } else {
                    Ok(())
                }
            },
            None => Ok(()),
        }
    }

    fn step_mode(&mut self, input: &UserInput)
        ensures
            final(self)@ == old(self)@.after_mode(*input),
    {
        if matches!(*input, UserInput::SelectAll) {
            self.selected_tool_index = None;
        }
        if input.mouse_is_up() {
            self.objects_are_dragged = false;
            self.object_is_resized_by_vertex = None;
        }
    }

    fn selection_pass(&mut self, input: &UserInput)
        requires
            old(self)@.wf(),
        ensures
            final(self)@ == old(self)@.after_selection(*input),
    {
        let selecting = self.selected_tool_index.is_none();
        let camera = self.camera;
        let ghost target = old(self)@.after_selection(*input).objects;
        let n = self.objects.len();
        let mut i: usize = 0;
        let mut dragged = self.objects_are_dragged;
        while i < n
            invariant
                n == self.objects@.len(),
                n == old(self).objects@.len(),
                i <= n,
                camera.wf(),
                camera == old(self).camera,
                selecting == old(self)@.selecting(),
                target == old(self)@.after_selection(*input).objects,
                self.tools == old(self).tools,
                self.selected_tool_index == old(self).selected_tool_index,
                self.view_width == old(self).view_width,
                self.view_height == old(self).view_height,
                self.camera == old(self).camera,
                self.object_is_resized_by_vertex == old(self).object_is_resized_by_vertex,
                forall|j: int| 0 <= j < i ==> #[trigger] self.objects@[j]@ == target[j],
                forall|j: int| i <= j < n ==> self.objects@[j] == old(self).objects@[j],
                dragged == (old(self).objects_are_dragged || any_starts_drag(
                    target,
                    i as nat,
                    *input,
                    selecting,
                )),
            decreases n - i,
        {
            let started = select_object(&mut self.objects[i], input, &camera, selecting);
            if started {
                dragged = true;
            }
            i = i + 1;
        }
        self.objects_are_dragged = dragged;
        assert(self@.objects =~= target);
    }

    fn manipulation_pass(&mut self, input: &UserInput)
        requires
            old(self)@.wf(),
        ensures
            final(self)@ == old(self)@.after_manipulation(*input),
    {
        match *input {
            UserInput::MouseMove { position, delta, .. } => {
                let world_delta = self.camera.distance_to_world_coordinates(delta);
                let world_position = self.camera.convert_to_world_coordinates(position);
                let radius = self.camera.size_to_world_coordinates_rounded_up(
                    Number::new(SELECTION_MARKER_SIZE),
                );
                let dragged = self.objects_are_dragged;
                let ghost start = old(self)@.objects;
                let ghost first = old(self).object_is_resized_by_vertex;
                let n = self.objects.len();
                let mut i: usize = 0;
                let mut vertex = self.object_is_resized_by_vertex;
                while i < n
                    invariant
                        n == self.objects@.len(),
                        n == old(self).objects@.len(),
                        i <= n,
                        start == old(self)@.objects,
                        first == old(self).object_is_resized_by_vertex,
                        self.tools == old(self).tools,
                        self.selected_tool_index == old(self).selected_tool_index,
                        self.view_width == old(self).view_width,
                        self.view_height == old(self).view_height,
                        self.camera == old(self).camera,
                        self.objects_are_dragged == old(self).objects_are_dragged,
                        vertex == grabbed_after(start, i as nat, first, world_position, radius),
                        forall|j: int|
                            0 <= j < i ==> #[trigger] self.objects@[j]@ == manipulated(
                                start[j],
                                grabbed_after(start, (j + 1) as nat, first, world_position, radius),
                                world_delta,
                                dragged,
                            ),
                        forall|j: int| i <= j < n ==> self.objects@[j] == old(self).objects@[j],
                    decreases n - i,
                {
                    vertex =
                    manipulate_object(
                        &mut self.objects[i],
                        vertex,
                        world_position,
                        radius,
                        world_delta,
                        dragged,
                    );
                    i = i + 1;
                }
                self.object_is_resized_by_vertex = vertex;
                assert(self@.objects =~= old(self)@.after_manipulation(*input).objects);
            },
            _ => {},
        }
    }

    fn removal_pass(&mut self, input: &UserInput)
        ensures
            final(self)@ == old(self)@.after_removal(*input),
    {
        if matches!(*input, UserInput::Delete) && self.selected_tool_index.is_none() {
            remove_selected(&mut self.objects);
        }
    }

    /// One step of the engine. The viewport is taken over and the camera's
    /// offset put at its centre. A pan moves the camera, a zoom changes its
    /// zoom, and neither does anything else. On any other input the active
    /// tool advances and the object it completes joins the scene; then the
    /// selection pass, the manipulation pass and the removal run, also when
    /// the tool failed. The tool's failure is handed back as the error.
    ///
    /// `picked` is what the host's "pick and decode an image" operation
    /// gave; the host runs it when [`Engine::picture_requested`] says so.
    pub fn update(
        &mut self,
        input: UserInput,
        stroke: Stroke<WorldSpace>,
        view_width: i32,
        view_height: i32,
        picked: PickResult,
    ) -> (r: Result<(), String>)
        requires
            old(self)@.wf(),
        ensures
            final(self)@ == old(self)@.updated(input, stroke, view_width, view_height, picked),
            final(self)@.wf(),
            r is Err <==> !(input is Pan) && !(input is Zoom) && old(self)@.tool_fails(input, picked),
            r is Err ==> r->Err_0 == picked->Failed_0,
    {
        self.frame(view_width, view_height);
        match input {
            UserInput::Pan { delta } => {
                self.camera.pan_by(delta);
                Ok(())
            },
            UserInput::Zoom { delta } => {
                self.camera.zoom_by(delta);
                Ok(())
            },
            _ => {
                let outcome = self.step_tool(&input, stroke, picked);
                self.step_mode(&input);
                self.selection_pass(&input);
                self.manipulation_pass(&input);
                self.removal_pass(&input);
                outcome
            },
        }
    }

    /// What the frame shows, as commands for the drawing surface: the
    /// background, every object in list order, each selected one followed
    /// by its outline and corner handles, and the active tool's preview on
    /// top.
    pub fn draw(&self, background_color: Color) -> (r: Vec<DrawCommand>)
        requires
            self@.wf(),
        ensures
            r@ == self@.scene(background_color),
    {
        let mut painter = WorldPainter::new();
        painter.draw_on_screen(
            DrawCommand::RectangleFilled {
                rectangle: Rectangle::from_point_and_size(
                    Vector2::zero(),
                    Number::new(self.view_width),
                    Number::new(self.view_height),
                ),
                color: background_color,
                stroke: None,
            },
        );
        let marker = Stroke::new(
            background_color.inverse(),
            Number::<ScreenSpace>::new(SELECTION_MARKER_THICKNESS),
        );
        let ghost fill = seq![background_fill(self.view_width, self.view_height, background_color)];
        assert(painter.commands@ =~= fill);
        let n = self.objects.len();
        let mut i: usize = 0;
        while i < n
            invariant
                n == self.objects@.len(),
                i <= n,
                self@.wf(),
                marker == marker_stroke(background_color),
                fill == seq![background_fill(self.view_width, self.view_height, background_color)],
                painter.commands@ == fill + objects_scene(
                    self@.objects,
                    i as nat,
                    self.camera,
                    background_color,
                ),
            decreases n - i,
        {
            let ghost before = painter.commands@;
            let object = &self.objects[i];
            object.draw(&mut painter, &self.camera);
            if object.is_selected() {
                let world_rect = object.get_bounding_rect();
                let screen_rect = Rectangle {
                    p1: self.camera.convert_to_screen_coordinates(world_rect.p1),
                    p2: self.camera.convert_to_screen_coordinates(world_rect.p2),
                };
                painter.draw_on_screen(
                    DrawCommand::Rectangle { rectangle: screen_rect, stroke: marker },
                );
                let corners = screen_rect.vertices();
                let mut k: usize = 0;
                while k < 4
                    invariant
                        k <= 4,
                        corners@ == seq![
                            screen_rect.spec_vertex(RectangleVertex::TopLeft),
                            screen_rect.spec_vertex(RectangleVertex::TopRight),
                            screen_rect.spec_vertex(RectangleVertex::BottomRight),
                            screen_rect.spec_vertex(RectangleVertex::BottomLeft),
                        ],
                        screen_rect == rectangle_on_screen(self@.objects[i as int].bounding_rect(), self.camera),
                        marker == marker_stroke(background_color),
                        self@.objects[i as int].is_selected(),
                        painter.commands@ == before + self@.objects[i as int].commands(self.camera)
                            + selection_marks(
                            self@.objects[i as int],
                            self.camera,
                            background_color,
                        ).subrange(0, k + 1),
                    decreases 4 - k,
                {
                    painter.draw_on_screen(
                        DrawCommand::Circle {
                            center: corners[k],
                            radius: Number::new(SELECTION_MARKER_SIZE),
                            stroke: marker,
                        },
                    );
                    k = k + 1;
                    assert(painter.commands@ =~= before + self@.objects[i as int].commands(
                        self.camera,
                    ) + selection_marks(
                        self@.objects[i as int],
                        self.camera,
                        background_color,
                    ).subrange(0, k + 1));
                }
                assert(selection_marks(
                    self@.objects[i as int],
                    self.camera,
                    background_color,
                ).subrange(0, 5) =~= selection_marks(
                    self@.objects[i as int],
                    self.camera,
                    background_color,
                ));
            }
            i = i + 1;
            assert(painter.commands@ =~= fill + objects_scene(
                self@.objects,
                i as nat,
                self.camera,
                background_color,
            ));
        }
        match self.selected_tool_index {
            Some(t) => {
                if t < self.tools.len() {
                    self.tools[t].draw(&mut painter, background_color, &self.camera);
                }
            },
            None => {},
        }
        assert(painter.commands@ =~= self@.scene(background_color));
        painter.commands
    }

    /// A walk over the tools, in the order in which the host shows them.
    pub fn tools_iter(&self) -> (r: ToolIterator<'_>)
        ensures
            r.tools == &self.tools,
            r.index == 0,
    {
        ToolIterator { tools: &self.tools, index: 0 }
    }

    /// Makes the tool at `index` the active one, or none with `None`.
    /// Choosing a tool deselects every object.
    pub fn select_tool(&mut self, index: Option<usize>)
        ensures
            final(self)@ == (EngineView {
                selected_tool_index: index,
                objects: if index is Some {
                    Seq::new(
                        old(self)@.objects.len(),
                        |i: int| old(self)@.objects[i].with_selected(false),
                    )
                } else {
                    old(self)@.objects
                },
                ..old(self)@
            }),
    {
        self.selected_tool_index = index;
        if index.is_some() {
            deselect_all(&mut self.objects);
        }
        assert(self@.objects =~= (if index is Some {
            Seq::new(old(self)@.objects.len(), |i: int| old(self)@.objects[i].with_selected(false))
        } else {
            old(self)@.objects
        }));
    }

    pub fn get_selected_tool_index(&self) -> (r: Option<usize>)
        ensures
            r == self.selected_tool_index,
    {
        self.selected_tool_index
    }
}

/// A position in the list of tools.
pub struct ToolIterator<'a> {
    pub tools: &'a Vec<Tool>,
    pub index: usize,
}

impl<'a> ToolIterator<'a> {
    /// The tool at the position, which then moves on; nothing at the end.
    pub fn next(&mut self) -> (r: Option<&'a Tool>)
        ensures
            final(self).tools == old(self).tools,
            old(self).index < old(self).tools@.len() ==> r == Some(
                &old(self).tools@[old(self).index as int],
            ) && final(self).index == old(self).index + 1,
            old(self).index >= old(self).tools@.len() ==> r is None && final(self).index == old(
                self,
            ).index,
    {
        if self.index < self.tools.len() {
            let tool = &self.tools[self.index];
            self.index = self.index + 1;
            Some(tool)
        } else {
            None
        }
    }
}

} // verus!
