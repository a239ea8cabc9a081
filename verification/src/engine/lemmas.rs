//! What holds of every step of the engine.

use vstd::prelude::*;
use vstd::seq_lib::to_multiset_contains;
use vstd::seq_lib::to_multiset_remove;
use vstd::seq_lib::to_multiset_update;
use crate::engine::grabbed_after;
use crate::engine::background_fill;
use crate::engine::grips;
use crate::engine::manipulated;
use crate::engine::object_after_selection;
use crate::engine::objects_scene;
use crate::engine::selection_marks;
use crate::engine::SELECTION_MARKER_SIZE;
use crate::engine::large_enough;
use crate::engine::swept;
use crate::engine::EngineView;
use crate::input::MouseButton;
use crate::input::UserInput;
use crate::paint_object::freehand_curve::lemma_resized_is_valid;
use crate::paint_object::freehand_curve::lemma_shifted_is_valid;
use crate::paint_object::picture::PickResult;
use crate::paint_object::picture::PictureTool;
use crate::paint_object::PaintObjectView;
use crate::painter::DrawCommand;
use crate::primitives::Camera;
use crate::primitives::Color;
use crate::primitives::lemma_rounded_up_size_is_positive;
use crate::primitives::scaled_to_world;
use crate::primitives::Number;
use crate::primitives::RectangleVertex;
use crate::primitives::ScreenSpace;
use crate::primitives::Stroke;
use crate::primitives::Vector2;
use crate::primitives::WorldSpace;
use crate::primitives::ZOOM_MIN;
use crate::primitives::ZOOM_UNIT;
use crate::tool::lemma_a_step_keeps_the_tool_valid;
use crate::tool::ToolView;

verus! {

/// A click of the primary button at `position`.
pub open spec fn primary_click(position: Vector2<ScreenSpace>, is_shift_down: bool) -> UserInput {
    UserInput::MouseClick { position, button: MouseButton::Left, is_shift_down }
}

/// Whether the object at `i` is under the pointer once a click at `position`
/// has refreshed its pointer position, in a viewport of the given size.
pub open spec fn hit_by_click(
    engine: EngineView,
    i: int,
    position: Vector2<ScreenSpace>,
    view_width: i32,
    view_height: i32,
) -> bool {
    engine.objects[i].refreshed(
        primary_click(position, false),
        engine.framed(view_width, view_height).camera,
    ).is_under_mouse()
}

/// Whether an object survives a delete: it is not selected.
pub open spec fn survives(object: PaintObjectView) -> bool {
    !object.is_selected()
}

/// Pan conversion: a pan by the SCREEN displacement `v` moves the camera's
/// position by `v / zoom` WORLD units along each axis, as long as the sum
/// stays inside the coordinate range. The scene, the tools and the zoom
/// stay as they are.
pub proof fn lemma_pan_moves_the_camera(
    engine: EngineView,
    v: Vector2<ScreenSpace>,
    stroke: Stroke<WorldSpace>,
    view_width: i32,
    view_height: i32,
    picked: PickResult,
)
    requires
        engine.wf(),
        i32::MIN <= scaled_to_world(v.x as int, engine.camera.zoom as int) <= i32::MAX,
        i32::MIN <= scaled_to_world(v.y as int, engine.camera.zoom as int) <= i32::MAX,
        i32::MIN <= engine.camera.position.x + scaled_to_world(
            v.x as int,
            engine.camera.zoom as int,
        ) <= i32::MAX,
        i32::MIN <= engine.camera.position.y + scaled_to_world(
            v.y as int,
            engine.camera.zoom as int,
        ) <= i32::MAX,
    ensures
        engine.updated(
            UserInput::Pan { delta: v },
            stroke,
            view_width,
            view_height,
            picked,
        ).camera.position.x == engine.camera.position.x + (v.x * ZOOM_UNIT) / (
        engine.camera.zoom as int),
        engine.updated(
            UserInput::Pan { delta: v },
            stroke,
            view_width,
            view_height,
            picked,
        ).camera.position.y == engine.camera.position.y + (v.y * ZOOM_UNIT) / (
        engine.camera.zoom as int),
        engine.updated(UserInput::Pan { delta: v }, stroke, view_width, view_height, picked).camera.zoom
            == engine.camera.zoom,
        engine.updated(UserInput::Pan { delta: v }, stroke, view_width, view_height, picked).objects
            == engine.objects,
        engine.updated(UserInput::Pan { delta: v }, stroke, view_width, view_height, picked).tools
            == engine.tools,
{
}

/// A zoom input changes the zoom and nothing else of the scene: the zoom
/// stays positive, and objects, tools and the camera's position are as
/// before.
pub proof fn lemma_zoom_changes_only_the_zoom(
    engine: EngineView,
    delta: i32,
    stroke: Stroke<WorldSpace>,
    view_width: i32,
    view_height: i32,
    picked: PickResult,
)
    requires
        engine.wf(),
    ensures
        engine.updated(UserInput::Zoom { delta }, stroke, view_width, view_height, picked).camera.zoom
            >= ZOOM_MIN,
        engine.camera.zoom + delta >= ZOOM_MIN && engine.camera.zoom + delta <= i32::MAX
            ==> engine.updated(
            UserInput::Zoom { delta },
            stroke,
            view_width,
            view_height,
            picked,
        ).camera.zoom == engine.camera.zoom + delta,
        engine.updated(
            UserInput::Zoom { delta },
            stroke,
            view_width,
            view_height,
            picked,
        ).camera.position == engine.camera.position,
        engine.updated(UserInput::Zoom { delta }, stroke, view_width, view_height, picked).objects
            == engine.objects,
        engine.updated(UserInput::Zoom { delta }, stroke, view_width, view_height, picked).tools
            == engine.tools,
{
}

/// At every zoom a corner handle can be grabbed: its radius in WORLD units
/// is at least one, so the pointer on the corner itself is within it.
pub proof fn lemma_a_corner_can_be_grabbed(
    engine: EngineView,
    object: PaintObjectView,
    vertex: RectangleVertex,
)
    requires
        engine.wf(),
        object.is_selected(),
    ensures
        engine.grip_radius().value >= 1,
        grips(object, object.bounding_rect().spec_vertex(vertex), engine.grip_radius()) is Some,
{
    lemma_rounded_up_size_is_positive(engine.camera, Number::spec_new(SELECTION_MARKER_SIZE));
    let radius = engine.grip_radius();
    let corner = object.bounding_rect().spec_vertex(vertex);
    assert(radius.value * radius.value >= 1) by (nonlinear_arith)
        requires
            radius.value >= 1,
    ;
    assert(object.bounding_rect().vertex_is_under(vertex, corner, radius));
}

/// A failed step leaves the failing tool with its gesture cleared, so that
/// the user can repeat it. Only the picture tool can fail.
pub proof fn lemma_a_failed_step_clears_the_tool(
    engine: EngineView,
    input: UserInput,
    stroke: Stroke<WorldSpace>,
    view_width: i32,
    view_height: i32,
    picked: PickResult,
)
    requires
        engine.wf(),
        !(input is Pan),
        !(input is Zoom),
        engine.tool_fails(input, picked),
    ensures
        engine.updated(input, stroke, view_width, view_height, picked).tools.len()
            == engine.tools.len(),
        engine.updated(input, stroke, view_width, view_height, picked).tools[engine.selected_tool_index->0 as int]
            == ToolView::Picture(PictureTool { p1: None, p2: None }),
        engine.updated(input, stroke, view_width, view_height, picked).objects.len()
            == engine.objects.len(),
{
}

/// An object's bounding box holds its geometry: every point of a curve lies
/// inside the curve's box. The boxes of lines and pictures are their
/// geometry.
pub open spec fn holds_its_points(object: PaintObjectView) -> bool {
    match object {
        PaintObjectView::Curve(curve) => curve.box_holds_points(),
        _ => true,
    }
}

/// The scene is sound: every object's box holds its geometry, and every
/// tool is valid.
pub open spec fn scene_is_sound(engine: EngineView) -> bool {
    (forall|i: int| 0 <= i < engine.objects.len() ==> holds_its_points(#[trigger] engine.objects[i]))
        && (forall|t: int| 0 <= t < engine.tools.len() ==> (#[trigger] engine.tools[t]).wf())
}

/// Refreshing the pointer position and setting the selection flag leave an
/// object's box and points alone.
pub proof fn lemma_selection_keeps_the_box(
    object: PaintObjectView,
    input: UserInput,
    camera: Camera,
    selecting: bool,
)
    requires
        holds_its_points(object),
    ensures
        holds_its_points(object_after_selection(object, input, camera, selecting)),
{
    let after = object_after_selection(object, input, camera, selecting);
    match object {
        PaintObjectView::Curve(curve) => {
            let kept = after->Curve_0;
            assert forall|i: int| 0 <= i < kept.points.len() implies #[trigger] kept.bounding_rect().spec_contains_point(
                kept.points[i],
            ) by {
                assert(curve.bounding_rect().spec_contains_point(curve.points[i]));
            }
        },
        _ => {},
    }
}

/// Moving an object, or resizing it to a rectangle that is large enough,
/// keeps its geometry inside its box.
pub proof fn lemma_manipulation_keeps_the_box(
    object: PaintObjectView,
    vertex: Option<RectangleVertex>,
    delta: Vector2<WorldSpace>,
    dragged: bool,
)
    requires
        holds_its_points(object),
    ensures
        holds_its_points(manipulated(object, vertex, delta, dragged)),
{
    match object {
        PaintObjectView::Curve(curve) => {
            lemma_shifted_is_valid(curve, delta);
            if vertex is Some {
                let fitted = object.bounding_rect().spec_resize_by_dragging_vertex(vertex->0, delta);
                if large_enough(fitted) {
                    lemma_resized_is_valid(curve, fitted);
                }
            }
        },
        _ => {},
    }
}

/// Sweeping brings in no object that was not there.
pub proof fn lemma_swept_keeps_the_box(objects: Seq<PaintObjectView>, i: nat)
    requires
        forall|j: int| 0 <= j < objects.len() ==> holds_its_points(#[trigger] objects[j]),
    ensures
        forall|k: int|
            0 <= k < swept(objects, i).len() ==> holds_its_points(#[trigger] swept(objects, i)[k]),
    decreases i,
{
    if i == 0 || i > objects.len() {
        assert(swept(objects, i) == objects);
    } else if objects[i - 1].is_selected() {
        let rest = objects.update(i - 1, objects.last()).drop_last();
        assert forall|j: int| 0 <= j < rest.len() implies holds_its_points(#[trigger] rest[j]) by {
            if j == i - 1 {
                assert(holds_its_points(objects[objects.len() - 1]));
            } else {
                assert(holds_its_points(objects[j]));
            }
        }
        lemma_swept_keeps_the_box(rest, (i - 1) as nat);
        assert(swept(objects, i) == swept(rest, (i - 1) as nat));
    } else {
        lemma_swept_keeps_the_box(objects, (i - 1) as nat);
        assert(swept(objects, i) == swept(objects, (i - 1) as nat));
    }
}

/// A sound scene stays sound over every step of the engine: whatever the
/// input, every curve keeps its points inside its bounding box, which the
/// hit test relies on, and every tool stays valid.
pub proof fn lemma_update_keeps_the_scene_sound(
    engine: EngineView,
    input: UserInput,
    stroke: Stroke<WorldSpace>,
    view_width: i32,
    view_height: i32,
    picked: PickResult,
)
    requires
        engine.wf(),
        scene_is_sound(engine),
    ensures
        scene_is_sound(engine.updated(input, stroke, view_width, view_height, picked)),
{
    let after = engine.updated(input, stroke, view_width, view_height, picked);
    if input is Pan || input is Zoom {
        assert(after.objects == engine.objects);
        assert(after.tools == engine.tools);
    } else {
        let framed = engine.framed(view_width, view_height);
        let tooled = framed.after_tool(input, stroke, picked);
        assert(scene_is_sound(tooled)) by {
            if framed.active_tool() is Some {
                let t = framed.selected_tool_index->0 as int;
                let tool = framed.tools[t];
                assert(engine.tools[t].wf());
                lemma_a_step_keeps_the_tool_valid(tool, input, stroke, framed.camera, picked);
                assert forall|k: int| 0 <= k < tooled.tools.len() implies (#[trigger] tooled.tools[k]).wf() by {
                    if k != t {
                        assert(engine.tools[k].wf());
                    }
                }
                assert forall|k: int| 0 <= k < tooled.objects.len() implies holds_its_points(
                    #[trigger] tooled.objects[k],
                ) by {
                    if k < engine.objects.len() {
                        assert(holds_its_points(engine.objects[k]));
                    } else {
                        let made = tool.created(input, stroke, framed.camera, picked)->0;
                        assert(tooled.objects[k] == made);
                        assert(made.wf());
                    }
                }
            }
        }
        let moded = tooled.after_mode(input);
        let selected = moded.after_selection(input);
        assert forall|k: int| 0 <= k < selected.objects.len() implies holds_its_points(
            #[trigger] selected.objects[k],
        ) by {
            assert(holds_its_points(tooled.objects[k]));
            lemma_selection_keeps_the_box(moded.objects[k], input, moded.camera, moded.selecting());
        }
        let handled = selected.after_manipulation(input);
        assert forall|k: int| 0 <= k < handled.objects.len() implies holds_its_points(
            #[trigger] handled.objects[k],
        ) by {
            assert(holds_its_points(selected.objects[k]));
            if input is MouseMove {
                lemma_manipulation_keeps_the_box(
                    selected.objects[k],
                    grabbed_after(
                        selected.objects,
                        (k + 1) as nat,
                        selected.object_is_resized_by_vertex,
                        selected.camera.spec_to_world(input->MouseMove_position),
                        selected.grip_radius(),
                    ),
                    selected.camera.spec_distance_to_world(input->MouseMove_delta),
                    selected.objects_are_dragged,
                );
            }
        }
        lemma_swept_keeps_the_box(handled.objects, handled.objects.len());
        assert(after == handled.after_removal(input));
        assert(after.tools == tooled.tools);
    }
}

/// What a drawing holds for the object at `i`: its own commands, then its
/// selection marks.
pub open spec fn part_of(
    objects: Seq<PaintObjectView>,
    i: int,
    camera: Camera,
    background: Color,
) -> Seq<DrawCommand> {
    objects[i].commands(camera) + selection_marks(objects[i], camera, background)
}

/// Where in the drawing of the objects the part of the object at `i`
/// begins: after the drawing of the objects before it.
pub open spec fn start_of(
    objects: Seq<PaintObjectView>,
    i: int,
    camera: Camera,
    background: Color,
) -> int {
    objects_scene(objects, i as nat, camera, background).len() as int
}

/// Every object has its place in the drawing: the drawing of the first `n`
/// objects holds, between the place of the object at `i` and the place of
/// the next, that object's commands followed by its selection marks.
pub proof fn lemma_each_object_is_drawn_in_its_place(
    objects: Seq<PaintObjectView>,
    n: nat,
    i: int,
    camera: Camera,
    background: Color,
)
    requires
        0 <= i < n <= objects.len(),
    ensures
        start_of(objects, i, camera, background) <= start_of(objects, i + 1, camera, background)
            <= objects_scene(objects, n, camera, background).len(),
        objects_scene(objects, n, camera, background).subrange(
            start_of(objects, i, camera, background),
            start_of(objects, i + 1, camera, background),
        ) == part_of(objects, i, camera, background),
    decreases n,
{
    let before = objects_scene(objects, i as nat, camera, background);
    let part = part_of(objects, i, camera, background);
    let all = objects_scene(objects, n, camera, background);
    let from = start_of(objects, i, camera, background);
    let to = start_of(objects, i + 1, camera, background);
    assert(objects_scene(objects, (i + 1) as nat, camera, background) =~= before + part);
    if n == i + 1 {
        assert(all.subrange(from, to) =~= part);
    } else {
        lemma_each_object_is_drawn_in_its_place(objects, (n - 1) as nat, i, camera, background);
        let shorter = objects_scene(objects, (n - 1) as nat, camera, background);
        assert(all =~= shorter + part_of(objects, n - 1, camera, background));
        assert(all.subrange(from, to) =~= shorter.subrange(from, to));
    }
}

/// A frame shows the background first, then every object in its place,
/// each followed by its selection marks.
pub proof fn lemma_a_frame_shows_each_object(engine: EngineView, i: int, background: Color)
    requires
        0 <= i < engine.objects.len(),
    ensures
        engine.scene(background)[0] == background_fill(
            engine.view_width,
            engine.view_height,
            background,
        ),
        1 + start_of(engine.objects, i + 1, engine.camera, background) <= engine.scene(
            background,
        ).len(),
        engine.scene(background).subrange(
            1 + start_of(engine.objects, i, engine.camera, background),
            1 + start_of(engine.objects, i + 1, engine.camera, background),
        ) == part_of(engine.objects, i, engine.camera, background),
{
    let all = objects_scene(engine.objects, engine.objects.len(), engine.camera, background);
    let from = start_of(engine.objects, i, engine.camera, background);
    let to = start_of(engine.objects, i + 1, engine.camera, background);
    lemma_each_object_is_drawn_in_its_place(
        engine.objects,
        engine.objects.len(),
        i,
        engine.camera,
        background,
    );
    assert(engine.scene(background).subrange(1 + from, 1 + to) =~= all.subrange(from, to));
}

/// Whether an object is under the pointer does not depend on its selection
/// flag.
pub proof fn lemma_flag_does_not_move_the_hit_test(object: PaintObjectView, value: bool)
    ensures
        object.with_selected(value).is_under_mouse() == object.is_under_mouse(),
{
    match object {
        PaintObjectView::Curve(curve) => {
            let flagged = object.with_selected(value)->Curve_0;
            if curve.is_under_mouse() {
                let k = choose|k: int| 0 <= k < curve.points.len() && curve.point_is_hit(k);
                assert(flagged.point_is_hit(k));
            }
            if flagged.is_under_mouse() {
                let k = choose|k: int| 0 <= k < flagged.points.len() && flagged.point_is_hit(k);
                assert(curve.point_is_hit(k));
            }
        },
        _ => {},
    }
}

/// Selection exclusivity: in selection mode, a primary click without shift
/// selects exactly the objects under the pointer. Every other object ends
/// up deselected, whatever was selected before.
pub proof fn lemma_click_selects_only_what_is_hit(
    engine: EngineView,
    position: Vector2<ScreenSpace>,
    stroke: Stroke<WorldSpace>,
    view_width: i32,
    view_height: i32,
    picked: PickResult,
)
    requires
        engine.wf(),
        engine.selecting(),
    ensures
        engine.updated(
            primary_click(position, false),
            stroke,
            view_width,
            view_height,
            picked,
        ).objects.len() == engine.objects.len(),
        forall|i: int|
            0 <= i < engine.objects.len() ==> (#[trigger] engine.updated(
                primary_click(position, false),
                stroke,
                view_width,
                view_height,
                picked,
            ).objects[i]).is_selected() == hit_by_click(
                engine,
                i,
                position,
                view_width,
                view_height,
            ),
{
}

/// Shift toggle: in selection mode, a primary click with shift flips the
/// flag of every object under the pointer and leaves every other flag as
/// it was. So a shift-click on empty space changes no selection.
pub proof fn lemma_shift_click_toggles(
    engine: EngineView,
    position: Vector2<ScreenSpace>,
    stroke: Stroke<WorldSpace>,
    view_width: i32,
    view_height: i32,
    picked: PickResult,
)
    requires
        engine.wf(),
        engine.selecting(),
    ensures
        engine.updated(
            primary_click(position, true),
            stroke,
            view_width,
            view_height,
            picked,
        ).objects.len() == engine.objects.len(),
        forall|i: int|
            0 <= i < engine.objects.len() ==> (#[trigger] engine.updated(
                primary_click(position, true),
                stroke,
                view_width,
                view_height,
                picked,
            ).objects[i]).is_selected() == (if hit_by_click(
                engine,
                i,
                position,
                view_width,
                view_height,
            ) {
                !engine.objects[i].is_selected()
            } else {
                engine.objects[i].is_selected()
            }),
{
}

/// Shift toggle, repeated: two shift-clicks at the same place bring every
/// selection flag back to where it was.
pub proof fn lemma_two_shift_clicks_restore(
    engine: EngineView,
    position: Vector2<ScreenSpace>,
    stroke: Stroke<WorldSpace>,
    view_width: i32,
    view_height: i32,
    picked: PickResult,
)
    requires
        engine.wf(),
        engine.selecting(),
    ensures
        engine.updated(primary_click(position, true), stroke, view_width, view_height, picked).updated(
            primary_click(position, true),
            stroke,
            view_width,
            view_height,
            picked,
        ).objects.len() == engine.objects.len(),
        forall|i: int|
            0 <= i < engine.objects.len() ==> (#[trigger] engine.updated(
                primary_click(position, true),
                stroke,
                view_width,
                view_height,
                picked,
            ).updated(
                primary_click(position, true),
                stroke,
                view_width,
                view_height,
                picked,
            ).objects[i]).is_selected() == engine.objects[i].is_selected(),
{
    let input = primary_click(position, true);
    let once = engine.updated(input, stroke, view_width, view_height, picked);
    lemma_shift_click_toggles(engine, position, stroke, view_width, view_height, picked);
    lemma_shift_click_toggles(once, position, stroke, view_width, view_height, picked);
    let twice = once.updated(input, stroke, view_width, view_height, picked);
    assert forall|i: int| 0 <= i < engine.objects.len() implies (#[trigger] twice.objects[i]).is_selected()
        == engine.objects[i].is_selected() by {
        assert(once.objects[i].is_selected() == (if hit_by_click(
            engine,
            i,
            position,
            view_width,
            view_height,
        ) {
            !engine.objects[i].is_selected()
        } else {
            engine.objects[i].is_selected()
        }));
        let camera = engine.framed(view_width, view_height).camera;
        let fresh = engine.objects[i].refreshed(input, camera);
        assert(once.framed(view_width, view_height).camera == camera);
        assert(once.objects[i] == fresh.with_selected(once.objects[i].is_selected()));
        lemma_flag_does_not_move_the_hit_test(fresh, once.objects[i].is_selected());
        assert(once.objects[i].refreshed(primary_click(position, false), camera)
            == once.objects[i]);
        assert(engine.objects[i].refreshed(primary_click(position, false), camera) == fresh);
    }
}

/// Select-all: after a select-all input every object is selected and no
/// tool is active, whatever the state before.
pub proof fn lemma_select_all_selects_all(
    engine: EngineView,
    stroke: Stroke<WorldSpace>,
    view_width: i32,
    view_height: i32,
    picked: PickResult,
)
    requires
        engine.wf(),
    ensures
        engine.updated(UserInput::SelectAll, stroke, view_width, view_height, picked).selecting(),
        forall|i: int|
            0 <= i < engine.updated(
                UserInput::SelectAll,
                stroke,
                view_width,
                view_height,
                picked,
            ).objects.len() ==> (#[trigger] engine.updated(
                UserInput::SelectAll,
                stroke,
                view_width,
                view_height,
                picked,
            ).objects[i]).is_selected(),
{
}

/// Deselect-all: in selection mode, after a deselect-all input no object
/// is selected, whatever was selected before.
pub proof fn lemma_deselect_all_deselects_all(
    engine: EngineView,
    stroke: Stroke<WorldSpace>,
    view_width: i32,
    view_height: i32,
    picked: PickResult,
)
    requires
        engine.wf(),
        engine.selecting(),
    ensures
        engine.updated(UserInput::DeselectAll, stroke, view_width, view_height, picked).objects.len()
            == engine.objects.len(),
        forall|i: int|
            0 <= i < engine.objects.len() ==> !(#[trigger] engine.updated(
                UserInput::DeselectAll,
                stroke,
                view_width,
                view_height,
                picked,
            ).objects[i]).is_selected(),
{
}

/// Sweeping removes the selected objects and nothing else: what is left
/// holds every unselected object as often as the list did, and no selected
/// one.
pub proof fn lemma_swept_keeps_the_unselected(objects: Seq<PaintObjectView>, i: nat)
    requires
        i <= objects.len(),
        forall|j: int| i <= j < objects.len() ==> survives(#[trigger] objects[j]),
    ensures
        swept(objects, i).to_multiset() =~= objects.to_multiset().filter(
            |o: PaintObjectView| survives(o),
        ),
    decreases i,
{
    broadcast use vstd::multiset::group_multiset_axioms;

    let keep = |o: PaintObjectView| survives(o);
    if i == 0 {
        assert forall|v: PaintObjectView|
            objects.to_multiset().count(v) == #[trigger] objects.to_multiset().filter(keep).count(
                v,
            ) by {
            if !survives(v) {
                to_multiset_contains(objects, v);
                if objects.contains(v) {
                    let j = choose|j: int| 0 <= j < objects.len() && objects[j] == v;
                    assert(survives(objects[j]));
                }
            }
        }
    } else if objects[i - 1].is_selected() {
        let gone = objects[i - 1];
        let moved = objects.update(i - 1, objects.last());
        let rest = moved.drop_last();
        assert(rest =~= moved.remove(objects.len() - 1));
        to_multiset_update(objects, i - 1, objects.last());
        to_multiset_remove(moved, objects.len() - 1);
        to_multiset_contains(objects, gone);
        to_multiset_contains(objects, objects.last());
        assert(objects.contains(gone));
        assert(objects.contains(objects.last()));
        assert(rest.to_multiset() =~= objects.to_multiset().remove(gone));
        assert forall|j: int| i - 1 <= j < rest.len() implies survives(#[trigger] rest[j]) by {
            if j == i - 1 {
                assert(survives(objects[objects.len() - 1]));
            } else {
                assert(survives(objects[j]));
            }
        }
        lemma_swept_keeps_the_unselected(rest, (i - 1) as nat);
        assert(rest.to_multiset().filter(keep) =~= objects.to_multiset().filter(keep));
    } else {
        lemma_swept_keeps_the_unselected(objects, (i - 1) as nat);
    }
}

/// Delete: in selection mode, a delete input removes exactly the selected
/// objects. What is left holds every unselected object as often as before
/// and no selected one.
pub proof fn lemma_delete_removes_exactly_the_selected(
    engine: EngineView,
    stroke: Stroke<WorldSpace>,
    view_width: i32,
    view_height: i32,
    picked: PickResult,
)
    requires
        engine.wf(),
        engine.selecting(),
    ensures
        engine.updated(UserInput::Delete, stroke, view_width, view_height, picked).objects.to_multiset()
            =~= engine.objects.to_multiset().filter(|o: PaintObjectView| survives(o)),
{
    let input = UserInput::Delete;
    let before = engine.framed(view_width, view_height).after_tool(input, stroke, picked).after_mode(
        input,
    ).after_selection(input).after_manipulation(input);
    assert(before.objects =~= engine.objects);
    lemma_swept_keeps_the_unselected(engine.objects, engine.objects.len());
}

/// Resize floor: while a corner is remembered, a selected object whose
/// resized bounding box would have a side no longer than the minimum size
/// is left exactly as it is by the manipulation pass.
pub proof fn lemma_resize_floor(engine: EngineView, input: UserInput, i: int)
    requires
        engine.wf(),
        input is MouseMove,
        0 <= i < engine.objects.len(),
        engine.objects[i].is_selected(),
        grabbed_after(
            engine.objects,
            (i + 1) as nat,
            engine.object_is_resized_by_vertex,
            engine.camera.spec_to_world(input->MouseMove_position),
            engine.grip_radius(),
        ) is Some,
        !large_enough(
            engine.objects[i].bounding_rect().spec_resize_by_dragging_vertex(
                grabbed_after(
                    engine.objects,
                    (i + 1) as nat,
                    engine.object_is_resized_by_vertex,
                    engine.camera.spec_to_world(input->MouseMove_position),
                    engine.grip_radius(),
                )->0,
                engine.camera.spec_distance_to_world(input->MouseMove_delta),
            ),
        ),
    ensures
        engine.after_manipulation(input).objects[i] == engine.objects[i],
{
}

} // verus!
