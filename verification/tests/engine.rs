use picipaint::engine::Engine;
use picipaint::input::MouseButton;
use picipaint::input::UserInput;
use picipaint::paint_object::picture::PickResult;
use picipaint::paint_object::picture::Picture;
use picipaint::paint_object::straight_line::StraghtLineTool;
use picipaint::paint_object::straight_line::StraightLine;
use picipaint::paint_object::freehand_curve::FreehandCurveTool;
use picipaint::paint_object::PaintObject;
use picipaint::paint_object::PaintObjectCommon;
use picipaint::painter::DrawCommand;
use picipaint::painter::WorldPainter;
use picipaint::primitives::Camera;
use picipaint::primitives::Color;
use picipaint::primitives::Number;
use picipaint::primitives::Rectangle;
use picipaint::primitives::ScreenSpace;
use picipaint::primitives::Stroke;
use picipaint::primitives::Vector2;
use picipaint::primitives::WorldSpace;
use picipaint::tool::Tool;

const VIEW_WIDTH: i32 = 1000;
const VIEW_HEIGHT: i32 = 1000;

fn stroke() -> Stroke<WorldSpace> {
    Stroke::new(Color { red: 255, green: 255, blue: 255, alpha: 255 }, Number::new(1))
}

fn bg_color() -> Color {
    Color { red: 0, green: 0, blue: 0, alpha: 255 }
}

fn world(x: i32, y: i32) -> Vector2<WorldSpace> {
    Vector2::new(x, y)
}

fn screen(x: i32, y: i32) -> Vector2<ScreenSpace> {
    Vector2::new(x, y)
}

// An engine whose camera looks at the middle of the viewport, so that at
// zoom one a SCREEN position and the WORLD position under it have the same
// coordinates.
fn new_engine(tools: Vec<Tool>) -> Engine {
    let mut engine = Engine::new(tools);
    engine.camera.position = world(VIEW_WIDTH / 2, VIEW_HEIGHT / 2);
    engine
}

fn step(engine: &mut Engine, input: UserInput) {
    let outcome = engine.update(input, stroke(), VIEW_WIDTH, VIEW_HEIGHT, PickResult::NotAsked);
    assert_eq!(outcome, Ok(()));
}

fn rectangular_object(x1: i32, y1: i32, x2: i32, y2: i32, image: u64) -> PaintObject {
    PaintObject::Picture(Picture {
        base: PaintObjectCommon { is_selected: false },
        bounding_rect: Rectangle { p1: world(x1, y1), p2: world(x2, y2) },
        image,
        mouse_pos: world(-1000, -1000),
    })
}

fn point_object(x: i32, y: i32) -> PaintObject {
    PaintObject::Line(StraightLine {
        base: PaintObjectCommon { is_selected: false },
        start: world(x, y),
        end: world(x, y),
        stroke: stroke(),
        mouse_pos: world(-1000, -1000),
    })
}

fn two_objects(engine: &mut Engine) {
    engine.add_object(rectangular_object(0, 0, 10, 10, 1));
    engine.add_object(rectangular_object(10, 10, 20, 20, 2));
}

fn click(x: i32, y: i32, is_shift_down: bool) -> UserInput {
    UserInput::MouseClick { position: screen(x, y), button: MouseButton::Left, is_shift_down }
}

fn hover(x: i32, y: i32) -> UserInput {
    UserInput::MouseMove {
        position: screen(x, y),
        delta: screen(0, 0),
        button: MouseButton::NoButton,
        is_shift_down: false,
    }
}

fn count_outlines(commands: &[DrawCommand]) -> usize {
    commands.iter().filter(|c| matches!(c, DrawCommand::Rectangle { .. })).count()
}

fn count_lines(commands: &[DrawCommand]) -> usize {
    commands.iter().filter(|c| matches!(c, DrawCommand::Line { .. })).count()
}

fn outlines(commands: &[DrawCommand]) -> Vec<Rectangle<ScreenSpace>> {
    let mut found = Vec::new();
    for command in commands {
        if let DrawCommand::Rectangle { rectangle, .. } = command {
            found.push(*rectangle);
        }
    }
    found
}

#[test]
fn object_draw_order() {
    // First the background colour is drawn, then the objects in the order
    // in which they were created.
    let mut engine = new_engine(Vec::new());
    engine.add_object(rectangular_object(0, 0, 10, 10, 7));
    engine.add_object(point_object(0, 0));

    step(&mut engine, UserInput::Nothing);
    let commands = engine.draw(bg_color());
    assert_eq!(commands.len(), 3);
    assert!(matches!(commands[0], DrawCommand::RectangleFilled { .. }));
    assert!(matches!(commands[1], DrawCommand::Image { image: 7, .. }));
    assert!(matches!(commands[2], DrawCommand::Line { .. }));
}

#[test]
fn tools_iterator_empty() {
    let engine = new_engine(Vec::new());
    let mut tools_iter = engine.tools_iter();
    assert_eq!(tools_iter.next().map(|tool| tool.display_name()), None);
}

#[test]
fn tools_iterator() {
    let engine = new_engine(vec![
        Tool::Curve(FreehandCurveTool::default()),
        Tool::Line(StraghtLineTool::default()),
    ]);
    let mut tools_iter = engine.tools_iter();
    assert_eq!(tools_iter.next().map(|tool| tool.display_name()), Some("free-hand curve"));
    assert_eq!(tools_iter.next().map(|tool| tool.display_name()), Some("straight line"));
    assert_eq!(tools_iter.next().map(|tool| tool.display_name()), None);
}

#[test]
fn nothing_is_drawn_if_no_tool_is_selected() {
    let tools = vec![
        Tool::Line(StraghtLineTool::default()),
        Tool::Line(StraghtLineTool::default()),
    ];
    let mut engine = new_engine(tools);
    engine.select_tool(None);

    step(&mut engine, click(5, 5, false));
    let commands = engine.draw(bg_color());
    assert_eq!(commands.len(), 1);
    assert!(matches!(commands[0], DrawCommand::RectangleFilled { .. }));

    step(&mut engine, hover(50, 50));
    let commands = engine.draw(bg_color());
    assert_eq!(commands.len(), 1);

    // No tool was used.
    assert_eq!(engine.tools[0], Tool::Line(StraghtLineTool::default()));
    assert_eq!(engine.tools[1], Tool::Line(StraghtLineTool::default()));
}

#[test]
fn only_the_selected_tool_is_used() {
    let tools = vec![
        Tool::Line(StraghtLineTool::default()),
        Tool::Line(StraghtLineTool::default()),
    ];
    let mut engine = new_engine(tools);

    engine.select_tool(Some(0));
    step(&mut engine, click(5, 5, false));
    let commands = engine.draw(bg_color());
    assert_eq!(count_lines(&commands), 1);
    assert_eq!(
        engine.tools[0],
        Tool::Line(StraghtLineTool {
            start: Some(world(5, 5)),
            stroke: Some(stroke()),
            mouse_pos: world(5, 5),
        })
    );
    assert_eq!(engine.tools[1], Tool::Line(StraghtLineTool::default()));

    engine.select_tool(Some(1));
    step(&mut engine, click(7, 8, false));
    let commands = engine.draw(bg_color());
    assert_eq!(count_lines(&commands), 1);
    assert_eq!(
        engine.tools[1],
        Tool::Line(StraghtLineTool {
            start: Some(world(7, 8)),
            stroke: Some(stroke()),
            mouse_pos: world(7, 8),
        })
    );
    // The first tool keeps what it had.
    assert_eq!(
        engine.tools[0],
        Tool::Line(StraghtLineTool {
            start: Some(world(5, 5)),
            stroke: Some(stroke()),
            mouse_pos: world(5, 5),
        })
    );
}

// Points at distance 50 from the origin, with even coordinates.
fn ring() -> Vec<(i32, i32)> {
    vec![
        (50, 0),
        (40, 30),
        (30, 40),
        (0, 50),
        (-30, 40),
        (-40, 30),
        (-50, 0),
        (-40, -30),
        (-30, -40),
        (0, -50),
    ]
}

fn circles_through(camera: &Camera, middle: (i32, i32), radius: i32) -> Vec<(f64, i32)> {
    let mut painter = WorldPainter::new();
    for (dx, dy) in ring() {
        painter.draw_circle(world(middle.0 + dx, middle.1 + dy), Number::new(radius), stroke(), camera);
    }
    let mut seen = Vec::new();
    for command in painter.commands.iter() {
        match command {
            DrawCommand::Circle { center, radius, .. } => {
                let x = (center.x - camera.offset.x) as f64;
                let y = (center.y - camera.offset.y) as f64;
                seen.push(((x * x + y * y).sqrt(), radius.value));
            },
            _ => panic!("only circles were drawn"),
        }
    }
    seen
}

#[test]
fn zooming_centered_around_camera_position() {
    let middle = (100, 50);
    let objects_count = 10;
    let big_r = 50.0;
    let little_r = 2;

    // With a camera centred at `middle` and zoom one, every circle is as far
    // from the middle of the screen as it is from `middle` in the world,
    // and as large.
    let camera = Camera { position: world(100, 50), offset: screen(500, 500), zoom: 1000 };
    let seen = circles_through(&camera, middle, little_r);
    assert_eq!(seen.len(), objects_count);
    for (distance, radius) in seen {
        assert_eq!(distance, big_r);
        assert_eq!(radius, little_r);
    }

    // With zoom two they are twice as far away and twice as large.
    let camera = Camera { position: world(100, 50), offset: screen(500, 500), zoom: 2000 };
    let seen = circles_through(&camera, middle, little_r);
    assert_eq!(seen.len(), objects_count);
    for (distance, radius) in seen {
        assert_eq!(distance, 2.0 * big_r);
        assert_eq!(radius, 2 * little_r);
    }

    // With zoom one half they are half as far away and half as large.
    let camera = Camera { position: world(100, 50), offset: screen(500, 500), zoom: 500 };
    let seen = circles_through(&camera, middle, little_r);
    assert_eq!(seen.len(), objects_count);
    for (distance, radius) in seen {
        assert_eq!(distance, 0.5 * big_r);
        assert_eq!(radius, little_r / 2);
    }
}

#[test]
fn zooming_not_centered_around_camera_position() {
    let middle = (100, 50);
    let objects_count = 10;
    let little_r = 1;

    // With a camera that is not centred at `middle`, the radius is still
    // the same as in the world at zoom one.
    let camera = Camera { position: world(200, 250), offset: screen(500, 500), zoom: 1000 };
    let seen = circles_through(&camera, middle, little_r);
    assert_eq!(seen.len(), objects_count);
    for (_, radius) in seen {
        assert_eq!(radius, little_r);
    }

    // With zoom two the radius is twice as large.
    let camera = Camera { position: world(100, 50), offset: screen(500, 500), zoom: 2000 };
    let seen = circles_through(&camera, middle, little_r);
    assert_eq!(seen.len(), objects_count);
    for (_, radius) in seen {
        assert_eq!(radius, 2 * little_r);
    }
}

#[test]
fn user_input_zoom() {
    let mut engine = new_engine(Vec::new());

    let old_zoom = engine.camera.zoom;
    step(&mut engine, UserInput::Zoom { delta: 0 });
    assert_eq!(engine.camera.zoom, old_zoom + 0);

    let old_zoom = engine.camera.zoom;
    step(&mut engine, UserInput::Zoom { delta: 1000 });
    assert_eq!(engine.camera.zoom, old_zoom + 1000);

    let old_zoom = engine.camera.zoom;
    step(&mut engine, UserInput::Zoom { delta: -1000 });
    assert_eq!(engine.camera.zoom, old_zoom - 1000);

    let old_zoom = engine.camera.zoom;
    step(&mut engine, UserInput::Zoom { delta: 10000 });
    step(&mut engine, UserInput::Zoom { delta: -10000 });
    assert_eq!(engine.camera.zoom, old_zoom);

    let old_zoom = engine.camera.zoom;
    step(&mut engine, UserInput::Pan { delta: screen(10, 50) });
    step(&mut engine, UserInput::Zoom { delta: 10000 });
    assert_eq!(engine.camera.zoom, old_zoom + 10000);

    let old_zoom = engine.camera.zoom;
    step(&mut engine, UserInput::Zoom { delta: 10000 });
    step(&mut engine, UserInput::Pan { delta: screen(10, 50) });
    assert_eq!(engine.camera.zoom, old_zoom + 10000);
}

#[test]
fn user_input_pan() {
    let mut engine = new_engine(Vec::new());

    engine.camera.zoom = 1000;
    engine.camera.position = world(0, 0);
    step(&mut engine, UserInput::Pan { delta: screen(0, 0) });
    assert_eq!(engine.camera.position.x, 0);
    assert_eq!(engine.camera.position.y, 0);

    engine.camera.zoom = 1000;
    engine.camera.position = world(0, 0);
    step(&mut engine, UserInput::Pan { delta: screen(10, 1) });
    assert_eq!(engine.camera.position.x, 10);
    assert_eq!(engine.camera.position.y, 1);

    engine.camera.zoom = 1000;
    engine.camera.position = world(0, 0);
    step(&mut engine, UserInput::Pan { delta: screen(10, 1) });
    step(&mut engine, UserInput::Pan { delta: screen(10, 1) });
    assert_eq!(engine.camera.position.x, 20);
    assert_eq!(engine.camera.position.y, 2);

    // The pan delta comes in screen coordinates, the camera position is in
    // world coordinates: the more zoomed in, the less a delta moves it.

    engine.camera.zoom = 10000;
    engine.camera.position = world(0, 0);
    step(&mut engine, UserInput::Pan { delta: screen(10, 100) });
    assert_eq!(engine.camera.position.x, 1);
    assert_eq!(engine.camera.position.y, 10);

    engine.camera.zoom = 500;
    engine.camera.position = world(0, 0);
    step(&mut engine, UserInput::Pan { delta: screen(10, 1) });
    assert_eq!(engine.camera.position.x, 20);
    assert_eq!(engine.camera.position.y, 2);

    engine.camera.zoom = 500;
    engine.camera.position = world(0, 0);
    step(&mut engine, UserInput::Pan { delta: screen(10, 1) });
    step(&mut engine, UserInput::Pan { delta: screen(10, 1) });
    assert_eq!(engine.camera.position.x, 40);
    assert_eq!(engine.camera.position.y, 4);

    engine.camera.zoom = 1000;
    engine.camera.position = world(0, 0);
    step(&mut engine, UserInput::Pan { delta: screen(10, 1) });
    engine.camera.zoom = 500;
    step(&mut engine, UserInput::Pan { delta: screen(10, 1) });
    assert_eq!(engine.camera.position.x, 30);
    assert_eq!(engine.camera.position.y, 3);
}

#[test]
fn no_selection_without_user_input() {
    let mut engine = new_engine(Vec::new());
    two_objects(&mut engine);

    // None of the following inputs selects an object.

    step(&mut engine, UserInput::Nothing);
    assert_eq!(engine.objects[0].is_selected(), false);
    assert_eq!(engine.objects[1].is_selected(), false);

    step(&mut engine, hover(5, 5));
    assert_eq!(engine.objects[0].is_selected(), false);
    assert_eq!(engine.objects[1].is_selected(), false);

    step(&mut engine, UserInput::Pan { delta: screen(1, 0) });
    assert_eq!(engine.objects[0].is_selected(), false);
    assert_eq!(engine.objects[1].is_selected(), false);

    step(
        &mut engine,
        UserInput::MouseClick {
            button: MouseButton::Right,
            position: screen(15, 15),
            is_shift_down: false,
        },
    );
    assert_eq!(engine.objects[0].is_selected(), false);
    assert_eq!(engine.objects[1].is_selected(), false);
}

#[test]
fn no_selection_if_a_tool_is_selected() {
    let mut engine = new_engine(vec![Tool::Curve(FreehandCurveTool::default())]);
    two_objects(&mut engine);

    engine.select_tool(Some(0));

    step(&mut engine, click(5, 5, false));
    assert_eq!(engine.objects[0].is_selected(), false);
    assert_eq!(engine.objects[1].is_selected(), false);

    step(&mut engine, click(15, 15, false));
    assert_eq!(engine.objects[0].is_selected(), false);
    assert_eq!(engine.objects[1].is_selected(), false);

    step(&mut engine, click(5, 5, true));
    assert_eq!(engine.objects[0].is_selected(), false);
    assert_eq!(engine.objects[1].is_selected(), false);

    step(&mut engine, click(15, 15, true));
    assert_eq!(engine.objects[0].is_selected(), false);
    assert_eq!(engine.objects[1].is_selected(), false);
}

#[test]
fn single_selection() {
    let mut engine = new_engine(Vec::new());
    two_objects(&mut engine);

    // click object #1
    step(&mut engine, click(5, 5, false));
    assert_eq!(engine.objects[0].is_selected(), true);
    assert_eq!(engine.objects[1].is_selected(), false);

    // click object #2
    step(&mut engine, click(15, 15, false));
    assert_eq!(engine.objects[0].is_selected(), false);
    assert_eq!(engine.objects[1].is_selected(), true);

    // click neither
    step(&mut engine, click(100, 100, false));
    assert_eq!(engine.objects[0].is_selected(), false);
    assert_eq!(engine.objects[1].is_selected(), false);
}

fn shift_sequence(engine: &mut Engine, first_with_shift: bool) {
    // click object #1
    step(engine, click(5, 5, first_with_shift));
    assert_eq!(engine.objects[0].is_selected(), true);
    assert_eq!(engine.objects[1].is_selected(), false);

    // click object #1
    step(engine, click(5, 5, true));
    assert_eq!(engine.objects[0].is_selected(), false);
    assert_eq!(engine.objects[1].is_selected(), false);

    // click neither
    step(engine, click(100, 100, true));
    assert_eq!(engine.objects[0].is_selected(), false);
    assert_eq!(engine.objects[1].is_selected(), false);

    // click object #1
    step(engine, click(5, 5, true));
    assert_eq!(engine.objects[0].is_selected(), true);
    assert_eq!(engine.objects[1].is_selected(), false);

    // click object #2
    step(engine, click(15, 15, true));
    assert_eq!(engine.objects[0].is_selected(), true);
    assert_eq!(engine.objects[1].is_selected(), true);

    // click neither
    step(engine, click(100, 100, true));
    assert_eq!(engine.objects[0].is_selected(), true);
    assert_eq!(engine.objects[1].is_selected(), true);

    // click object #2
    step(engine, click(15, 15, true));
    assert_eq!(engine.objects[0].is_selected(), true);
    assert_eq!(engine.objects[1].is_selected(), false);

    // click object #1
    step(engine, click(5, 5, true));
    assert_eq!(engine.objects[0].is_selected(), false);
    assert_eq!(engine.objects[1].is_selected(), false);
}

#[test]
fn selection_with_shift() {
    // While shift is held, every clicked object is selected, and a selected
    // object that is clicked is deselected again. A click on nothing
    // changes nothing.
    let mut engine = new_engine(Vec::new());
    two_objects(&mut engine);
    shift_sequence(&mut engine, true);
}

#[test]
fn selection_remains_if_no_input() {
    let mut engine = new_engine(Vec::new());
    two_objects(&mut engine);

    // click object #1
    step(&mut engine, click(5, 5, false));
    assert_eq!(engine.objects[0].is_selected(), true);
    assert_eq!(engine.objects[1].is_selected(), false);

    // do nothing
    step(&mut engine, UserInput::Nothing);
    assert_eq!(engine.objects[0].is_selected(), true);
    assert_eq!(engine.objects[1].is_selected(), false);

    // click object #2
    step(&mut engine, click(15, 15, false));
    assert_eq!(engine.objects[0].is_selected(), false);
    assert_eq!(engine.objects[1].is_selected(), true);

    // irrelevant input
    step(&mut engine, hover(5, 5));
    assert_eq!(engine.objects[0].is_selected(), false);
    assert_eq!(engine.objects[1].is_selected(), true);
}

#[test]
fn selection_with_shift_except_first() {
    // The same as `selection_with_shift`, but shift is not held during the
    // first click.
    let mut engine = new_engine(Vec::new());
    two_objects(&mut engine);
    shift_sequence(&mut engine, false);
}

#[test]
fn single_selection_after_multiple_selection() {
    // A click without shift selects the clicked object and deselects all
    // others.
    let mut engine = new_engine(Vec::new());
    two_objects(&mut engine);

    // select all
    step(&mut engine, UserInput::SelectAll);
    assert_eq!(engine.objects[0].is_selected(), true);
    assert_eq!(engine.objects[1].is_selected(), true);

    // click object #1
    step(&mut engine, click(5, 5, false));
    assert_eq!(engine.objects[0].is_selected(), true);
    assert_eq!(engine.objects[1].is_selected(), false);
}

#[test]
fn clicking_elsewhere_deselects_all() {
    let mut engine = new_engine(Vec::new());
    two_objects(&mut engine);

    // select all
    step(&mut engine, UserInput::SelectAll);
    assert_eq!(engine.objects[0].is_selected(), true);
    assert_eq!(engine.objects[1].is_selected(), true);

    // click elsewhere
    step(&mut engine, click(100, 100, false));
    assert_eq!(engine.objects[0].is_selected(), false);
    assert_eq!(engine.objects[1].is_selected(), false);

    // select some
    step(&mut engine, click(5, 5, false));
    assert_eq!(engine.objects[0].is_selected(), true);
    assert_eq!(engine.objects[1].is_selected(), false);

    // click elsewhere
    step(&mut engine, click(100, 100, false));
    assert_eq!(engine.objects[0].is_selected(), false);
    assert_eq!(engine.objects[1].is_selected(), false);
}

#[test]
fn select_all_input_selects_all() {
    let mut engine = new_engine(Vec::new());
    two_objects(&mut engine);

    step(&mut engine, UserInput::SelectAll);
    assert_eq!(engine.objects[0].is_selected(), true);
    assert_eq!(engine.objects[1].is_selected(), true);

    // It also works when only some of the objects are selected.
    step(&mut engine, click(100, 100, false));
    step(&mut engine, click(5, 5, false));
    assert_eq!(engine.objects[0].is_selected(), true);
    assert_eq!(engine.objects[1].is_selected(), false);
    step(&mut engine, UserInput::SelectAll);
    assert_eq!(engine.objects[0].is_selected(), true);
    assert_eq!(engine.objects[1].is_selected(), true);
}

#[test]
fn deselect_all_input_deselects_all() {
    let mut engine = new_engine(Vec::new());
    two_objects(&mut engine);

    // With nothing selected it has no effect.
    step(&mut engine, UserInput::DeselectAll);
    assert_eq!(engine.objects[0].is_selected(), false);
    assert_eq!(engine.objects[1].is_selected(), false);

    // It works with some objects selected.
    step(&mut engine, click(5, 5, false));
    assert_eq!(engine.objects[0].is_selected(), true);
    assert_eq!(engine.objects[1].is_selected(), false);
    step(&mut engine, UserInput::DeselectAll);
    assert_eq!(engine.objects[0].is_selected(), false);
    assert_eq!(engine.objects[1].is_selected(), false);

    // And with all objects selected.
    step(&mut engine, click(5, 5, true));
    step(&mut engine, click(15, 15, true));
    assert_eq!(engine.objects[0].is_selected(), true);
    assert_eq!(engine.objects[1].is_selected(), true);
    step(&mut engine, UserInput::DeselectAll);
    assert_eq!(engine.objects[0].is_selected(), false);
    assert_eq!(engine.objects[1].is_selected(), false);
}

// A click at the place where the WORLD point (x, y) is shown.
fn click_on_world(engine: &Engine, x: i32, y: i32) -> UserInput {
    let position = engine.camera.convert_to_screen_coordinates(world(x, y));
    UserInput::MouseClick { position, button: MouseButton::Left, is_shift_down: false }
}

#[test]
fn zoom_and_pan_do_not_affect_selection() {
    let mut engine = new_engine(Vec::new());
    engine.add_object(rectangular_object(0, 0, 10, 10, 1));

    // control tests
    assert_eq!(engine.objects[0].is_selected(), false);
    step(&mut engine, click(11, 5, false));
    assert_eq!(engine.objects[0].is_selected(), false);
    step(&mut engine, click(5, 5, false));
    assert_eq!(engine.objects[0].is_selected(), true);

    // reset
    step(&mut engine, UserInput::DeselectAll);
    assert_eq!(engine.objects[0].is_selected(), false);

    step(&mut engine, UserInput::Zoom { delta: 20000 });
    let input = click_on_world(&engine, 5, 5);
    step(&mut engine, input);
    assert_eq!(engine.objects[0].is_selected(), true);

    // reset
    step(&mut engine, UserInput::DeselectAll);
    assert_eq!(engine.objects[0].is_selected(), false);

    step(&mut engine, UserInput::Pan { delta: screen(100, -500) });
    let input = click_on_world(&engine, 5, 5);
    step(&mut engine, input);
    assert_eq!(engine.objects[0].is_selected(), true);
}

#[test]
fn no_selection_marker_when_no_objects_selected() {
    let mut engine = new_engine(Vec::new());
    two_objects(&mut engine);

    // As long as nothing is selected, no outline is drawn.
    step(&mut engine, UserInput::Nothing);
    assert_eq!(count_outlines(&engine.draw(bg_color())), 0);

    // click somewhere else
    step(&mut engine, click(100, 100, false));
    assert_eq!(count_outlines(&engine.draw(bg_color())), 0);

    // click on object #1 with the secondary button
    step(
        &mut engine,
        UserInput::MouseClick {
            position: screen(5, 5),
            button: MouseButton::Right,
            is_shift_down: false,
        },
    );
    assert_eq!(count_outlines(&engine.draw(bg_color())), 0);

    step(&mut engine, UserInput::Zoom { delta: 100 });
    assert_eq!(count_outlines(&engine.draw(bg_color())), 0);

    step(&mut engine, UserInput::Pan { delta: screen(-1, -10) });
    assert_eq!(count_outlines(&engine.draw(bg_color())), 0);

    step(&mut engine, UserInput::DeselectAll);
    assert_eq!(count_outlines(&engine.draw(bg_color())), 0);
}

#[test]
fn selection_marker_around_selected_object() {
    let mut engine = new_engine(Vec::new());
    two_objects(&mut engine);

    // select object #1
    step(&mut engine, click(5, 5, false));
    let commands = engine.draw(bg_color());
    assert_eq!(
        outlines(&commands),
        vec![Rectangle { p1: screen(0, 0), p2: screen(10, 10) }]
    );

    step(&mut engine, UserInput::DeselectAll);
    assert_eq!(count_outlines(&engine.draw(bg_color())), 0);
}

#[test]
fn selection_markers_with_multiple_selected_objects() {
    let mut engine = new_engine(Vec::new());
    two_objects(&mut engine);

    step(&mut engine, UserInput::SelectAll);
    let commands = engine.draw(bg_color());
    assert_eq!(
        outlines(&commands),
        vec![
            Rectangle { p1: screen(0, 0), p2: screen(10, 10) },
            Rectangle { p1: screen(10, 10), p2: screen(20, 20) },
        ]
    );

    step(&mut engine, UserInput::DeselectAll);
    assert_eq!(count_outlines(&engine.draw(bg_color())), 0);
}

#[test]
fn delete_input_does_nothing_with_nothing_selected() {
    let mut engine = new_engine(Vec::new());
    engine.add_object(point_object(1, 2));
    engine.add_object(point_object(11, 12));

    // Each object is drawn before the delete input and after it.
    step(&mut engine, UserInput::Nothing);
    assert_eq!(count_lines(&engine.draw(bg_color())), 2);

    step(&mut engine, UserInput::Delete);
    assert_eq!(count_lines(&engine.draw(bg_color())), 2);
    assert_eq!(engine.objects.len(), 2);
}

#[test]
fn delete_input_deletes_all_selected_objects() {
    let mut engine = new_engine(Vec::new());
    engine.add_object(point_object(1, 2));
    engine.add_object(point_object(11, 12));

    // Each object is drawn before the delete input but not after it.
    step(&mut engine, UserInput::SelectAll);
    let commands = engine.draw(bg_color());
    assert_eq!(count_lines(&commands), 2);
    assert_eq!(count_outlines(&commands), 2);

    step(&mut engine, UserInput::Delete);
    let commands = engine.draw(bg_color());
    assert_eq!(count_lines(&commands), 0);
    assert_eq!(commands.len(), 1);
    assert_eq!(engine.objects.len(), 0);
}
