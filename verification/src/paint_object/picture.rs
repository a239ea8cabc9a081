//! The embedded picture and the tool that places it.

use vstd::prelude::*;
use crate::input::MouseButton;
use crate::input::UserInput;
use crate::paint_object::image_format::extension_is_supported;
use crate::paint_object::image_format::is_readable_extension;
use crate::paint_object::PaintObjectCommon;
use crate::painter::rectangle_on_screen;
use crate::painter::world_image;
use crate::painter::DrawCommand;
use crate::painter::WorldPainter;
use crate::primitives::Camera;
use crate::primitives::Color;
use crate::primitives::Number;
use crate::primitives::Rectangle;
use crate::primitives::ScreenSpace;
use crate::primitives::Stroke;
use crate::primitives::Vector2;
use crate::primitives::WorldSpace;

verus! {

/// A decoded raster image as the core sees it: the handle under which the
/// host keeps the pixels, and its size in pixels.
#[derive(Clone, Copy, Debug, PartialEq, Eq)]
pub struct PickedImage {
    pub image: u64,
    pub width: u32,
    pub height: u32,
}

/// A pixel count as a WORLD length, held at the top of the range.
pub open spec fn pixels_to_length(pixels: u32) -> Number<WorldSpace> {
    Number::spec_new(if pixels > i32::MAX { i32::MAX } else { pixels as i32 })
}

fn length_of_pixels(pixels: u32) -> (r: Number<WorldSpace>)
    ensures
        r == pixels_to_length(pixels),
{
    Number::new(if pixels > 2147483647u32 { i32::MAX } else { pixels as i32 })
}

/// A raster image shown in a WORLD-space frame.
#[derive(Clone, Copy, Debug, PartialEq, Eq)]
pub struct Picture {
    pub base: PaintObjectCommon,
    pub bounding_rect: Rectangle<WorldSpace>,
    /// The handle under which the host keeps the pixels.
    pub image: u64,
    /// The pointer's last known WORLD position.
    pub mouse_pos: Vector2<WorldSpace>,
}

impl Picture {
    /// The picture of `picked`, unselected, with its top-left corner at
    /// `top_left` and one WORLD unit per pixel.
    pub open spec fn placed(
        picked: PickedImage,
        top_left: Vector2<WorldSpace>,
        mouse_pos: Vector2<WorldSpace>,
    ) -> Self {
        Picture {
            base: PaintObjectCommon { is_selected: false },
            bounding_rect: Rectangle::spec_from_point_and_size(
                top_left,
                pixels_to_length(picked.width),
                pixels_to_length(picked.height),
            ),
            image: picked.image,
            mouse_pos,
        }
    }

    /// Places a decoded image with its top-left corner at `top_left`.
    pub fn new(picked: PickedImage, top_left: Vector2<WorldSpace>, mouse_pos: Vector2<WorldSpace>)
        -> (r: Self)
        ensures
            r == Self::placed(picked, top_left, mouse_pos),
    {
        Picture {
            base: PaintObjectCommon { is_selected: false },
            bounding_rect: Rectangle::from_point_and_size(
                top_left,
                length_of_pixels(picked.width),
                length_of_pixels(picked.height),
            ),
            image: picked.image,
            mouse_pos,
        }
    }

    /// Whether a file dropped on the canvas is to be decoded as a picture.
    /// A file without a path is an error. A file without an extension is
    /// taken for no picture, as is one whose extension no readable image
    /// format lists.
    pub fn dropped_file_is_picture(has_path: bool, extension: Option<&str>) -> (r: Result<
        bool,
        String,
    >)
        ensures
            r is Err <==> !has_path,
            r is Err ==> r->Err_0@ == "Error accessing dropped file. "@,
            r is Ok ==> r->Ok_0 == (extension is Some && is_readable_extension(extension->0@)),
    {
        if !has_path {
            return Err("Error accessing dropped file. ".to_owned());
        }
        match extension {
            Some(ext) => Ok(extension_is_supported(ext)),
            None => Ok(false),
        }
    }

    /// What a dropped file becomes, case by case and in this order: a
    /// file without a path is an error; a file without an extension, or with
    /// one that no readable image format lists, is no picture; a picture
    /// that could not be decoded is an error with the decoder's message; a
    /// decoded picture is placed with its top-left corner at `top_left`.
    pub open spec fn dropped(
        has_path: bool,
        extension: Option<Seq<char>>,
        decoded: PickResult,
        top_left: Vector2<WorldSpace>,
    ) -> Result<Option<Picture>, Seq<char>> {
        if !has_path {
            Err("Error accessing dropped file. "@)
        } else if extension is None || !is_readable_extension(extension->0) {
            Ok(None)
        } else {
            match decoded {
                PickResult::Failed(message) => Err(message@),
                PickResult::Picked(image) => Ok(
                    Some(Self::placed(image, top_left, Vector2::spec_new(0, 0))),
                ),
                _ => Ok(None),
            }
        }
    }

    /// The picture that a dropped file becomes. `decoded` is what decoding
    /// the file gave; the host decodes where [`Picture::dropped_file_is_picture`]
    /// says that the file is a picture. A file that was not decoded gives
    /// nothing.
    pub fn from_dropped_file(
        has_path: bool,
        extension: Option<&str>,
        decoded: PickResult,
        top_left: Vector2<WorldSpace>,
    ) -> (r: Result<Option<Picture>, String>)
        ensures
            match Self::dropped(
                has_path,
                match extension {
                    Some(e) => Some(e@),
                    None => None,
                },
                decoded,
                top_left,
            ) {
                Ok(picture) => r == Ok::<Option<Picture>, String>(picture),
                Err(message) => r is Err && r->Err_0@ == message,
            },
            r is Err && has_path ==> r->Err_0 == decoded->Failed_0,
    {
        match Self::dropped_file_is_picture(has_path, extension) {
            Err(message) => Err(message),
            Ok(false) => Ok(None),
            Ok(true) => match decoded {
                PickResult::Picked(image) => Ok(
                    Some(Picture::new(image, top_left, Vector2::zero())),
                ),
                PickResult::Failed(message) => Err(message),
                _ => Ok(None),
            },
        }
    }

    /// Plain containment of the pointer in the frame.
    pub open spec fn spec_is_under_mouse(&self) -> bool {
        self.bounding_rect.spec_contains_point(self.mouse_pos)
    }

    /// The picture with the pointer position refreshed from `input`.
    pub open spec fn refreshed(&self, input: UserInput, camera: Camera) -> Self {
        match input.spec_mouse_position() {
            Some(position) => Picture { mouse_pos: camera.spec_to_world(position), ..*self },
            None => *self,
        }
    }

    pub open spec fn shifted(&self, v: Vector2<WorldSpace>) -> Self {
        Picture { bounding_rect: self.bounding_rect.spec_shifted_with(v), ..*self }
    }

    pub open spec fn resized(&self, rectangle: Rectangle<WorldSpace>) -> Self {
        Picture { bounding_rect: rectangle, ..*self }
    }

    pub open spec fn commands(&self, camera: Camera) -> Seq<DrawCommand> {
        seq![world_image(self.bounding_rect, self.image, camera)]
    }

    /// Refreshes the cached pointer position from an event that carries one.
    pub fn update(&mut self, input: &UserInput, camera: &Camera)
        requires
            camera.wf(),
        ensures
            *final(self) == old(self).refreshed(*input, *camera),
    {
        if let Some(position) = input.mouse_position() {
            self.mouse_pos = camera.convert_to_world_coordinates(position);
        }
    }

    pub fn draw(&self, painter: &mut WorldPainter, camera: &Camera)
        requires
            camera.wf(),
        ensures
            final(painter).commands@ == old(painter).commands@ + self.commands(*camera),
    {
        painter.draw_image(self.bounding_rect, self.image, camera);
        assert(painter.commands@ =~= old(painter).commands@ + self.commands(*camera));
    }

    #[verifier::when_used_as_spec(spec_is_under_mouse)]
    pub fn is_under_mouse(&self) -> (r: bool)
        ensures
            r == self.spec_is_under_mouse(),
    {
        self.bounding_rect.contains_point(self.mouse_pos)
    }

    pub fn get_bounding_rect(&self) -> (r: Rectangle<WorldSpace>)
        ensures
            r == self.bounding_rect,
    {
        self.bounding_rect
    }

    pub fn shift_with(&mut self, p: Vector2<WorldSpace>)
        ensures
            *final(self) == old(self).shifted(p),
    {
        self.bounding_rect = self.bounding_rect.shifted_with(p);
    }

    pub fn resize_to(&mut self, new_size: Rectangle<WorldSpace>)
        ensures
            *final(self) == old(self).resized(new_size),
    {
        self.bounding_rect = new_size;
    }
}

/// What the host's "pick and decode an image" operation gave.
pub enum PickResult {
    /// The host did not run the operation.
    NotAsked,
    /// The user closed the dialog without choosing.
    Cancelled,
    /// An image was chosen and decoded.
    Picked(PickedImage),
    /// Opening or decoding failed, with the message to show.
    Failed(String),
}

/// The tool that places a picture: where the user clicks, at the image's
/// own size, or in a frame that the user drags open first.
#[derive(Clone, Copy, Debug, PartialEq, Eq)]
pub struct PictureTool {
    /// Where the drag that frames the picture began.
    pub p1: Option<Vector2<WorldSpace>>,
    /// Where that drag has got to.
    pub p2: Option<Vector2<WorldSpace>>,
}

impl Default for PictureTool {
    fn default() -> (r: Self)
        ensures
            r == (PictureTool { p1: None, p2: None }),
    {
        PictureTool { p1: None, p2: None }
    }
}

impl PictureTool {
    /// A frame has been dragged open.
    pub open spec fn has_frame(&self) -> bool {
        self.p1 is Some && self.p2 is Some
    }

    /// Whether `input` is a pointer movement with the given button.
    pub open spec fn is_move_with(input: UserInput, wanted: MouseButton) -> bool {
        match input {
            UserInput::MouseMove { button, .. } => button == wanted,
            _ => false,
        }
    }

    /// Whether `input` ends a drag that has opened a frame.
    pub open spec fn releases_frame(&self, input: UserInput) -> bool {
        Self::is_move_with(input, MouseButton::NoButton) && self.has_frame()
    }

    /// Whether the tool asks for an image on this input: on a click of the
    /// primary button, and when the button is released over a frame.
    pub open spec fn spec_wants_picture(&self, input: UserInput) -> bool {
        input.spec_is_left_click() || self.releases_frame(input)
    }

    /// Whether the host has to run its "pick and decode an image" operation
    /// before this step and hand in what it gave.
    pub fn wants_picture(&self, input: &UserInput) -> (r: bool)
        ensures
            r == self.spec_wants_picture(*input),
    {
        if input.is_left_click() {
            true
        } else {
            match *input {
                UserInput::MouseMove { button, .. } => matches!(button, MouseButton::NoButton)
                    && self.p1.is_some() && self.p2.is_some(),
                _ => false,
            }
        }
    }

    /// Whether the step fails: the tool asked for an image and picking
    /// failed.
    pub open spec fn fails(&self, input: UserInput, picked: PickResult) -> bool {
        self.spec_wants_picture(input) && picked is Failed
    }

    /// The tool after the step. A failed step clears the frame, so that the
    /// gesture starts afresh. Otherwise a movement with the primary button
    /// held records where the drag began, then where it has got to, and the
    /// release over a frame clears the frame, whatever the pick gives.
    pub open spec fn stepped(&self, input: UserInput, camera: Camera, picked: PickResult) -> Self {
        if self.fails(input, picked) {
            PictureTool { p1: None, p2: None }
        } else if Self::is_move_with(input, MouseButton::Left) {
            if self.p1 is None {
                PictureTool {
                    p1: Some(camera.spec_to_world(input.spec_mouse_position()->0)),
                    p2: self.p2,
                }
            } else {
                PictureTool {
                    p1: self.p1,
                    p2: Some(camera.spec_to_world(input.spec_mouse_position()->0)),
                }
            }
        } else if self.releases_frame(input) {
            PictureTool { p1: None, p2: None }
        } else {
            *self
        }
    }

    /// The picture that the step places, given a picked image: on a primary
    /// click the image at its own size with its top-left corner under the
    /// pointer, on the release over a frame the image in that frame.
    pub open spec fn placed(&self, input: UserInput, camera: Camera, picked: PickResult) -> Option<
        Picture,
    > {
        if !(picked is Picked) {
            None
        } else if input.spec_is_left_click() {
            Some(
                Picture::placed(
                    picked->Picked_0,
                    camera.spec_to_world(input.spec_mouse_position()->0),
                    camera.spec_to_world(input.spec_mouse_position()->0),
                ),
            )
        } else if self.releases_frame(input) {
            Some(
                Picture {
                    base: PaintObjectCommon { is_selected: false },
                    bounding_rect: Rectangle { p1: self.p1->0, p2: self.p2->0 },
                    image: picked->Picked_0.image,
                    mouse_pos: self.p2->0,
                },
            )
        } else {
            None
        }
    }

    /// The pen of the frame's outline: the background's complement, one
    /// SCREEN unit thick.
    pub open spec fn frame_stroke(background: Color) -> Stroke<ScreenSpace> {
        Stroke { color: background.spec_inverse(), thickness: Number::spec_new(1) }
    }

    /// The preview: the outline of the frame, once there is one.
    pub open spec fn commands(&self, camera: Camera, background: Color) -> Seq<DrawCommand> {
        if self.has_frame() {
            seq![
                DrawCommand::Rectangle {
                    rectangle: rectangle_on_screen(
                        Rectangle { p1: self.p1->0, p2: self.p2->0 },
                        camera,
                    ),
                    stroke: Self::frame_stroke(background),
                },
            ]
        } else {
            Seq::empty()
        }
    }

    /// Advances the gesture. When the tool asked for an image, it places
    /// the picked one, or hands on the message of a failed pick and forgets
    /// the frame in progress; a cancelled dialog and a pick that was not
    /// made give nothing. Any other input gives nothing either.
    pub fn update(&mut self, input: &UserInput, camera: &Camera, picked: PickResult) -> (r: Result<
        Option<Picture>,
        String,
    >)
        requires
            camera.wf(),
        ensures
            *final(self) == old(self).stepped(*input, *camera, picked),
            old(self).fails(*input, picked) <==> r is Err,
            r is Err ==> r->Err_0 == picked->Failed_0,
            r is Ok ==> r->Ok_0 == old(self).placed(*input, *camera, picked),
    {
        match *input {
            UserInput::MouseClick { position, button, .. } => {
                if matches!(button, MouseButton::Left) {
                    match picked {
                        PickResult::Picked(image) => {
                            let pos = camera.convert_to_world_coordinates(position);
                            Ok(Some(Picture::new(image, pos, pos)))
                        },
                        PickResult::Failed(message) => {
                            self.p1 = None;
                            self.p2 = None;
                            Err(message)
                        },
                        _ => Ok(None),
                    }
                } else {
                    Ok(None)
                }
            },
            UserInput::MouseMove { position, button, .. } => {
                match button {
                    MouseButton::Left => {
                        let pos = camera.convert_to_world_coordinates(position);
                        if self.p1.is_none() {
                            self.p1 = Some(pos);
                        } else {
                            self.p2 = Some(pos);
                        }
                        Ok(None)
                    },
                    MouseButton::NoButton => {
                        match (self.p1, self.p2) {
                            (Some(p1), Some(p2)) => {
                                self.p1 = None;
                                self.p2 = None;
                                match picked {
                                    PickResult::Picked(image) => Ok(
                                        Some(
                                            Picture {
                                                base: PaintObjectCommon { is_selected: false },
                                                bounding_rect: Rectangle { p1, p2 },
                                                image: image.image,
                                                mouse_pos: p2,
                                            },
                                        ),
                                    ),
                                    PickResult::Failed(message) => Err(message),
                                    _ => Ok(None),
                                }
                            },
                            _ => Ok(None),
                        }
                    },
                    MouseButton::Right => Ok(None),
                }
            },
            _ => Ok(None),
        }
    }

    /// Draws the outline of the frame that is being dragged open.
    pub fn draw(&self, painter: &mut WorldPainter, background_color: Color, camera: &Camera)
        requires
            camera.wf(),
        ensures
            final(painter).commands@ == old(painter).commands@ + self.commands(
                *camera,
                background_color,
            ),
    {
        match (self.p1, self.p2) {
            (Some(p1), Some(p2)) => {
                let frame = Rectangle {
                    p1: camera.convert_to_screen_coordinates(p1),
                    p2: camera.convert_to_screen_coordinates(p2),
                };
                painter.draw_on_screen(
                    DrawCommand::Rectangle {
                        rectangle: frame,
                        stroke: Stroke::new(background_color.inverse(), Number::new(1)),
                    },
                );
            },
            _ => {},
        }
        assert(painter.commands@ =~= old(painter).commands@ + self.commands(
            *camera,
            background_color,
        ));
    }

    pub fn display_name(&self) -> (r: &'static str)
        ensures
            r@ == "insert picture"@,
    {
        "insert picture"
    }
}

} // verus!
