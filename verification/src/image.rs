//! The source image: a decoded pixel buffer that is never changed after it
//! was loaded, so that any number of workers can read it at once.

use vstd::prelude::*;
use crate::color::Color;
use crate::position::Position;
use crate::rng::{seeded_draw, Rng};

verus! {

/// How the samples of one pixel are laid out.
#[derive(Debug, Clone, Copy, PartialEq, Eq, Structural)]
pub enum ColorType {
    /// One gray sample.
    Grayscale,
    /// Red, green, blue.
    Rgb,
    /// One index into a palette. A decoder may report it; no image is
    /// built from it.
    Indexed,
    /// One gray sample, then alpha.
    GrayscaleAlpha,
    /// Red, green, blue, alpha.
    Rgba,
}

impl ColorType {
    /// Number of samples per pixel.
    pub open spec fn channels(self) -> nat {
        match self {
            ColorType::Grayscale => 1,
            ColorType::Indexed => 1,
            ColorType::GrayscaleAlpha => 2,
            ColorType::Rgb => 3,
            ColorType::Rgba => 4,
        }
    }

    /// Number of samples per pixel.
    pub fn samples(self) -> (count: usize)
        ensures
            count == self.channels(),
            1 <= count <= 4,
    {
        match self {
            ColorType::Grayscale => 1,
            ColorType::Indexed => 1,
            ColorType::GrayscaleAlpha => 2,
            ColorType::Rgb => 3,
            ColorType::Rgba => 4,
        }
    }
}

/// Why no image could be built.
#[derive(Debug, Clone, Copy, PartialEq, Eq, Structural)]
pub enum DecodeError {
    /// The source is not a readable picture.
    Malformed,
    /// The picture is stored as palette indices.
    UnsupportedColorType,
    /// The pixel buffer is shorter than its dimensions say.
    BufferTooSmall,
}

/// One frame as a decoder hands it over: of `bytes`, the first `frame_size`
/// hold the pixels, row by row.
#[derive(Debug)]
pub struct DecodedFrame {
    pub width: u32,
    pub height: u32,
    pub color_type: ColorType,
    pub frame_size: usize,
    pub bytes: Vec<u8>,
}

/// The mathematical content of a [`DecodedFrame`].
pub struct DecodedFrameView {
    pub width: u32,
    pub height: u32,
    pub color_type: ColorType,
    pub frame_size: usize,
    pub bytes: Seq<u8>,
}

impl View for DecodedFrame {
    type V = DecodedFrameView;

    open spec fn view(&self) -> DecodedFrameView {
        DecodedFrameView {
            width: self.width,
            height: self.height,
            color_type: self.color_type,
            frame_size: self.frame_size,
            bytes: self.bytes@,
        }
    }
}

/// The mathematical content of an [`Image`]: its dimensions, its layout and
/// the bytes of its pixels, row by row.
pub struct ImageView {
    pub width: u32,
    pub height: u32,
    pub color_type: ColorType,
    pub pixels: Seq<u8>,
}

impl ImageView {
    /// The layout is one that pixels can be read from, and the buffer holds
    /// every pixel that the dimensions promise.
    pub open spec fn well_formed(self) -> bool {
        &&& !(self.color_type is Indexed)
        &&& self.width * self.height * self.color_type.channels() <= self.pixels.len()
    }

    /// Where the samples of the pixel at `position` begin.
    pub open spec fn offset(self, position: Position) -> nat {
        ((self.width * position.y + position.x) * self.color_type.channels()) as nat
    }

    /// Whether `position` lies inside the picture.
    pub open spec fn contains(self, position: Position) -> bool {
        position.x < self.width && position.y < self.height
    }

    /// The colour at `position`, or nothing where the samples of that pixel
    /// would not all lie inside the buffer. Gray with alpha is reported
    /// with the gray value in all three colour channels.
    pub open spec fn color_at(self, position: Position) -> Option<Color> {
        let i = self.offset(position) as int;
        if i + self.color_type.channels() > self.pixels.len() {
            None
        } else {
            match self.color_type {
                ColorType::Grayscale => Some(Color::Grayscale(self.pixels[i])),
                ColorType::Rgb => Some(
                    Color::Rgb(self.pixels[i], self.pixels[i + 1], self.pixels[i + 2]),
                ),
                ColorType::Rgba => Some(
                    Color::Rgba(
                        self.pixels[i],
                        self.pixels[i + 1],
                        self.pixels[i + 2],
                        self.pixels[i + 3],
                    ),
                ),
                ColorType::GrayscaleAlpha => Some(
                    Color::Rgba(
                        self.pixels[i],
                        self.pixels[i],
                        self.pixels[i],
                        self.pixels[i + 1],
                    ),
                ),
                ColorType::Indexed => None,
            }
        }
    }

    /// The position that a source in state `seed` draws from this picture,
    /// and the state it is left in: first the column, then the row.
    pub open spec fn sampled(self, seed: u64) -> (Position, u64) {
        let column = seeded_draw(seed, self.width);
        let row = seeded_draw(column.1, self.height);
        (Position { x: column.0, y: row.0 }, row.1)
    }
}

/// What loading `frame` gives: the error that refuses it, or the picture
/// made of the first `frame_size` bytes.
pub open spec fn loaded(frame: DecodedFrameView) -> Result<ImageView, DecodeError> {
    if frame.color_type is Indexed {
        Err(DecodeError::UnsupportedColorType)
    } else if frame.frame_size > frame.bytes.len() || frame.width * frame.height
        * frame.color_type.channels() > frame.frame_size {
        Err(DecodeError::BufferTooSmall)
    } else {
        Ok(
            ImageView {
                width: frame.width,
                height: frame.height,
                color_type: frame.color_type,
                pixels: frame.bytes.take(frame.frame_size as int),
            },
        )
    }
}

/// `png::DecodingError`, taken as it is: why the decoder gave up.
#[verifier::external_type_specification]
#[verifier::external_body]
pub struct ExDecodingError(png::DecodingError);

/// The first frame that the `png` decoder reads from the file content
/// `data`, or nothing where it reports an error.
pub uninterp spec fn png_frame(data: Seq<u8>) -> Option<DecodedFrameView>;

/// Decodes the first frame of a PNG file with the `png` crate:
/// `png::Decoder::new` on the bytes, `read_info`, a buffer of
/// `output_buffer_size` bytes, and `next_frame` into it. The frame handed
/// back holds what `next_frame` reported (width, height, colour type and
/// `buffer_size`) and the buffer. Nothing is claimed of what the decoder
/// accepts or of the pixels: the result is only given its name.
#[verifier::external_body]
fn decode_png(data: &[u8]) -> (result: Result<DecodedFrame, png::DecodingError>)
    ensures
        match result {
            Ok(frame) => png_frame(data@) == Some(frame@),
            Err(_) => png_frame(data@) is None,
        },
{
    let mut reader = png::Decoder::new(data).read_info()?;
    let mut bytes = vec![0; reader.output_buffer_size()];
    let info = reader.next_frame(&mut bytes)?;
    let color_type = match info.color_type {
        png::ColorType::Grayscale => ColorType::Grayscale,
        png::ColorType::Rgb => ColorType::Rgb,
        png::ColorType::Indexed => ColorType::Indexed,
        png::ColorType::GrayscaleAlpha => ColorType::GrayscaleAlpha,
        png::ColorType::Rgba => ColorType::Rgba,
    };
    let frame_size = info.buffer_size();
    Ok(DecodedFrame { width: info.width, height: info.height, color_type, frame_size, bytes })
}

/// What decoding and loading the file content `data` gives.
pub open spec fn decoded(data: Seq<u8>) -> Result<ImageView, DecodeError> {
    match png_frame(data) {
        Some(frame) => loaded(frame),
        None => Err(DecodeError::Malformed),
    }
}

/// A decoded picture. Nothing changes it once it is built.
pub struct Image {
    width: u32,
    height: u32,
    color_type: ColorType,
    pixels: Vec<u8>,
}

impl View for Image {
    type V = ImageView;

    closed spec fn view(&self) -> ImageView {
        ImageView {
            width: self.width,
            height: self.height,
            color_type: self.color_type,
            pixels: self.pixels@,
        }
    }
}

/// A result of loading, with the picture replaced by its content.
pub open spec fn content(result: Result<Image, DecodeError>) -> Result<ImageView, DecodeError> {
    match result {
        Ok(image) => Ok(image@),
        Err(error) => Err(error),
    }
}

impl Image {
    #[verifier::type_invariant]
    spec fn sound(self) -> bool {
        self@.well_formed()
    }

    /// Builds the picture that `frame` holds.
    ///
    /// A palette layout is refused here, not when pixels are read. A buffer
    /// that is shorter than `frame_size`, or a `frame_size` that is less
    /// than width times height times the number of samples per pixel, is
    /// refused too.
    pub fn from_frame(frame: DecodedFrame) -> (result: Result<Image, DecodeError>)
        ensures
            content(result) == loaded(frame@),
            result matches Ok(image) ==> image@.well_formed(),
    {
        let DecodedFrame { width, height, color_type, frame_size, bytes } = frame;
        if let ColorType::Indexed = color_type {
            return Err(DecodeError::UnsupportedColorType);
        }
        if frame_size > bytes.len() {
            return Err(DecodeError::BufferTooSmall);
        }
        let samples = color_type.samples();
        assert(width * height <= 0xffff_ffff * 0xffff_ffff) by (nonlinear_arith)
            requires
                0 <= width <= 0xffff_ffff,
                0 <= height <= 0xffff_ffff,
        ;
        let area: u64 = (width as u64) * (height as u64);
        assert(area * samples <= area * 4) by (nonlinear_arith)
            requires
                0 <= area,
                0 <= samples <= 4,
        ;
        let needed: u128 = (area as u128) * (samples as u128);
        if needed > frame_size as u128 {
            return Err(DecodeError::BufferTooSmall);
        }
        let mut pixels = bytes;
        pixels.truncate(frame_size);
        Ok(Image { width, height, color_type, pixels })
    }

    /// Width in pixels.
    pub fn width(&self) -> (width: u32)
        ensures
            width == self@.width,
    {
        self.width
    }

    /// Height in pixels.
    pub fn height(&self) -> (height: u32)
        ensures
            height == self@.height,
    {
        self.height
    }

    /// The layout of one pixel.
    pub fn color_type(&self) -> (color_type: ColorType)
        ensures
            color_type == self@.color_type,
    {
        self.color_type
    }

    /// Decodes the content of a PNG file and builds the picture of its
    /// first frame.
    ///
    /// Fails with [`DecodeError::Malformed`] where the decoder reports an
    /// error, and otherwise as [`Image::from_frame`] does.
    pub fn decode(data: &[u8]) -> (result: Result<Image, DecodeError>)
        ensures
            content(result) == decoded(data@),
            result matches Ok(image) ==> image@.well_formed(),
    {
        match decode_png(data) {
            Ok(frame) => Image::from_frame(frame),
            Err(_) => Err(DecodeError::Malformed),
        }
    }

    /// Draws a position inside the picture: the column below the width,
    /// then the row below the height.
    ///
    /// A picture without pixels has no position to draw.
    pub fn get_random_position(&self, rng: &mut Rng) -> (position: Position)
        requires
            self@.width > 0,
            self@.height > 0,
        ensures
            self@.contains(position),
            position == self@.sampled(old(rng)@).0,
            final(rng)@ == self@.sampled(old(rng)@).1,
    {
        let x = rng.below(self.width);
        let y = rng.below(self.height);
        Position { x, y }
    }

    /// The colour of the pixel at `position`.
    ///
    /// A position whose samples would not all lie inside the buffer has no
    /// colour; this is an answer, not a failure.
    pub fn get_color(&self, position: Position) -> (color: Option<Color>)
        ensures
            color == self@.color_at(position),
            self@.well_formed(),
            self@.contains(position) ==> color is Some,
    {
        proof {
            use_type_invariant(self);
            if self@.contains(position) {
                lemma_inside_has_color(self@, position);
            }
        }
        let samples = self.color_type.samples();
        assert(self.width * position.y <= 0xffff_ffff * 0xffff_ffff) by (nonlinear_arith)
            requires
                0 <= self.width <= 0xffff_ffff,
                0 <= position.y <= 0xffff_ffff,
        ;
        let pixel: u64 = (self.width as u64) * (position.y as u64) + (position.x as u64);
        assert(pixel * samples <= pixel * 4) by (nonlinear_arith)
            requires
                0 <= pixel,
                0 <= samples <= 4,
        ;
        let start: u128 = (pixel as u128) * (samples as u128);
        if start + samples as u128 > self.pixels.len() as u128 {
            return None;
        }
        let i = start as usize;
        match self.color_type {
            ColorType::Grayscale => Some(Color::Grayscale(self.pixels[i])),
            ColorType::Rgb => Some(Color::Rgb(self.pixels[i], self.pixels[i + 1], self.pixels[i + 2])),
            ColorType::Rgba => Some(
                Color::Rgba(
                    self.pixels[i],
                    self.pixels[i + 1],
                    self.pixels[i + 2],
                    self.pixels[i + 3],
                ),
            ),
            ColorType::GrayscaleAlpha => Some(
                Color::Rgba(self.pixels[i], self.pixels[i], self.pixels[i], self.pixels[i + 1]),
            ),
            ColorType::Indexed => None,
        }
    }
}

/// A position whose samples begin at or behind the end of the buffer, or
/// reach over it, has no colour.
pub proof fn lemma_outside_has_no_color(image: ImageView, position: Position)
    requires
        image.offset(position) + image.color_type.channels() > image.pixels.len(),
    ensures
        image.color_at(position) is None,
{
}

/// Every position inside a well-formed picture has a colour, and its
/// samples lie inside the buffer.
pub proof fn lemma_inside_has_color(image: ImageView, position: Position)
    requires
        image.well_formed(),
        image.contains(position),
    ensures
        image.offset(position) + image.color_type.channels() <= image.pixels.len(),
        image.color_at(position) is Some,
{
    let w = image.width as int;
    let h = image.height as int;
    let x = position.x as int;
    let y = position.y as int;
    let c = image.color_type.channels() as int;
    assert((w * y + x) * c + c <= w * h * c) by (nonlinear_arith)
        requires
            0 <= x < w,
            0 <= y < h,
            1 <= c,
    ;
}

/// The colour that is read depends on the layout alone in its shape: one
/// gray value, three channels, or four.
pub proof fn lemma_color_shape_follows_layout(image: ImageView, position: Position)
    requires
        image.color_at(position) is Some,
    ensures
        image.color_type is Grayscale <==> image.color_at(position)->Some_0 is Grayscale,
        image.color_type is Rgb <==> image.color_at(position)->Some_0 is Rgb,
        image.color_type is Rgba || image.color_type is GrayscaleAlpha <==> image.color_at(
            position,
        )->Some_0 is Rgba,
        image.color_type is GrayscaleAlpha ==> {
            let color = image.color_at(position)->Some_0;
            color->Rgba_0 == color->Rgba_1 && color->Rgba_1 == color->Rgba_2
        },
{
}

} // verus!
