//! Decoded images: the bitmap that a tensor is built from, and where it comes from.

use vstd::prelude::*;
use image::GenericImageView;
use crate::error::ServingError;

verus! {

/// A decoded bitmap: its dimensions and its samples, three per pixel (red,
/// green, blue), pixel after pixel along each row, row after row.
#[derive(Debug, PartialEq, Eq)]
pub struct DecodedImage {
    width: u32,
    height: u32,
    pixels: Vec<u8>,
}

/// What a decoded bitmap holds.
pub struct DecodedImageView {
    pub width: u32,
    pub height: u32,
    pub pixels: Seq<u8>,
}

/// The number of samples of an image of the given dimensions.
pub open spec fn sample_count(width: u32, height: u32) -> int {
    3 * (width * height)
}

/// Where the sample of one channel of one pixel stands among the samples of
/// an image `width` pixels wide: rows follow each other, pixels follow each
/// other within a row, and the three channels of a pixel stand together.
pub open spec fn sample_index(width: u32, column: int, row: int, channel: int) -> int {
    3 * (row * width + column) + channel
}

/// Every channel of every pixel has its own place among the samples.
pub proof fn sample_index_is_in_range(
    width: u32,
    height: u32,
    column: int,
    row: int,
    channel: int,
)
    requires
        0 <= column < width,
        0 <= row < height,
        0 <= channel < 3,
    ensures
        0 <= sample_index(width, column, row, channel) < sample_count(width, height),
{
    assert(0 <= row * width && row * width + width <= height * width) by (nonlinear_arith)
        requires
            0 <= row < height,
            0 <= width,
    ;
    assert(width * height == height * width) by (nonlinear_arith);
}

/// Different channels of different pixels have different places.
pub proof fn sample_index_is_injective(
    width: u32,
    column: int,
    row: int,
    channel: int,
    other_column: int,
    other_row: int,
    other_channel: int,
)
    requires
        0 <= column < width,
        0 <= other_column < width,
        0 <= channel < 3,
        0 <= other_channel < 3,
        sample_index(width, column, row, channel) == sample_index(
            width,
            other_column,
            other_row,
            other_channel,
        ),
    ensures
        column == other_column,
        row == other_row,
        channel == other_channel,
{
    let a = row * width + column;
    let b = other_row * width + other_column;
    assert(a == b);
    assert(row == other_row) by (nonlinear_arith)
        requires
            row * width + column == other_row * width + other_column,
            0 <= column < width,
            0 <= other_column < width,
    ;
    assert(column == other_column) by (nonlinear_arith)
        requires
            row * width + column == other_row * width + other_column,
            row == other_row,
    ;
}

impl DecodedImageView {
    /// The sample of one channel of the pixel at `column` and `row`.
    pub open spec fn sample(self, column: int, row: int, channel: int) -> u8 {
        self.pixels[sample_index(self.width, column, row, channel)]
    }
}

impl View for DecodedImage {
    type V = DecodedImageView;

    closed spec fn view(&self) -> DecodedImageView {
        DecodedImageView { width: self.width, height: self.height, pixels: self.pixels@ }
    }
}

impl DecodedImage {
    #[verifier::type_invariant]
    spec fn samples_fill_dimensions(self) -> bool {
        self.pixels@.len() == sample_count(self.width, self.height)
    }

    /// An image of the given dimensions over the given samples, where the
    /// samples are exactly as many as the dimensions ask for.
    pub fn new(width: u32, height: u32, pixels: Vec<u8>) -> (image: Option<DecodedImage>)
        ensures
            pixels@.len() == sample_count(width, height) ==> image is Some && image.unwrap()@ == (
            DecodedImageView { width, height, pixels: pixels@ }),
            pixels@.len() != sample_count(width, height) ==> image is None,
    {
        if fills_dimensions(width, height, pixels.len()) {
            Some(DecodedImage { width, height, pixels })
        } else {
            None
        }
    }

    /// Width in pixels.
    pub fn width(&self) -> (width: u32)
        ensures
            width == self@.width,
    {
        self.width
    }

    /// Height in pixels.
    pub fn height(&self) -> (height: u32)
        ensures
            height == self@.height,
    {
        self.height
    }

    /// The samples: three for each pixel, row after row.
    pub fn pixels(&self) -> (pixels: &Vec<u8>)
        ensures
            pixels@ == self@.pixels,
            pixels@.len() == sample_count(self@.width, self@.height),
    {
        proof {
            use_type_invariant(self);
        }
        &self.pixels
    }
}

/// The number of pixels of an image of the given dimensions.
fn pixel_count(width: u32, height: u32) -> (count: u64)
    ensures
        count == width * height,
{
    assert(width * height <= 0xFFFF_FFFF * 0xFFFF_FFFF) by (nonlinear_arith)
        requires
            width <= 0xFFFF_FFFF,
            height <= 0xFFFF_FFFF,
    ;
    (width as u64) * (height as u64)
}

/// Whether `len` samples are exactly what an image of the given dimensions holds.
fn fills_dimensions(width: u32, height: u32, len: usize) -> (fills: bool)
    ensures
        fills == (len == sample_count(width, height)),
{
    (len as u128) == 3 * (pixel_count(width, height) as u128)
}

/// Anything that a decoded image can be had from.
pub trait Image {
    /// The decoded image, or why there is none.
    fn to_image(&self) -> Result<DecodedImage, ServingError>;
}

impl Image for DecodedImage {
    /// An image that is already decoded is handed on as it is.
    fn to_image(&self) -> (image: Result<DecodedImage, ServingError>)
        ensures
            image is Ok,
            image.unwrap()@ == self@,
    {
        proof {
            use_type_invariant(self);
        }
        let pixels = self.pixels.clone();
        assert(pixels@ =~= self.pixels@);
        Ok(DecodedImage { width: self.width, height: self.height, pixels })
    }
}

/// A bitmap of the `image` crate. Nothing inside it is visible here.
#[verifier::external_type_specification]
#[verifier::external_body]
pub struct ExDynamicImage(image::DynamicImage);

/// Width and height, in pixels, of a bitmap of the `image` crate.
pub uninterp spec fn dynamic_dimensions(img: image::DynamicImage) -> (u32, u32);

/// The samples of a bitmap of the `image` crate after its conversion to 8-bit
/// RGB, as they lie in the buffer of the converted image.
pub uninterp spec fn dynamic_rgb8(img: image::DynamicImage) -> Seq<u8>;

/// `GenericImageView::dimensions`, which for a `DynamicImage` gives the width
/// and the height of the buffer that the bitmap holds.
#[verifier::external_body]
fn dimensions(img: &image::DynamicImage) -> (dimensions: (u32, u32))
    ensures
        dimensions == dynamic_dimensions(*img),
{
    img.dimensions()
}

/// `DynamicImage::to_rgb8` copies the bitmap into an 8-bit RGB buffer of the
/// same dimensions, and `ImageBuffer::into_raw` hands out that buffer's
/// container. The container holds the samples of every pixel, three each; the
/// crate lets it be longer than that, never shorter.
#[verifier::external_body]
fn rgb8_samples(img: &image::DynamicImage) -> (samples: Vec<u8>)
    ensures
        samples@ == dynamic_rgb8(*img),
        samples@.len() >= sample_count(dynamic_dimensions(*img).0, dynamic_dimensions(*img).1),
{
    img.to_rgb8().into_raw()
}

impl Image for image::DynamicImage {
    /// The bitmap as 8-bit RGB: its dimensions, and the leading samples of its
    /// RGB buffer, as many as the dimensions ask for.
    fn to_image(&self) -> (image: Result<DecodedImage, ServingError>)
        ensures
            image is Ok,
            image.unwrap()@ == (DecodedImageView {
                width: dynamic_dimensions(*self).0,
                height: dynamic_dimensions(*self).1,
                pixels: dynamic_rgb8(*self).subrange(
                    0,
                    sample_count(dynamic_dimensions(*self).0, dynamic_dimensions(*self).1),
                ),
            }),
    {
        let (width, height) = dimensions(self);
        let mut pixels = rgb8_samples(self);
        let count: u128 = 3 * (pixel_count(width, height) as u128);
        pixels.truncate(count as usize);
        Ok(DecodedImage { width, height, pixels })
    }
}

} // verus!
