//! Dense tensors, and the tensor of an image.

use vstd::prelude::*;
use vstd::std_specs::convert::FromSpec;
use crate::pixels::{
    sample_count,
    sample_index,
    sample_index_is_in_range,
    DecodedImage,
    DecodedImageView,
};

verus! {

/// The type tag of a tensor of 32-bit floats.
pub const DT_FLOAT: i32 = 1;

/// The type tag of a tensor of 64-bit signed integers.
pub const DT_INT64: i32 = 9;

/// A dense tensor: a type tag, the size of each dimension, and the elements
/// in one flat list. `T` is the type of a 32-bit float.
#[derive(Debug, Clone, PartialEq)]
pub struct Tensor<T> {
    /// The type tag of the elements.
    pub dtype: i32,
    /// The size of each dimension, outermost first.
    pub shape: Vec<i64>,
    /// The elements of a tensor of floats.
    pub float_val: Vec<T>,
    /// The elements of a tensor of 64-bit integers.
    pub int64_val: Vec<i64>,
}

/// The shape of the tensor of an image: a batch of one, then width, height
/// and the three channels.
pub open spec fn image_shape(width: u32, height: u32) -> Seq<i64> {
    seq![1i64, width as i64, height as i64, 3i64]
}

/// Whether `value` can stand in a tensor for `sample`: it is what
/// `preprocess` gives for the sample converted to `T`.
pub open spec fn is_value_of<T: From<u8>, M: Fn(T) -> T>(preprocess: M, sample: u8, value: T) -> bool {
    exists|raw: T| #[trigger]
        call_ensures(T::from, (sample,), raw) && call_ensures(preprocess, (raw,), value)
}

/// Whether `tensor` is a tensor of `image` under `preprocess`: a tensor of
/// floats of the image's shape, with one value for each sample and in the
/// order of the samples, each being the value of its sample.
pub open spec fn is_image_tensor<T: From<u8>, M: Fn(T) -> T>(
    image: DecodedImageView,
    preprocess: M,
    tensor: Tensor<T>,
) -> bool {
    &&& tensor.dtype == DT_FLOAT
    &&& tensor.shape@ == image_shape(image.width, image.height)
    &&& tensor.float_val@.len() == image.pixels.len()
    &&& forall|i: int|
        0 <= i < image.pixels.len() ==> is_value_of(
            preprocess,
            image.pixels[i],
            #[trigger] tensor.float_val@[i],
        )
    &&& tensor.int64_val@.len() == 0
}

/// Whether `preprocess` can be applied to every sample of `image`.
pub open spec fn accepts_samples<T: From<u8>, M: Fn(T) -> T>(
    image: DecodedImageView,
    preprocess: M,
) -> bool {
    forall|i: int, raw: T|
        0 <= i < image.pixels.len() && #[trigger] call_ensures(T::from, (image.pixels[i],), raw)
            ==> call_requires(preprocess, (raw,))
}

/// The tensor of an image: every sample converted to `T` and passed through
/// `preprocess`, in the order of the samples, under the shape
/// `[1, width, height, 3]`.
pub fn build_tensor<T: From<u8>, M: Fn(T) -> T>(image: &DecodedImage, preprocess: M) -> (tensor:
    Tensor<T>)
    requires
        accepts_samples(image@, preprocess),
    ensures
        is_image_tensor(image@, preprocess, tensor),
        tensor.float_val@.len() == sample_count(image@.width, image@.height),
{
    let pixels = image.pixels();
    let mut shape: Vec<i64> = Vec::new();
    shape.push(1);
    shape.push(image.width() as i64);
    shape.push(image.height() as i64);
    shape.push(3);
    assert(shape@ =~= image_shape(image@.width, image@.height));
    let mut values: Vec<T> = Vec::new();
    let mut i: usize = 0;
    while i < pixels.len()
        invariant
            i <= pixels@.len(),
            pixels@ == image@.pixels,
            values@.len() == i,
            accepts_samples(image@, preprocess),
            forall|j: int| 0 <= j < i ==> is_value_of(preprocess, pixels@[j], #[trigger] values@[j]),
        decreases pixels@.len() - i,
    {
        let raw = T::from(pixels[i]);
        values.push(preprocess(raw));
        i += 1;
    }
    Tensor { dtype: DT_FLOAT, shape, float_val: values, int64_val: Vec::new() }
}

/// A preprocessing that changes nothing leaves every value of the tensor as
/// the conversion of its sample to `T`; where that conversion is a function,
/// the values are that function of the samples, in their order.
pub proof fn identity_preprocessing_keeps_samples<T: From<u8>, M: Fn(T) -> T>(
    image: DecodedImageView,
    preprocess: M,
    tensor: Tensor<T>,
)
    requires
        is_image_tensor(image, preprocess, tensor),
        forall|raw: T, value: T| call_ensures(preprocess, (raw,), value) ==> value == raw,
    ensures
        tensor.float_val@.len() == image.pixels.len(),
        forall|i: int|
            0 <= i < image.pixels.len() ==> call_ensures(
                T::from,
                (image.pixels[i],),
                #[trigger] tensor.float_val@[i],
            ),
        T::obeys_from_spec() ==> tensor.float_val@ == image.pixels.map_values(
            |sample: u8| T::from_spec(sample),
        ),
{
    assert forall|i: int| 0 <= i < image.pixels.len() implies call_ensures(
        T::from,
        (image.pixels[i],),
        #[trigger] tensor.float_val@[i],
    ) by {
        assert(is_value_of(preprocess, image.pixels[i], tensor.float_val@[i]));
    }
    if T::obeys_from_spec() {
        assert(tensor.float_val@ =~= image.pixels.map_values(|sample: u8| T::from_spec(sample)));
    }
}

/// The tensor of an image follows the layout of the image: at the place of
/// each channel of each pixel stands the value of that sample.
pub proof fn tensor_follows_pixel_layout<T: From<u8>, M: Fn(T) -> T>(
    image: DecodedImageView,
    preprocess: M,
    tensor: Tensor<T>,
    column: int,
    row: int,
    channel: int,
)
    requires
        is_image_tensor(image, preprocess, tensor),
        image.pixels.len() == sample_count(image.width, image.height),
        0 <= column < image.width,
        0 <= row < image.height,
        0 <= channel < 3,
    ensures
        0 <= sample_index(image.width, column, row, channel) < tensor.float_val@.len(),
        is_value_of(
            preprocess,
            image.sample(column, row, channel),
            tensor.float_val@[sample_index(image.width, column, row, channel)],
        ),
{
    sample_index_is_in_range(image.width, image.height, column, row, channel);
}

} // verus!
