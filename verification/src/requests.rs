//! The requests that go out to the server.

use vstd::prelude::*;
use crate::features::{encoded_fields, Features, Payload};
use crate::fields::FieldMap;
use crate::model::ModelSpec;
use crate::pixels::DecodedImageView;
use crate::tensor::{is_image_tensor, Tensor};

verus! {

/// One example: its features by name.
#[derive(Debug)]
pub struct Example<F> {
    pub features: Features<F>,
}

/// A batch of examples.
#[derive(Debug)]
pub struct ExampleList<F> {
    pub examples: Vec<Example<F>>,
}

/// The input of a classification. The protocol takes examples in batches
/// only, so a single example travels as a list of one.
#[derive(Debug)]
pub struct Input<F> {
    pub example_list: ExampleList<F>,
}

/// A request to classify one example.
#[derive(Debug)]
pub struct ClassificationRequest<F> {
    pub model_spec: ModelSpec,
    pub input: Input<F>,
}

/// A request to predict from named input tensors.
#[derive(Debug)]
pub struct PredictRequest<T> {
    pub model_spec: ModelSpec,
    pub inputs: FieldMap<Tensor<T>>,
}

/// The name under which the tensor of an image travels in a prediction request.
pub open spec fn image_input_name() -> Seq<char> {
    "input"@
}

/// Whether `input` carries exactly one example, whose features encode
/// `payloads` field by field.
pub open spec fn is_input_of<F>(payloads: Map<Seq<char>, Payload<F>>, input: Input<F>) -> bool {
    &&& input.example_list.examples@.len() == 1
    &&& input.example_list.examples@[0].features.feature@ == encoded_fields(payloads)
}

/// Whether `inputs` carries exactly one tensor, under the name `input`, and
/// that tensor is a tensor of `image` under `preprocess`.
pub open spec fn is_image_input<T: From<u8>, M: Fn(T) -> T>(
    image: DecodedImageView,
    preprocess: M,
    inputs: Map<Seq<char>, Tensor<T>>,
) -> bool {
    &&& inputs.dom() == set![image_input_name()]
    &&& is_image_tensor(image, preprocess, inputs[image_input_name()])
}

} // verus!
