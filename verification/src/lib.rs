//! Client-side request and response shaping for a TensorFlow Serving endpoint.
//!
//! The library turns caller data into the requests of the serving protocol and
//! reads its responses: payloads become the features of an example, an image
//! becomes a dense tensor, a model description becomes a model spec, and a
//! prediction response becomes a result. A builder validates the connection
//! parameters before any of this.
//!
//! The library performs no I/O. Connecting, sending and receiving belong to
//! the owner of the transport, who hands the library what came back.

pub mod client;
pub mod error;
pub mod features;
pub mod fields;
pub mod model;
pub mod pixels;
pub mod requests;
pub mod responses;
pub mod tensor;
pub mod text;

pub use client::{Endpoint, TensorflowServing, TensorflowServingBuilder};
pub use error::{ConfigError, ProtocolError, ServingError};
pub use features::{BytesList, Feature, FeatureMap, Features, FloatList, Int64List, Kind, Payload};
pub use fields::FieldMap;
pub use model::{ModelDescription, ModelSpec};
pub use pixels::{DecodedImage, Image};
pub use requests::{ClassificationRequest, Example, ExampleList, Input, PredictRequest};
pub use responses::{
    Class, ClassificationResponse, ClassificationResult, Classifications, PredictResponse,
    PredictionResult,
};
pub use tensor::{build_tensor, Tensor, DT_FLOAT, DT_INT64};
