//! The responses that come back from the server, and what is read out of them.

use vstd::prelude::*;
use crate::error::{ProtocolError, ServingError};
use crate::fields::FieldMap;
use crate::tensor::{Tensor, DT_INT64};

verus! {

/// The response to a prediction request: output tensors by name.
#[derive(Debug)]
pub struct PredictResponse<F> {
    pub outputs: FieldMap<Tensor<F>>,
}

/// Result of a prediction.
#[derive(Debug, Clone, PartialEq)]
pub struct PredictionResult<F> {
    /// Probability vector, one entry per class.
    pub probabilities: Vec<F>,
    /// Index into the probability vector of the most likely class.
    pub max_idx: i64,
}

/// One class that an example may belong to, and its score.
#[derive(Debug, Clone, PartialEq)]
pub struct Class<F> {
    pub label: String,
    pub score: F,
}

/// The classes found for one example.
#[derive(Debug, Clone, PartialEq)]
pub struct Classifications<F> {
    pub classes: Vec<Class<F>>,
}

/// Result of a classification: the classes of each example of the request.
#[derive(Debug, Clone, PartialEq)]
pub struct ClassificationResult<F> {
    pub classifications: Vec<Classifications<F>>,
}

/// The response to a classification request.
#[derive(Debug, Clone, PartialEq)]
pub struct ClassificationResponse<F> {
    pub result: Option<ClassificationResult<F>>,
}

/// The name of the output that holds the probability of each class.
pub open spec fn probabilities_name() -> Seq<char> {
    "probabilities"@
}

/// The name of the output that holds the index of the most likely class.
pub open spec fn classes_name() -> Seq<char> {
    "classes"@
}

/// What a prediction response holds. The checks are made in this order: the
/// `probabilities` output is there; the `classes` output is there; it is of
/// 64-bit integers; its shape is one dimension of size one; it carries an
/// integer. Then the result is the floats of `probabilities` with the first
/// integer of `classes`.
pub open spec fn prediction_of<F>(outputs: Map<Seq<char>, Tensor<F>>) -> Result<
    PredictionResult<F>,
    ProtocolError,
> {
    if !outputs.dom().contains(probabilities_name()) {
        Err(ProtocolError::MissingProbabilities)
    } else if !outputs.dom().contains(classes_name()) {
        Err(ProtocolError::MissingClasses)
    } else {
        let probabilities = outputs[probabilities_name()];
        let classes = outputs[classes_name()];
        if classes.dtype != DT_INT64 {
            Err(ProtocolError::UnexpectedClassesType(classes.dtype))
        } else if classes.shape@ != seq![1i64] {
            Err(ProtocolError::UnexpectedClassesShape)
        } else if classes.int64_val@.len() == 0 {
            Err(ProtocolError::MissingClassIndex)
        } else {
            Ok(
                PredictionResult {
                    probabilities: probabilities.float_val,
                    max_idx: classes.int64_val@[0],
                },
            )
        }
    }
}

impl<F> PredictionResult<F> {
    /// Read the result out of a prediction response.
    pub fn from_raw(response: PredictResponse<F>) -> (result: Result<Self, ServingError>)
        ensures
            match prediction_of(response.outputs@) {
                Ok(prediction) => result == Ok::<Self, ServingError>(prediction),
                Err(violation) => result == Err::<Self, ServingError>(
                    ServingError::Protocol(violation),
                ),
            },
    {
        proof {
            reveal_strlit("probabilities");
            reveal_strlit("classes");
            assert("probabilities"@ != "classes"@) by {
                assert("probabilities"@[0] == 'p');
                assert("classes"@[0] == 'c');
            }
        }
        let mut outputs = response.outputs;
        let probabilities = match outputs.remove("probabilities") {
            Some(tensor) => tensor,
            None => {
                return Err(ServingError::Protocol(ProtocolError::MissingProbabilities));
            },
        };
        let classes = match outputs.remove("classes") {
            Some(tensor) => tensor,
            None => {
                return Err(ServingError::Protocol(ProtocolError::MissingClasses));
            },
        };
        if classes.dtype != DT_INT64 {
            return Err(ServingError::Protocol(ProtocolError::UnexpectedClassesType(classes.dtype)));
        }
        if classes.shape.len() != 1 || classes.shape[0] != 1 {
            assert(classes.shape@ != seq![1i64]) by {
                if classes.shape@ == seq![1i64] {
                    assert(seq![1i64].len() == 1);
                    assert(seq![1i64][0] == 1);
                }
            }
            return Err(ServingError::Protocol(ProtocolError::UnexpectedClassesShape));
        }
        assert(classes.shape@ =~= seq![1i64]);
        if classes.int64_val.len() == 0 {
            return Err(ServingError::Protocol(ProtocolError::MissingClassIndex));
        }
        Ok(PredictionResult { probabilities: probabilities.float_val, max_idx: classes.int64_val[0] })
    }
}

impl<F> ClassificationResult<F> {
    /// Read the result out of a classification response: the result it
    /// carries, or a protocol error where it carries none.
    pub fn from_raw(response: ClassificationResponse<F>) -> (result: Result<Self, ServingError>)
        ensures
            match response.result {
                Some(classification) => result == Ok::<Self, ServingError>(classification),
                None => result == Err::<Self, ServingError>(
                    ServingError::Protocol(ProtocolError::MissingResult),
                ),
            },
    {
        match response.result {
            Some(classification) => Ok(classification),
            None => Err(ServingError::Protocol(ProtocolError::MissingResult)),
        }
    }
}

} // verus!
