use tensorflow_serving::{
    Class, ClassificationResponse, ClassificationResult, Classifications, FieldMap,
    PredictResponse, PredictionResult, ProtocolError, ServingError, Tensor, DT_FLOAT, DT_INT64,
};

fn probabilities(values: Vec<f32>) -> Tensor<f32> {
    Tensor { dtype: DT_FLOAT, shape: vec![1, values.len() as i64], float_val: values, int64_val: vec![] }
}

fn classes(values: Vec<i64>) -> Tensor<f32> {
    Tensor { dtype: DT_INT64, shape: vec![1], float_val: vec![], int64_val: values }
}

fn response(entries: Vec<(&str, Tensor<f32>)>) -> PredictResponse<f32> {
    let mut outputs = FieldMap::new();
    for (name, tensor) in entries {
        outputs.insert(name, tensor);
    }
    PredictResponse { outputs }
}

fn violation(response: PredictResponse<f32>) -> ProtocolError {
    match PredictionResult::from_raw(response) {
        Err(ServingError::Protocol(violation)) => violation,
        other => panic!("expected a protocol error, got {:?}", other),
    }
}

#[test]
fn prediction_is_read_from_probabilities_and_classes() {
    let result = PredictionResult::from_raw(response(vec![
        ("probabilities", probabilities(vec![0.1, 0.7, 0.2])),
        ("classes", classes(vec![1])),
    ]));
    assert_eq!(result, Ok(PredictionResult { probabilities: vec![0.1, 0.7, 0.2], max_idx: 1 }));
}

#[test]
fn prediction_ignores_other_outputs_and_their_order() {
    let result = PredictionResult::from_raw(response(vec![
        ("logits", probabilities(vec![3.0])),
        ("classes", classes(vec![-4])),
        ("probabilities", probabilities(vec![1.0])),
    ]));
    assert_eq!(result, Ok(PredictionResult { probabilities: vec![1.0], max_idx: -4 }));
}

#[test]
fn prediction_takes_the_first_integer_of_classes() {
    let result = PredictionResult::from_raw(response(vec![
        ("probabilities", probabilities(vec![])),
        ("classes", classes(vec![i64::MAX, 2, 3])),
    ]));
    assert_eq!(result, Ok(PredictionResult { probabilities: vec![], max_idx: i64::MAX }));
}

#[test]
fn missing_probabilities_is_a_protocol_error() {
    let found = violation(response(vec![("classes", classes(vec![1]))]));
    assert_eq!(found, ProtocolError::MissingProbabilities);
    assert_eq!(found.message(), "probabilities not available from the server response");
}

#[test]
fn missing_classes_is_a_protocol_error() {
    let found = violation(response(vec![("probabilities", probabilities(vec![1.0]))]));
    assert_eq!(found, ProtocolError::MissingClasses);
    assert_eq!(found.message(), "classes not available from the server response");
}

#[test]
fn empty_response_reports_probabilities_first() {
    assert_eq!(violation(response(vec![])), ProtocolError::MissingProbabilities);
}

#[test]
fn classes_of_another_type_is_a_protocol_error() {
    let mut wrong = classes(vec![1]);
    wrong.dtype = DT_FLOAT;
    let found = violation(response(vec![
        ("probabilities", probabilities(vec![1.0])),
        ("classes", wrong),
    ]));
    assert_eq!(found, ProtocolError::UnexpectedClassesType(1));
    assert_eq!(found.message(), "classes has unexpected data type, should be i64, got 1");
}

#[test]
fn unexpected_type_is_reported_before_unexpected_shape() {
    let wrong = Tensor { dtype: 3, shape: vec![2, 2], float_val: vec![], int64_val: vec![] };
    let found = violation(response(vec![
        ("probabilities", probabilities(vec![1.0])),
        ("classes", wrong),
    ]));
    assert_eq!(found, ProtocolError::UnexpectedClassesType(3));
}

#[test]
fn classes_of_another_shape_is_a_protocol_error() {
    for shape in [vec![], vec![2], vec![0], vec![1, 1], vec![-1]] {
        let mut wrong = classes(vec![1, 2]);
        wrong.shape = shape;
        let found = violation(response(vec![
            ("probabilities", probabilities(vec![1.0])),
            ("classes", wrong),
        ]));
        assert_eq!(found, ProtocolError::UnexpectedClassesShape);
        assert_eq!(found.message(), "number of classes unexpected");
    }
}

#[test]
fn classes_without_an_integer_is_a_protocol_error() {
    let found = violation(response(vec![
        ("probabilities", probabilities(vec![1.0])),
        ("classes", classes(vec![])),
    ]));
    assert_eq!(found, ProtocolError::MissingClassIndex);
    assert_eq!(found.message(), "class index not available from the server response");
}

#[test]
fn protocol_error_message_is_that_of_the_violation() {
    let err = ServingError::Protocol(ProtocolError::UnexpectedClassesType(-7));
    assert_eq!(err.message(), "classes has unexpected data type, should be i64, got -7");
    let err = ServingError::Protocol(ProtocolError::UnexpectedClassesType(i32::MIN));
    assert_eq!(
        err.message(),
        "classes has unexpected data type, should be i64, got -2147483648"
    );
    let err = ServingError::Protocol(ProtocolError::UnexpectedClassesType(i32::MAX));
    assert_eq!(
        err.message(),
        "classes has unexpected data type, should be i64, got 2147483647"
    );
    let err = ServingError::Protocol(ProtocolError::UnexpectedClassesType(0));
    assert_eq!(err.message(), "classes has unexpected data type, should be i64, got 0");
}

#[test]
fn classification_result_is_handed_out() {
    let result = ClassificationResult {
        classifications: vec![Classifications {
            classes: vec![
                Class { label: String::from("cat"), score: 0.9f32 },
                Class { label: String::from("dog"), score: 0.1 },
            ],
        }],
    };
    let response = ClassificationResponse { result: Some(result.clone()) };
    assert_eq!(ClassificationResult::from_raw(response), Ok(result));
}

#[test]
fn classification_response_without_result_is_a_protocol_error() {
    let response: ClassificationResponse<f32> = ClassificationResponse { result: None };
    let err = ClassificationResult::from_raw(response).unwrap_err();
    assert_eq!(err, ServingError::Protocol(ProtocolError::MissingResult));
    assert_eq!(err.message(), "classification result not available from the server response");
}
