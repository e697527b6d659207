use tensorflow_serving::{
    BytesList, Feature, FeatureMap, FieldMap, FloatList, Int64List, Kind, ModelDescription,
    Payload, TensorflowServing,
};

fn client() -> TensorflowServing<()> {
    let mut builder = TensorflowServing::new();
    builder.hostname("localhost").port(8500);
    builder.build().unwrap().connected(Ok(())).unwrap()
}

#[test]
fn payload_from_byte_records() {
    let payload: Payload<f32> = Payload::from(vec![vec![1u8, 2], vec![], vec![3]]);
    assert_eq!(payload, Payload::Bytes(vec![vec![1, 2], vec![], vec![3]]));
}

#[test]
fn payload_from_integers() {
    let payload: Payload<f32> = vec![-1i64, 0, i64::MAX].into();
    assert_eq!(payload, Payload::Ints(vec![-1, 0, i64::MAX]));
}

#[test]
fn payload_from_floats() {
    let payload = Payload::from_floats(vec![0.5f32, -2.0]);
    assert_eq!(payload, Payload::Floats(vec![0.5, -2.0]));
}

#[test]
fn feature_of_byte_records_is_a_bytes_list() {
    let feature: Feature<f32> = Payload::Bytes(vec![vec![9u8, 8], vec![7]]).into();
    assert_eq!(
        feature.kind,
        Some(Kind::BytesList(BytesList { value: vec![vec![9, 8], vec![7]] }))
    );
}

#[test]
fn feature_of_integers_is_an_int64_list() {
    let feature: Feature<f32> = Payload::Ints(vec![3, 1, 2, 1]).into();
    assert_eq!(feature.kind, Some(Kind::Int64List(Int64List { value: vec![3, 1, 2, 1] })));
}

#[test]
fn feature_of_floats_is_a_float_list() {
    let feature = Feature::from(Payload::Floats(vec![1.5f32, 0.25, 1.5]));
    assert_eq!(feature.kind, Some(Kind::FloatList(FloatList { value: vec![1.5, 0.25, 1.5] })));
}

#[test]
fn empty_payloads_encode_to_empty_lists() {
    let bytes: Feature<f32> = Payload::Bytes(vec![]).into();
    let ints: Feature<f32> = Payload::Ints(vec![]).into();
    let floats: Feature<f32> = Payload::Floats(vec![]).into();
    assert_eq!(bytes.kind, Some(Kind::BytesList(BytesList { value: vec![] })));
    assert_eq!(ints.kind, Some(Kind::Int64List(Int64List { value: vec![] })));
    assert_eq!(floats.kind, Some(Kind::FloatList(FloatList { value: vec![] })));
}

#[test]
fn integers_are_not_coerced_to_floats() {
    let feature: Feature<f64> = Payload::Ints(vec![1, 2]).into();
    assert!(matches!(feature.kind, Some(Kind::Int64List(_))));
}

#[test]
fn to_features_encodes_each_field_under_its_name() {
    let mut map: FeatureMap<f32> = FieldMap::new();
    map.insert("image", Payload::Bytes(vec![vec![0xff, 0xd8]]));
    map.insert("age", Payload::Ints(vec![42]));
    map.insert("weights", Payload::Floats(vec![0.1, 0.9]));
    map.insert("nothing", Payload::Ints(vec![]));
    let features = map.to_features();
    assert_eq!(features.feature.len(), 4);
    assert_eq!(
        features.feature.get("image").unwrap().kind,
        Some(Kind::BytesList(BytesList { value: vec![vec![0xff, 0xd8]] }))
    );
    assert_eq!(
        features.feature.get("age").unwrap().kind,
        Some(Kind::Int64List(Int64List { value: vec![42] }))
    );
    assert_eq!(
        features.feature.get("weights").unwrap().kind,
        Some(Kind::FloatList(FloatList { value: vec![0.1, 0.9] }))
    );
    assert_eq!(
        features.feature.get("nothing").unwrap().kind,
        Some(Kind::Int64List(Int64List { value: vec![] }))
    );
}

#[test]
fn to_features_of_an_empty_map_is_empty() {
    let map: FeatureMap<f32> = FieldMap::new();
    assert!(map.to_features().feature.is_empty());
}

#[test]
fn build_input_wraps_one_example() {
    let mut map: FeatureMap<f32> = FieldMap::new();
    map.insert("x", Payload::Ints(vec![1, 2, 3]));
    let input = client().build_input(map);
    assert_eq!(input.example_list.examples.len(), 1);
    let features = &input.example_list.examples[0].features;
    assert_eq!(features.feature.len(), 1);
    assert_eq!(
        features.feature.get("x").unwrap().kind,
        Some(Kind::Int64List(Int64List { value: vec![1, 2, 3] }))
    );
}

#[test]
fn build_input_of_an_empty_map_is_still_one_example() {
    let map: FeatureMap<f32> = FieldMap::new();
    let input = client().build_input(map);
    assert_eq!(input.example_list.examples.len(), 1);
    assert!(input.example_list.examples[0].features.feature.is_empty());
}

#[test]
fn classify_builds_model_spec_and_input() {
    let mut map: FeatureMap<f32> = FieldMap::new();
    map.insert("text", Payload::Bytes(vec![b"hello".to_vec()]));
    map.insert("score", Payload::Floats(vec![0.75]));
    let request =
        client().classify(ModelDescription { name: "spam", version: Some(3) }, map);
    assert_eq!(request.model_spec.name, "spam");
    assert_eq!(request.model_spec.version, Some(3));
    assert_eq!(request.model_spec.signature_name, "serving_default");
    assert_eq!(request.input.example_list.examples.len(), 1);
    let features = &request.input.example_list.examples[0].features;
    assert_eq!(features.feature.len(), 2);
    assert_eq!(
        features.feature.get("text").unwrap().kind,
        Some(Kind::BytesList(BytesList { value: vec![b"hello".to_vec()] }))
    );
    assert_eq!(
        features.feature.get("score").unwrap().kind,
        Some(Kind::FloatList(FloatList { value: vec![0.75] }))
    );
}

#[test]
fn later_payload_for_a_name_replaces_the_earlier() {
    let mut map: FeatureMap<f32> = FieldMap::new();
    map.insert("x", Payload::Ints(vec![1]));
    map.insert("x", Payload::Floats(vec![2.0]));
    let features = map.to_features();
    assert_eq!(features.feature.len(), 1);
    assert_eq!(
        features.feature.get("x").unwrap().kind,
        Some(Kind::FloatList(FloatList { value: vec![2.0] }))
    );
}
