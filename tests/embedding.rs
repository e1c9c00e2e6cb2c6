use vectorizer_napi::embedding::{model_name, EMBEDDING_DIM, MODEL_NAME};

#[test]
fn model_name_returns_expected_string() {
    assert_eq!(model_name(), "all-MiniLM-L6-v2");
}

#[test]
fn embedding_conversion_f32_to_f64_preserves_values() {
    let f32_vec = vec![1.0f32, 2.5f32, -0.5f32];
    let f64_vec: Vec<f64> = f32_vec.iter().map(|x| *x as f64).collect();
    assert_eq!(f64_vec.len(), 3);
    assert!((f64_vec[0] - 1.0).abs() < 1e-10);
    assert!((f64_vec[1] - 2.5).abs() < 1e-10);
    assert!((f64_vec[2] - (-0.5)).abs() < 1e-10);
}

#[test]
fn model_name_is_constant_and_matches_the_named_constant() {
    let first = model_name();
    let second = model_name();
    assert_eq!(first, second);
    assert_eq!(first, MODEL_NAME);
}

#[test]
fn supported_model_has_384_dimensions() {
    assert_eq!(EMBEDDING_DIM, 384);
}
