use eal_leptos_web::console::browser_contract_field_names;
use eal_leptos_web::models::{PreviewForm, SemanticSearchRequest};
use eal_leptos_web::scores::clamp_score_bits;

fn clamp_score(score: f32) -> f32 {
    f32::from_bits(clamp_score_bits(score.to_bits()))
}

#[test]
fn previews_never_create_candidates() {
    let request = SemanticSearchRequest::try_from(PreviewForm {
        query_text: "Rust release changes affecting async runtimes".into(),
        threshold_bits: 0.72f32.to_bits(),
        limit: 20,
    })
    .expect("valid preview");
    assert!(request.alert_rule.is_none());
}

#[test]
fn preview_limits_are_bounded() {
    let error = SemanticSearchRequest::try_from(PreviewForm {
        query_text: "valid interest".into(),
        threshold_bits: 0.72f32.to_bits(),
        limit: 51,
    })
    .expect_err("limit must be rejected");
    assert!(error.contains("50"));
}

#[test]
fn browser_contract_contains_no_embedding_values() {
    let fields = browser_contract_field_names();
    assert!(!fields.contains(&"vector"));
    assert!(!fields.contains(&"embedding"));
    assert!(!fields.contains(&"dimensions"));
}

#[test]
fn non_finite_scores_fail_closed() {
    assert_eq!(clamp_score(f32::NAN), 0.0);
    assert_eq!(clamp_score(f32::INFINITY), 0.0);
    assert_eq!(clamp_score(-1.0), 0.0);
    assert_eq!(clamp_score(2.0), 1.0);
}

#[test]
fn semantic_console_contract_is_vector_free() {
    let fields = browser_contract_field_names();
    assert!(fields.contains(&"domain"));
    assert!(fields.contains(&"query_text"));
    assert!(fields.contains(&"expected_state"));
    assert!(!fields.contains(&"vector"));
    assert!(!fields.contains(&"embedding"));
}

#[test]
fn browser_never_sends_tenant_identity() {
    let fields = browser_contract_field_names();
    assert!(fields.iter().all(|field| !field.starts_with("tenant")));
    assert_eq!(fields.len(), 7);
}
