use eal_leptos_web::models::{preview_submission, DiscoveryMode, PreviewForm, SemanticSearchRequest};

fn form(query: &str, threshold: f32, limit: usize) -> PreviewForm {
    PreviewForm { query_text: query.to_string(), threshold_bits: threshold.to_bits(), limit }
}

#[test]
fn accepted_preview_is_trimmed_and_read_only() {
    let request = SemanticSearchRequest::try_from(form("  \u{3000}Rust news \n", 0.5, 12)).unwrap();
    assert_eq!(request.query_text, "Rust news");
    assert_eq!(f32::from_bits(request.threshold_bits), 0.5);
    assert_eq!(request.limit, 12);
    assert!(request.source_ids.is_empty());
    assert!(request.cursor.is_none());
    assert!(request.expected_model.is_none());
    assert!(request.alert_rule.is_none());
}

#[test]
fn short_interest_is_refused() {
    let err = SemanticSearchRequest::try_from(form("  ab  ", 0.5, 12)).err().unwrap();
    assert_eq!(err, "Interest must contain 3 to 2,000 characters.");
    let long = "x".repeat(2001);
    let err = SemanticSearchRequest::try_from(form(&long, 0.5, 12)).err().unwrap();
    assert_eq!(err, "Interest must contain 3 to 2,000 characters.");
    let edge = "é".repeat(2000);
    assert!(SemanticSearchRequest::try_from(form(&edge, 0.5, 12)).is_ok());
}

#[test]
fn bad_thresholds_are_refused() {
    for t in [f32::NAN, f32::INFINITY, f32::NEG_INFINITY, -0.01, 1.01] {
        let err = SemanticSearchRequest::try_from(form("valid interest", t, 12)).err().unwrap();
        assert_eq!(err, "Threshold must be a finite number between 0 and 1.");
    }
    for t in [0.0, -0.0, 1.0, 0.72] {
        assert!(SemanticSearchRequest::try_from(form("valid interest", t, 12)).is_ok());
    }
}

#[test]
fn limits_outside_one_to_fifty_are_refused() {
    let err = SemanticSearchRequest::try_from(form("valid interest", 0.5, 0)).err().unwrap();
    assert_eq!(err, "Preview limit must be between 1 and 50.");
    assert!(SemanticSearchRequest::try_from(form("valid interest", 0.5, 1)).is_ok());
    assert!(SemanticSearchRequest::try_from(form("valid interest", 0.5, 50)).is_ok());
}

#[test]
fn first_failing_rule_decides_the_refusal() {
    let err = SemanticSearchRequest::try_from(form("ab", f32::NAN, 99)).err().unwrap();
    assert_eq!(err, "Interest must contain 3 to 2,000 characters.");
    let err = SemanticSearchRequest::try_from(form("abc", f32::NAN, 99)).err().unwrap();
    assert_eq!(err, "Threshold must be a finite number between 0 and 1.");
}

#[test]
fn submission_echoes_the_searched_interest() {
    let (echo, result) = preview_submission(form("  launch windows ", 0.3, 5));
    assert_eq!(echo, "launch windows");
    assert_eq!(result.unwrap().query_text, echo);
    let (echo, result) = preview_submission(form(" hi ", 0.3, 5));
    assert_eq!(echo, "hi");
    assert!(result.is_err());
}

#[test]
fn discovery_mode_labels() {
    assert_eq!(DiscoveryMode::Seed.label(), "seed");
    assert_eq!(DiscoveryMode::RobotsSitemap.label(), "robots sitemap");
    assert_eq!(DiscoveryMode::Sitemap.label(), "sitemap");
    assert_eq!(DiscoveryMode::Rss.label(), "RSS / Atom");
    assert_eq!(DiscoveryMode::LinkCrawl.label(), "same-domain links");
    assert_eq!(DiscoveryMode::ExternalIndex.label(), "external candidates");
}
