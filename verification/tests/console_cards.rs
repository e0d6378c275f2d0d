use eal_leptos_web::console::{
    candidate_card, console_eyebrow, rule_card, source_card, CandidateView, RuleView, SourceView,
};

#[test]
fn source_card_text() {
    let source = SourceView {
        id: "src-1".into(),
        domain: "example.org".into(),
        status: "active".into(),
        include_subdomains: true,
        respect_robots: false,
        page_budget: 250,
        indexed_pages: 1234,
        last_scan_label: "2 hours ago".into(),
    };
    let card = source_card(&source);
    assert_eq!(card.subdomain_label, "Exact host + subdomains");
    assert_eq!(card.robots_label, "Robots disabled");
    assert_eq!(card.status_class, "status-pill status-active");
    assert_eq!(card.indexed_pages, "1234");
    assert_eq!(card.page_budget, "250");
    assert_eq!(card.scan_url, "/ui/sources/src-1/scan");
    assert_eq!(card.detail_url, "/sources/src-1");
}

#[test]
fn rule_card_text() {
    let rule = RuleView {
        id: "r9".into(),
        name: "Launches".into(),
        revision: 3,
        query_text: "rocket launches".into(),
        threshold_bits: 1.7f32.to_bits(),
        candidate_count: 0,
        enabled: false,
    };
    let card = rule_card(&rule);
    assert_eq!(card.revision_label, "Revision 3");
    assert_eq!(card.status, "paused");
    assert_eq!(card.status_class, "status-pill status-paused");
    assert_eq!(f32::from_bits(card.threshold_bits), 1.0);
    assert_eq!(card.candidate_count, "0");
    assert_eq!(card.evaluate_url, "/ui/alert-rules/r9/evaluate");
    assert_eq!(card.detail_url, "/alert-rules/r9");
}

#[test]
fn candidate_card_text() {
    let candidate = CandidateView {
        id: "m1".into(),
        rule_name: "Launches".into(),
        page_title: "Liftoff".into(),
        canonical_url: "https://example.org/liftoff".into(),
        source_domain: "example.org".into(),
        state: "candidate".into(),
        overall_score_bits: f32::NAN.to_bits(),
        semantic_score_bits: 0.25f32.to_bits(),
        lexical_score_bits: (-3.0f32).to_bits(),
        entity_score_bits: 9.0f32.to_bits(),
        recency_score_bits: 1.0f32.to_bits(),
        source_priority_score_bits: 0.5f32.to_bits(),
        best_sentence: "The rocket lifted off.".into(),
        entities: vec!["NASA".into()],
        keywords: vec!["rocket".into(), "launch".into()],
        model_label: "model-x".into(),
        discovered_label: "today".into(),
    };
    let card = candidate_card(&candidate);
    assert_eq!(card.context, "Launches · example.org");
    assert_eq!(card.overall_score_bits, 0);
    let rows: Vec<(&str, f32)> =
        card.score_rows.iter().map(|r| (r.label, f32::from_bits(r.score_bits))).collect();
    assert_eq!(
        rows,
        vec![
            ("Semantic", 0.25),
            ("Lexical", 0.0),
            ("Entity", 1.0),
            ("Recency", 1.0),
            ("Source priority", 0.5)
        ]
    );
    assert_eq!(card.keywords, vec!["rocket".to_string(), "launch".to_string()]);
    assert_eq!(card.approve_url, "/ui/matches/m1/approve");
    assert_eq!(card.suppress_url, "/ui/matches/m1/suppress");
    assert_eq!(card.dismiss_url, "/ui/matches/m1/dismiss");
    assert_eq!(card.detail_url, "/matches/m1");
    assert_eq!(card.status_class, "status-pill status-candidate");
}

#[test]
fn console_eyebrow_names_the_tenant() {
    assert_eq!(console_eyebrow("Acme"), "Embedded Alerts / Acme");
}
