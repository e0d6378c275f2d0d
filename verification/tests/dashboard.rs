use eal_leptos_web::cards::{health_card, page_card, preview_panel, source_domain_card};
use eal_leptos_web::dashboard::{
    assemble_dashboard, capture, dashboard_can_render, dashboard_health, dashboard_view,
    ApiFailure,
};
use eal_leptos_web::ids::UtcTimestamp;
use eal_leptos_web::models::{
    ApiHealth, DiscoveryMode, MatchCandidate, MatchEvidence, PageIndexRecord, ScoreComponents,
    SearchResult, SemanticSearchResponse, SourceDomain,
};

const ID: u128 = 0x67e5_5044_10b1_426f_9247_bb68_0e5f_e0c8;

fn health() -> ApiHealth {
    ApiHealth {
        service: "eal-api".into(),
        status: "ok".into(),
        environment: "development".into(),
        storage_mode: "memory".into(),
        semantic_index_mode: "local".into(),
        production_ready: false,
        database_connected: true,
        supabase_configured: false,
        embedding_mode: "hash".into(),
        embedding_model: "m1".into(),
    }
}

fn failure(code: &str) -> ApiFailure {
    ApiFailure { code: code.into(), message: "down".into() }
}

fn components() -> ScoreComponents {
    ScoreComponents {
        semantic_bits: 0.9f32.to_bits(),
        lexical_bits: 0.1f32.to_bits(),
        entity_bits: 0.2f32.to_bits(),
        recency_bits: 0.3f32.to_bits(),
        source_priority_bits: 0.4f32.to_bits(),
        weights: "{\"semantic\":1}".into(),
    }
}

fn page(hash: &str) -> PageIndexRecord {
    PageIndexRecord {
        id: ID,
        source_id: 0xabcdef01 << 96,
        previous_revision_id: None,
        canonical_url: "https://example.org/a".into(),
        fetched_at: UtcTimestamp::from_unix_seconds(1_431_648_000).unwrap(),
        content_hash: hash.into(),
        title: None,
        summary: "sum".into(),
        keywords: (0..10).map(|i| format!("k{i}")).collect(),
        entities: vec!["E".into()],
        model: "{}".into(),
        extractor_version: "v1".into(),
        segment_count: 7,
    }
}

fn candidate() -> MatchCandidate {
    MatchCandidate {
        id: ID,
        match_key: "key".into(),
        tenant_id: 1,
        alert_rule_id: ID,
        alert_rule_revision: 4,
        page_revision_id: 2,
        source_id: 3,
        canonical_url: "https://example.org/a".into(),
        content_hash: "h".into(),
        query_hash: "q".into(),
        model: "{}".into(),
        score_bits: 0.8f32.to_bits(),
        components: components(),
        evidence: vec![MatchEvidence {
            page_segment_kind: "sentence".into(),
            page_text: "text".into(),
            query_segment_kind: "query".into(),
            similarity_bits: 0.5f32.to_bits(),
            weighted_similarity_bits: 0.25f32.to_bits(),
        }],
        state: "candidate".into(),
        created_at: UtcTimestamp::from_unix_seconds(0).unwrap(),
    }
}

fn response(cursor: Option<&str>) -> SemanticSearchResponse {
    SemanticSearchResponse {
        query_text: "rockets".into(),
        model: "{\"m\":1}".into(),
        results: vec![SearchResult {
            page_revision_id: ID,
            source_id: ID,
            canonical_url: "https://example.org/r".into(),
            title: Some("Result".into()),
            summary: "s".into(),
            fetched_at: UtcTimestamp::from_unix_seconds(60).unwrap(),
            content_hash: "0123456789abcdef0123456789abcdef".into(),
            model: "{}".into(),
            score_bits: 0.7f32.to_bits(),
            components: components(),
            evidence: Vec::new(),
        }],
        next_cursor: cursor.map(|c| c.to_string()),
        compared_pages: 12,
        skipped_cross_model_pages: 1,
        candidate_matches_created: 0,
    }
}

#[test]
fn capture_records_failures() {
    let mut errors = Vec::new();
    assert_eq!(capture("health", Ok::<u8, ApiFailure>(5), &mut errors), Some(5));
    assert!(errors.is_empty());
    assert_eq!(capture::<u8>("pages", Err(failure("timeout")), &mut errors), None);
    assert_eq!(errors, vec!["pages: timeout · down".to_string()]);
}

#[test]
fn assembled_dashboard_reports_each_failure_once() {
    let data = assemble_dashboard(
        "development".into(),
        ID,
        "rockets".into(),
        Some("Preview limit must be between 1 and 50.".into()),
        Ok(health()),
        Err(failure("sources_down")),
        Ok(vec![page("abc")]),
        Err(failure("matches_down")),
        Some(Err(failure("search_down"))),
    );
    assert_eq!(
        data.errors,
        vec![
            "Preview limit must be between 1 and 50.".to_string(),
            "sources: sources_down · down".to_string(),
            "matches: matches_down · down".to_string(),
            "preview: search_down · down".to_string(),
        ]
    );
    assert!(data.health.is_some());
    assert!(data.sources.is_empty());
    assert_eq!(data.pages.len(), 1);
    assert!(data.matches.is_empty());
    assert!(data.preview.is_none());
    assert_eq!(data.tenant_label, "67e55044");
}

#[test]
fn dashboard_health_is_never_production_ready() {
    let up = dashboard_health("development", Some(health()));
    assert_eq!(up.status, "degraded");
    assert!(up.api_reachable);
    assert_eq!(up.api_production_ready, Some(false));
    assert!(!up.production_ready);
    assert_eq!(up.service, "eal-leptos-web");
    assert_eq!(up.tenant_context, "development_header");
    let down = dashboard_health("test", None);
    assert_eq!(down.status, "unavailable");
    assert!(!down.api_reachable);
    assert_eq!(down.api_production_ready, None);
    assert!(!down.production_ready);
}

#[test]
fn health_card_text() {
    let card = health_card(&health());
    assert_eq!(
        card.detail,
        "development · memory · local · db:true · supabase:false · production:false"
    );
    assert_eq!(card.embedding, "hash / m1");
}

#[test]
fn source_domain_card_text() {
    let mut source = SourceDomain {
        id: ID,
        tenant_id: 0,
        name: "Example".into(),
        base_url: "https://example.org".into(),
        host: "example.org".into(),
        include_subdomains: false,
        seed_urls: Vec::new(),
        discovery_modes: vec![DiscoveryMode::Seed, DiscoveryMode::Rss],
        max_pages_per_scan: 250,
        source_priority_bits: 0.5f32.to_bits(),
        respect_robots: true,
        enabled: false,
    };
    let card = source_domain_card(&source);
    assert_eq!(card.class, "source-card source-card--disabled");
    assert_eq!(card.modes, "seed · RSS / Atom");
    assert_eq!(card.seeds, "Seeds: API default");
    assert_eq!(card.budget, "250 pages");
    assert_eq!(card.source_short, "67e55044");
    assert_eq!(card.tenant_short, "00000000");
    assert_eq!(card.subdomains, "no");
    assert_eq!(card.robots, "required");
    assert_eq!(card.enabled, "no");
    source.seed_urls = vec!["https://example.org/a".into(), "https://example.org/b".into()];
    source.enabled = true;
    let card = source_domain_card(&source);
    assert_eq!(card.class, "source-card");
    assert_eq!(card.seeds, "Seeds: https://example.org/a · https://example.org/b");
}

#[test]
fn page_card_text() {
    let card = page_card(&page("0123456789abcdef0123456789abcdef"));
    assert_eq!(card.kicker, "67e55044 · source abcdef01");
    assert_eq!(card.title, "Untitled page");
    assert_eq!(card.segments, "7 segments");
    assert_eq!(card.keywords, "k0 · k1 · k2 · k3 · k4 · k5 · k6 · k7");
    assert_eq!(card.entities, "E");
    assert_eq!(card.fetched, "2015-05-15 00:00 UTC");
    assert_eq!(card.hash, "01234567…89abcdef");
    assert_eq!(card.predecessor, "first revision");
}

#[test]
fn preview_panel_text() {
    let panel = preview_panel(&response(Some("c2")));
    assert_eq!(panel.count_label, "1 result(s)");
    assert_eq!(panel.interest, "Interest: rockets");
    assert_eq!(
        panel.summary,
        "12 pages compared · 1 cross-model skipped · 0 candidates created · model {\"m\":1} · next c2"
    );
    assert!(!panel.show_empty);
    let result = &panel.results[0];
    assert_eq!(result.kicker, "page 67e55044 · source 67e55044");
    assert_eq!(result.title, "Result");
    assert_eq!(result.footer, "Fetched 1970-01-01 00:01 UTC · hash 01234567…89abcdef · model {}");
    let labels: Vec<&str> = result.scores.cells.iter().map(|c| c.label).collect();
    assert_eq!(labels, vec!["semantic", "lexical", "entity", "recency", "source"]);
    assert_eq!(result.evidence.summary, "0 evidence segment(s)");
    let panel = preview_panel(&response(None));
    assert!(panel.summary.ends_with("model {\"m\":1}"));
}

#[test]
fn dashboard_view_lists_at_most_twelve_revisions_and_twenty_candidates() {
    let pages: Vec<PageIndexRecord> = (0..15).map(|_| page("abc")).collect();
    let matches: Vec<MatchCandidate> = (0..25).map(|_| candidate()).collect();
    let data = assemble_dashboard(
        "development".into(),
        ID,
        String::new(),
        None,
        Err(failure("x")),
        Ok(Vec::new()),
        Ok(pages),
        Ok(matches),
        Some(Ok(response(None))),
    );
    assert!(dashboard_can_render(&data));
    let view = dashboard_view(&data);
    assert_eq!(view.revision_count, 15);
    assert_eq!(view.pages.len(), 12);
    assert_eq!(view.candidate_count, 25);
    assert_eq!(view.candidates.len(), 20);
    assert!(view.sources_empty);
    assert!(!view.pages_empty);
    assert!(view.health.is_none());
    assert!(view.preview.is_some());
    let c = &view.candidates[0];
    assert_eq!(c.kicker, "candidate 67e55044 · rule 67e55044@4");
    assert_eq!(c.tenant, "00000000-0000-0000-0000-000000000001");
    assert_eq!(c.created, "1970-01-01 00:00 UTC");
    assert_eq!(c.evidence.summary, "1 evidence segment(s)");
    assert_eq!(c.evidence.items[0].kinds, "sentence ↔ query");
    assert_eq!(view.errors, vec!["health: x · down".to_string()]);
}

#[test]
fn unshortenable_hash_blocks_rendering() {
    let data = assemble_dashboard(
        "development".into(),
        ID,
        String::new(),
        None,
        Err(failure("x")),
        Ok(Vec::new()),
        Ok(vec![page("aaaaaaaé1234567890")]),
        Ok(Vec::new()),
        None,
    );
    assert!(!dashboard_can_render(&data));
}
