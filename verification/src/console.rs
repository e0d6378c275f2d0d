//! The semantic monitoring console: the text of every source, rule and
//! candidate card, the form targets they post to, and the field names that
//! the browser is allowed to send.
use vstd::prelude::*;
use vstd::string::StringExecFns;
use crate::scores::{clamp_score_bits, clamped, unit_bits};
use crate::text::{copy_texts, decimal, decimal_text};

verus! {

/// A registered source as the console lists it.
pub struct SourceView {
    pub id: String,
    pub domain: String,
    pub status: String,
    pub include_subdomains: bool,
    pub respect_robots: bool,
    pub page_budget: u32,
    pub indexed_pages: u64,
    pub last_scan_label: String,
}

/// An alert rule as the console lists it; the threshold is an `f32` bit pattern.
pub struct RuleView {
    pub id: String,
    pub name: String,
    pub revision: u32,
    pub query_text: String,
    pub threshold_bits: u32,
    pub candidate_count: u64,
    pub enabled: bool,
}

/// A match candidate as the console lists it; scores are `f32` bit patterns.
pub struct CandidateView {
    pub id: String,
    pub rule_name: String,
    pub page_title: String,
    pub canonical_url: String,
    pub source_domain: String,
    pub state: String,
    pub overall_score_bits: u32,
    pub semantic_score_bits: u32,
    pub lexical_score_bits: u32,
    pub entity_score_bits: u32,
    pub recency_score_bits: u32,
    pub source_priority_score_bits: u32,
    pub best_sentence: String,
    pub entities: Vec<String>,
    pub keywords: Vec<String>,
    pub model_label: String,
    pub discovered_label: String,
}

/// The text of a source card.
pub struct SourceCardText {
    pub id: String,
    pub domain: String,
    pub subdomain_label: &'static str,
    pub status: String,
    pub status_class: String,
    pub indexed_pages: String,
    pub page_budget: String,
    pub robots_label: &'static str,
    pub last_scan_label: String,
    pub scan_url: String,
    pub detail_url: String,
}

/// The text of an alert-rule card. The threshold is already clamped to
/// `[0, 1]`; it is shown as a whole percentage.
pub struct RuleCardText {
    pub id: String,
    pub revision_label: String,
    pub name: String,
    pub status: &'static str,
    pub status_class: String,
    pub query_text: String,
    pub threshold_bits: u32,
    pub candidate_count: String,
    pub evaluate_url: String,
    pub detail_url: String,
}

/// One row of a candidate's score breakdown; the score is clamped to `[0, 1]`.
pub struct ScoreRowText {
    pub label: &'static str,
    pub score_bits: u32,
}

/// The text of a candidate card. Scores are clamped to `[0, 1]`.
pub struct CandidateCardText {
    pub id: String,
    pub context: String,
    pub canonical_url: String,
    pub page_title: String,
    pub overall_score_bits: u32,
    pub best_sentence: String,
    pub score_rows: Vec<ScoreRowText>,
    pub entities: Vec<String>,
    pub keywords: Vec<String>,
    pub state: String,
    pub status_class: String,
    pub discovered_label: String,
    pub model_label: String,
    pub approve_url: String,
    pub suppress_url: String,
    pub dismiss_url: String,
    pub detail_url: String,
}

fn clamp(bits: u32) -> (out: u32)
    ensures
        out == clamped(bits),
        unit_bits(out),
{
    clamp_score_bits(bits)
}

/// `prefix` followed by `s`.
fn prefixed(prefix: &str, s: &str) -> (out: String)
    ensures
        out@ == prefix@ + s@,
{
    let mut out = prefix.to_owned();
    out.append(s);
    out
}

/// `prefix`, then `s`, then `suffix`.
fn wrapped(prefix: &str, s: &str, suffix: &str) -> (out: String)
    ensures
        out@ == prefix@ + s@ + suffix@,
{
    let mut out = prefix.to_owned();
    out.append(s);
    out.append(suffix);
    out
}

/// The CSS classes of a status pill.
pub open spec fn status_class_of(status: Seq<char>) -> Seq<char> {
    "status-pill status-"@ + status
}

/// Whether the source card's fields say what the console shows for `source`.
pub open spec fn source_card_of(card: SourceCardText, source: SourceView) -> bool {
    &&& card.id@ == source.id@
    &&& card.domain@ == source.domain@
    &&& card.subdomain_label@ == (if source.include_subdomains {
        "Exact host + subdomains"@
    } else {
        "Exact host only"@
    })
    &&& card.status@ == source.status@
    &&& card.status_class@ == status_class_of(source.status@)
    &&& card.indexed_pages@ == decimal(source.indexed_pages as nat)
    &&& card.page_budget@ == decimal(source.page_budget as nat)
    &&& card.robots_label@ == (if source.respect_robots {
        "Robots enforced"@
    } else {
        "Robots disabled"@
    })
    &&& card.last_scan_label@ == source.last_scan_label@
    &&& card.scan_url@ == "/ui/sources/"@ + source.id@ + "/scan"@
    &&& card.detail_url@ == "/sources/"@ + source.id@
}

/// The text of a source card.
pub fn source_card(source: &SourceView) -> (card: SourceCardText)
    ensures
        source_card_of(card, *source),
{
    SourceCardText {
        id: source.id.clone(),
        domain: source.domain.clone(),
        subdomain_label: if source.include_subdomains {
            "Exact host + subdomains"
        } else {
            "Exact host only"
        },
        status: source.status.clone(),
        status_class: prefixed("status-pill status-", source.status.as_str()),
        indexed_pages: decimal_text(source.indexed_pages),
        page_budget: decimal_text(source.page_budget as u64),
        robots_label: if source.respect_robots {
            "Robots enforced"
        } else {
            "Robots disabled"
        },
        last_scan_label: source.last_scan_label.clone(),
        scan_url: wrapped("/ui/sources/", source.id.as_str(), "/scan"),
        detail_url: prefixed("/sources/", source.id.as_str()),
    }
}

/// Whether the rule card's fields say what the console shows for `rule`.
pub open spec fn rule_card_of(card: RuleCardText, rule: RuleView) -> bool {
    let status = if rule.enabled {
        "enabled"@
    } else {
        "paused"@
    };
    &&& card.id@ == rule.id@
    &&& card.revision_label@ == "Revision "@ + decimal(rule.revision as nat)
    &&& card.name@ == rule.name@
    &&& card.status@ == status
    &&& card.status_class@ == status_class_of(status)
    &&& card.query_text@ == rule.query_text@
    &&& card.threshold_bits == clamped(rule.threshold_bits)
    &&& card.candidate_count@ == decimal(rule.candidate_count as nat)
    &&& card.evaluate_url@ == "/ui/alert-rules/"@ + rule.id@ + "/evaluate"@
    &&& card.detail_url@ == "/alert-rules/"@ + rule.id@
}

/// The text of an alert-rule card.
pub fn rule_card(rule: &RuleView) -> (card: RuleCardText)
    ensures
        rule_card_of(card, *rule),
{
    let status: &'static str = if rule.enabled {
        "enabled"
    } else {
        "paused"
    };
    let revision = decimal_text(rule.revision as u64);
    RuleCardText {
        id: rule.id.clone(),
        revision_label: prefixed("Revision ", revision.as_str()),
        name: rule.name.clone(),
        status,
        status_class: prefixed("status-pill status-", status),
        query_text: rule.query_text.clone(),
        threshold_bits: clamp(rule.threshold_bits),
        candidate_count: decimal_text(rule.candidate_count),
        evaluate_url: wrapped("/ui/alert-rules/", rule.id.as_str(), "/evaluate"),
        detail_url: prefixed("/alert-rules/", rule.id.as_str()),
    }
}

/// The score rows of a candidate card, in the order they are shown.
pub open spec fn score_rows_of(rows: Seq<ScoreRowText>, candidate: CandidateView) -> bool {
    &&& rows.len() == 5
    &&& rows[0].label@ == "Semantic"@ && rows[0].score_bits == clamped(candidate.semantic_score_bits)
    &&& rows[1].label@ == "Lexical"@ && rows[1].score_bits == clamped(candidate.lexical_score_bits)
    &&& rows[2].label@ == "Entity"@ && rows[2].score_bits == clamped(candidate.entity_score_bits)
    &&& rows[3].label@ == "Recency"@ && rows[3].score_bits == clamped(candidate.recency_score_bits)
    &&& rows[4].label@ == "Source priority"@ && rows[4].score_bits == clamped(
        candidate.source_priority_score_bits,
    )
}

/// The form target of a review action (`approve`, `suppress` or `dismiss`).
pub open spec fn review_url(id: Seq<char>, action: Seq<char>) -> Seq<char> {
    "/ui/matches/"@ + id + ("/"@ + action)
}

/// Whether the candidate card's fields say what the console shows for `candidate`.
pub open spec fn candidate_card_of(card: CandidateCardText, candidate: CandidateView) -> bool {
    &&& card.id@ == candidate.id@
    &&& card.context@ == candidate.rule_name@ + " \u{b7} "@ + candidate.source_domain@
    &&& card.canonical_url@ == candidate.canonical_url@
    &&& card.page_title@ == candidate.page_title@
    &&& card.overall_score_bits == clamped(candidate.overall_score_bits)
    &&& card.best_sentence@ == candidate.best_sentence@
    &&& score_rows_of(card.score_rows@, candidate)
    &&& card.entities@ == candidate.entities@
    &&& card.keywords@ == candidate.keywords@
    &&& card.state@ == candidate.state@
    &&& card.status_class@ == status_class_of(candidate.state@)
    &&& card.discovered_label@ == candidate.discovered_label@
    &&& card.model_label@ == candidate.model_label@
    &&& card.approve_url@ == review_url(candidate.id@, "approve"@)
    &&& card.suppress_url@ == review_url(candidate.id@, "suppress"@)
    &&& card.dismiss_url@ == review_url(candidate.id@, "dismiss"@)
    &&& card.detail_url@ == "/matches/"@ + candidate.id@
}

/// The text of a candidate card.
pub fn candidate_card(candidate: &CandidateView) -> (card: CandidateCardText)
    ensures
        candidate_card_of(card, *candidate),
{
    let mut context = candidate.rule_name.clone();
    context.append(" \u{b7} ");
    context.append(candidate.source_domain.as_str());
    let mut score_rows: Vec<ScoreRowText> = Vec::new();
    score_rows.push(
        ScoreRowText { label: "Semantic", score_bits: clamp(candidate.semantic_score_bits) },
    );
    score_rows.push(
        ScoreRowText { label: "Lexical", score_bits: clamp(candidate.lexical_score_bits) },
    );
    score_rows.push(ScoreRowText { label: "Entity", score_bits: clamp(candidate.entity_score_bits) });
    score_rows.push(
        ScoreRowText { label: "Recency", score_bits: clamp(candidate.recency_score_bits) },
    );
    score_rows.push(
        ScoreRowText {
            label: "Source priority",
            score_bits: clamp(candidate.source_priority_score_bits),
        },
    );
    let id = candidate.id.as_str();
    proof {
        reveal_strlit("/approve");
        reveal_strlit("/suppress");
        reveal_strlit("/dismiss");
        reveal_strlit("/");
        reveal_strlit("approve");
        reveal_strlit("suppress");
        reveal_strlit("dismiss");
        assert("/approve"@ =~= "/"@ + "approve"@);
        assert("/suppress"@ =~= "/"@ + "suppress"@);
        assert("/dismiss"@ =~= "/"@ + "dismiss"@);
    }
    CandidateCardText {
        id: candidate.id.clone(),
        context,
        canonical_url: candidate.canonical_url.clone(),
        page_title: candidate.page_title.clone(),
        overall_score_bits: clamp(candidate.overall_score_bits),
        best_sentence: candidate.best_sentence.clone(),
        score_rows,
        entities: copy_texts(&candidate.entities),
        keywords: copy_texts(&candidate.keywords),
        state: candidate.state.clone(),
        status_class: prefixed("status-pill status-", candidate.state.as_str()),
        discovered_label: candidate.discovered_label.clone(),
        model_label: candidate.model_label.clone(),
        approve_url: wrapped("/ui/matches/", id, "/approve"),
        suppress_url: wrapped("/ui/matches/", id, "/suppress"),
        dismiss_url: wrapped("/ui/matches/", id, "/dismiss"),
        detail_url: prefixed("/matches/", id),
    }
}

/// The console's eyebrow line for a tenant.
pub fn console_eyebrow(tenant_name: &str) -> (out: String)
    ensures
        out@ == "Embedded Alerts / "@ + tenant_name@,
{
    prefixed("Embedded Alerts / ", tenant_name)
}

/// The names of the form fields that the console lets the browser submit.
pub open spec fn browser_fields() -> Seq<Seq<char>> {
    seq![
        "domain"@,
        "seed_urls"@,
        "page_budget"@,
        "priority"@,
        "query_text"@,
        "threshold"@,
        "expected_state"@,
    ]
}

/// The views of a list of string slices.
pub open spec fn str_views(items: Seq<&'static str>) -> Seq<Seq<char>> {
    items.map_values(|s: &'static str| s@)
}

/// The field names that the browser may submit. None of them carries an
/// embedding (no `vector`, `embedding` or `dimensions` field exists), and
/// none names a tenant: tenant identity never comes from the browser.
pub fn browser_contract_field_names() -> (out: Vec<&'static str>)
    ensures
        str_views(out@) == browser_fields(),
        !str_views(out@).contains("vector"@),
        !str_views(out@).contains("embedding"@),
        !str_views(out@).contains("dimensions"@),
        forall|i: int|
            0 <= i < out@.len() ==> !"tenant"@.is_prefix_of(#[trigger] str_views(out@)[i]),
{
    let out = vec![
        "domain",
        "seed_urls",
        "page_budget",
        "priority",
        "query_text",
        "threshold",
        "expected_state",
    ];
    proof {
        reveal_strlit("domain");
        reveal_strlit("seed_urls");
        reveal_strlit("page_budget");
        reveal_strlit("priority");
        reveal_strlit("query_text");
        reveal_strlit("threshold");
        reveal_strlit("expected_state");
        reveal_strlit("vector");
        reveal_strlit("embedding");
        reveal_strlit("dimensions");
        assert(str_views(out@) =~= browser_fields());
        assert(!browser_fields().contains("vector"@)) by {
            assert forall|i: int| 0 <= i < 7 implies browser_fields()[i] != "vector"@ by {
                assert(browser_fields()[i].len() != 6 || browser_fields()[i][0] != 'v');
            }
        }
        assert(!browser_fields().contains("embedding"@)) by {
            assert forall|i: int| 0 <= i < 7 implies browser_fields()[i] != "embedding"@ by {
                assert(browser_fields()[i].len() != 9 || browser_fields()[i][0] != 'e');
            }
        }
        reveal_strlit("tenant");
        assert forall|i: int| 0 <= i < 7 implies !"tenant"@.is_prefix_of(
            #[trigger] browser_fields()[i],
        ) by {
            let f = browser_fields()[i];
            assert(f[0] != 't' || f[1] != 'e');
            if "tenant"@.is_prefix_of(f) {
                assert("tenant"@[0] == f.subrange(0, 6)[0]);
                assert("tenant"@[1] == f.subrange(0, 6)[1]);
            }
        }
        assert(!browser_fields().contains("dimensions"@)) by {
            assert forall|i: int| 0 <= i < 7 implies browser_fields()[i] != "dimensions"@ by {
                assert(browser_fields()[i].len() != 10 || browser_fields()[i][0] != 'd');
            }
        }
    }
    out
}

} // verus!
