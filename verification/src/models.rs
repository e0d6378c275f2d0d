//! The records that the dashboard reads from the Embedded Alerts API, and
//! the validation of an interest preview.
//!
//! Identifiers are held as their 128-bit values, scores as `f32` bit patterns
//! (see `scores`), instants as `UtcTimestamp`, and the API's free-form JSON
//! (embedding model descriptions, score weights) as its compact JSON text.
use vstd::prelude::*;
use vstd::string::StrSliceExecFns;
use crate::ids::UtcTimestamp;
use crate::scores::{is_unit_interval, unit_bits};
use crate::text::{trim_text, trimmed};

verus! {

/// How a source discovers candidate pages.
#[derive(Clone, Copy, Debug, PartialEq, Eq, Structural)]
pub enum DiscoveryMode {
    Seed,
    RobotsSitemap,
    Sitemap,
    Rss,
    LinkCrawl,
    ExternalIndex,
}

/// The label shown for a discovery mode.
pub open spec fn discovery_label(mode: DiscoveryMode) -> Seq<char> {
    match mode {
        DiscoveryMode::Seed => "seed"@,
        DiscoveryMode::RobotsSitemap => "robots sitemap"@,
        DiscoveryMode::Sitemap => "sitemap"@,
        DiscoveryMode::Rss => "RSS / Atom"@,
        DiscoveryMode::LinkCrawl => "same-domain links"@,
        DiscoveryMode::ExternalIndex => "external candidates"@,
    }
}

impl DiscoveryMode {
    /// The label shown for this discovery mode.
    pub fn label(self) -> (out: &'static str)
        ensures
            out@ == discovery_label(self),
    {
        match self {
            DiscoveryMode::Seed => "seed",
            DiscoveryMode::RobotsSitemap => "robots sitemap",
            DiscoveryMode::Sitemap => "sitemap",
            DiscoveryMode::Rss => "RSS / Atom",
            DiscoveryMode::LinkCrawl => "same-domain links",
            DiscoveryMode::ExternalIndex => "external candidates",
        }
    }
}

/// The service health that the API reports.
#[derive(Debug)]
pub struct ApiHealth {
    pub service: String,
    pub status: String,
    pub environment: String,
    pub storage_mode: String,
    pub semantic_index_mode: String,
    pub production_ready: bool,
    pub database_connected: bool,
    pub supabase_configured: bool,
    pub embedding_mode: String,
    pub embedding_model: String,
}

/// A registered source boundary.
#[derive(Debug)]
pub struct SourceDomain {
    pub id: u128,
    pub tenant_id: u128,
    pub name: String,
    pub base_url: String,
    pub host: String,
    pub include_subdomains: bool,
    pub seed_urls: Vec<String>,
    pub discovery_modes: Vec<DiscoveryMode>,
    pub max_pages_per_scan: usize,
    pub source_priority_bits: u32,
    pub respect_robots: bool,
    pub enabled: bool,
}

/// An immutable page revision in the index.
#[derive(Debug)]
pub struct PageIndexRecord {
    pub id: u128,
    pub source_id: u128,
    pub previous_revision_id: Option<u128>,
    pub canonical_url: String,
    pub fetched_at: UtcTimestamp,
    pub content_hash: String,
    pub title: Option<String>,
    pub summary: String,
    pub keywords: Vec<String>,
    pub entities: Vec<String>,
    pub model: String,
    pub extractor_version: String,
    pub segment_count: usize,
}

/// The components of a combined match score.
#[derive(Debug)]
pub struct ScoreComponents {
    pub semantic_bits: u32,
    pub lexical_bits: u32,
    pub entity_bits: u32,
    pub recency_bits: u32,
    pub source_priority_bits: u32,
    pub weights: String,
}

/// One pair of matching segments behind a score.
#[derive(Debug)]
pub struct MatchEvidence {
    pub page_segment_kind: String,
    pub page_text: String,
    pub query_segment_kind: String,
    pub similarity_bits: u32,
    pub weighted_similarity_bits: u32,
}

/// A match candidate awaiting a delivery decision.
#[derive(Debug)]
pub struct MatchCandidate {
    pub id: u128,
    pub match_key: String,
    pub tenant_id: u128,
    pub alert_rule_id: u128,
    pub alert_rule_revision: u32,
    pub page_revision_id: u128,
    pub source_id: u128,
    pub canonical_url: String,
    pub content_hash: String,
    pub query_hash: String,
    pub model: String,
    pub score_bits: u32,
    pub components: ScoreComponents,
    pub evidence: Vec<MatchEvidence>,
    pub state: String,
    pub created_at: UtcTimestamp,
}

/// One page that a semantic search returned.
#[derive(Debug)]
pub struct SearchResult {
    pub page_revision_id: u128,
    pub source_id: u128,
    pub canonical_url: String,
    pub title: Option<String>,
    pub summary: String,
    pub fetched_at: UtcTimestamp,
    pub content_hash: String,
    pub model: String,
    pub score_bits: u32,
    pub components: ScoreComponents,
    pub evidence: Vec<MatchEvidence>,
}

/// The API's answer to a semantic search.
#[derive(Debug)]
pub struct SemanticSearchResponse {
    pub query_text: String,
    pub model: String,
    pub results: Vec<SearchResult>,
    pub next_cursor: Option<String>,
    pub compared_pages: usize,
    pub skipped_cross_model_pages: usize,
    pub candidate_matches_created: usize,
}

/// The interest-preview form as submitted.
#[derive(Debug)]
pub struct PreviewForm {
    pub query_text: String,
    pub threshold_bits: u32,
    pub limit: usize,
}

/// A semantic search request. A preview never names an alert-rule
/// revision, so it cannot create candidates or send notifications.
#[derive(Debug)]
pub struct SemanticSearchRequest {
    pub query_text: String,
    pub source_ids: Vec<u128>,
    pub threshold_bits: u32,
    pub limit: usize,
    pub cursor: Option<String>,
    pub expected_model: Option<String>,
    pub alert_rule: Option<String>,
}

/// The fewest characters an interest may have.
pub const MIN_QUERY_CHARS: usize = 3;

/// The most characters an interest may have.
pub const MAX_QUERY_CHARS: usize = 2000;

/// The largest number of preview results that may be asked for.
pub const MAX_PREVIEW_LIMIT: usize = 50;

/// The refusal for an interest of the wrong length.
pub open spec fn query_length_message() -> Seq<char> {
    "Interest must contain 3 to 2,000 characters."@
}

/// The refusal for a threshold that is not a finite number in `[0, 1]`.
pub open spec fn threshold_message() -> Seq<char> {
    "Threshold must be a finite number between 0 and 1."@
}

/// The refusal for a result limit outside `1..=50`.
pub open spec fn limit_message() -> Seq<char> {
    "Preview limit must be between 1 and 50."@
}

/// Whether a trimmed interest has an accepted length.
pub open spec fn query_length_ok(query: Seq<char>) -> bool {
    MIN_QUERY_CHARS <= query.len() <= MAX_QUERY_CHARS
}

/// Whether a preview limit is accepted.
pub open spec fn limit_ok(limit: usize) -> bool {
    1 <= limit <= MAX_PREVIEW_LIMIT
}

/// Whether a preview form is accepted.
pub open spec fn preview_accepted(form: PreviewForm) -> bool {
    &&& query_length_ok(trimmed(form.query_text@))
    &&& unit_bits(form.threshold_bits)
    &&& limit_ok(form.limit)
}

/// Whether `out` is a refusal with exactly this message.
pub open spec fn refused_with<T>(out: Result<T, String>, message: Seq<char>) -> bool {
    out matches Err(e) && e@ == message
}

impl SemanticSearchRequest {
    /// Validates a preview form and turns it into a read-only search request.
    /// The interest is trimmed and must then hold 3 to 2,000 characters, the
    /// threshold must be a finite number in `[0, 1]`, and the limit must lie in
    /// `1..=50`; the first rule that fails decides the refusal.
    pub fn try_from(form: PreviewForm) -> (out: Result<SemanticSearchRequest, String>)
        ensures
            out is Ok <==> preview_accepted(form),
            !query_length_ok(trimmed(form.query_text@)) ==> refused_with(
                out,
                query_length_message(),
            ),
            query_length_ok(trimmed(form.query_text@)) && !unit_bits(form.threshold_bits)
                ==> refused_with(out, threshold_message()),
            query_length_ok(trimmed(form.query_text@)) && unit_bits(form.threshold_bits)
                && !limit_ok(form.limit) ==> refused_with(out, limit_message()),
            out matches Ok(request) ==> {
                &&& request.query_text@ == trimmed(form.query_text@)
                &&& request.threshold_bits == form.threshold_bits
                &&& request.limit == form.limit
                &&& request.source_ids@.len() == 0
                &&& request.cursor is None
                &&& request.expected_model is None
                &&& request.alert_rule is None
            },
    {
        let query_text = trim_text(form.query_text.as_str());
        let count = query_text.as_str().unicode_len();
        if !(MIN_QUERY_CHARS <= count && count <= MAX_QUERY_CHARS) {
            return Err("Interest must contain 3 to 2,000 characters.".to_owned());
        }
        if !is_unit_interval(form.threshold_bits) {
            return Err("Threshold must be a finite number between 0 and 1.".to_owned());
        }
        if !(1 <= form.limit && form.limit <= MAX_PREVIEW_LIMIT) {
            return Err("Preview limit must be between 1 and 50.".to_owned());
        }
        Ok(SemanticSearchRequest {
            query_text,
            source_ids: Vec::new(),
            threshold_bits: form.threshold_bits,
            limit: form.limit,
            cursor: None,
            expected_model: None,
            alert_rule: None,
        })
    }
}


/// What a submitted preview form leads to: the trimmed interest, echoed back
/// into the form, and either the read-only search request or the refusal.
pub fn preview_submission(form: PreviewForm) -> (out: (String, Result<SemanticSearchRequest, String>))
    ensures
        out.0@ == trimmed(form.query_text@),
        out.1 is Ok <==> preview_accepted(form),
        out.1 matches Ok(request) ==> request.query_text@ == out.0@ && request.alert_rule is None,
        !query_length_ok(trimmed(form.query_text@)) ==> refused_with(out.1, query_length_message()),
        query_length_ok(trimmed(form.query_text@)) && !unit_bits(form.threshold_bits)
            ==> refused_with(out.1, threshold_message()),
        query_length_ok(trimmed(form.query_text@)) && unit_bits(form.threshold_bits) && !limit_ok(
            form.limit,
        ) ==> refused_with(out.1, limit_message()),
{
    let query_text = trim_text(form.query_text.as_str());
    let result = SemanticSearchRequest::try_from(form);
    (query_text, result)
}

} // verus!
