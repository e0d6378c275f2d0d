//! The signed-in dashboard: how the answers of the Embedded Alerts API are
//! gathered into one page, and what the dashboard's own health report says.
use vstd::prelude::*;
use vstd::string::StringExecFns;
use crate::ids::{hex32, short_uuid};
use crate::models::{ApiHealth, MatchCandidate, PageIndexRecord, SemanticSearchResponse, SourceDomain};
use crate::cards::{
    candidate_card, candidate_card_of, hash_showable, health_card, health_card_of, page_card,
    page_card_of, preview_panel, preview_panel_of, preview_showable, source_domain_card,
    source_domain_card_of, CandidateCard, HealthCard, PageCard, PreviewPanel, SourceDomainCard,
};
use crate::text::{can_shorten_hash, copy_texts, fits_in_memory, texts};

verus! {

/// A failed API call: a machine-readable code and a message.
pub struct ApiFailure {
    pub code: String,
    pub message: String,
}

/// The line that reports a failed call under `label`.
pub open spec fn failure_line(label: Seq<char>, failure: ApiFailure) -> Seq<char> {
    label + ": "@ + failure.code@ + " \u{b7} "@ + failure.message@
}

/// The lines that a call's result adds to the dashboard's errors: none on
/// success, one on failure.
pub open spec fn failure_lines<T>(label: Seq<char>, result: Result<T, ApiFailure>) -> Seq<Seq<char>> {
    match result {
        Ok(_) => Seq::empty(),
        Err(e) => seq![failure_line(label, e)],
    }
}

/// Keeps a call's value, or records its failure under `label`.
pub fn capture<T>(label: &str, result: Result<T, ApiFailure>, errors: &mut Vec<String>) -> (out:
    Option<T>)
    ensures
        texts(final(errors)@) == texts(old(errors)@) + failure_lines(label@, result),
        match result {
            Ok(v) => out == Some(v),
            Err(_) => out is None,
        },
{
    match result {
        Ok(value) => {
            assert(texts(errors@) =~= texts(errors@) + failure_lines(label@, result));
            Some(value)
        },
        Err(error) => {
            let ghost before = errors@;
            let mut line = label.to_owned();
            line.append(": ");
            line.append(error.code.as_str());
            line.append(" \u{b7} ");
            line.append(error.message.as_str());
            errors.push(line);
            assert(texts(errors@) =~= texts(before) + failure_lines(label@, result));
            None
        },
    }
}

/// Everything one dashboard page shows.
pub struct DashboardData {
    pub health: Option<ApiHealth>,
    pub sources: Vec<SourceDomain>,
    pub pages: Vec<PageIndexRecord>,
    pub matches: Vec<MatchCandidate>,
    pub preview: Option<SemanticSearchResponse>,
    pub query_text: String,
    pub errors: Vec<String>,
    pub environment: String,
    pub tenant_label: String,
}

/// A call's value, if it succeeded.
pub open spec fn ok_value<T>(result: Result<T, ApiFailure>) -> Option<T> {
    match result {
        Ok(v) => Some(v),
        Err(_) => None,
    }
}

/// A list call's items, or none if it failed.
pub open spec fn ok_items<T>(result: Result<Vec<T>, ApiFailure>) -> Seq<T> {
    match result {
        Ok(v) => v@,
        Err(_) => Seq::empty(),
    }
}

/// The error lines of one dashboard page, in the order they are shown: the
/// form's own refusal first, then one line per failed call, in the order
/// health, sources, pages, matches, preview.
pub open spec fn dashboard_errors(
    local_error: Option<String>,
    health: Result<ApiHealth, ApiFailure>,
    sources: Result<Vec<SourceDomain>, ApiFailure>,
    pages: Result<Vec<PageIndexRecord>, ApiFailure>,
    matches: Result<Vec<MatchCandidate>, ApiFailure>,
    preview: Option<Result<SemanticSearchResponse, ApiFailure>>,
) -> Seq<Seq<char>> {
    let local = match local_error {
        Some(e) => seq![e@],
        None => Seq::empty(),
    };
    let preview_lines = match preview {
        Some(r) => failure_lines("preview"@, r),
        None => Seq::empty(),
    };
    local + failure_lines("health"@, health) + failure_lines("sources"@, sources) + failure_lines(
        "pages"@,
        pages,
    ) + failure_lines("matches"@, matches) + preview_lines
}

/// Gathers the answers of the API calls behind one dashboard page. A failed
/// call leaves its part empty and adds one error line; `preview` is `None`
/// when no search was asked for.
pub fn assemble_dashboard(
    environment: String,
    tenant_id: u128,
    query_text: String,
    local_error: Option<String>,
    health: Result<ApiHealth, ApiFailure>,
    sources: Result<Vec<SourceDomain>, ApiFailure>,
    pages: Result<Vec<PageIndexRecord>, ApiFailure>,
    matches: Result<Vec<MatchCandidate>, ApiFailure>,
    preview: Option<Result<SemanticSearchResponse, ApiFailure>>,
) -> (out: DashboardData)
    ensures
        out.health == ok_value(health),
        out.sources@ == ok_items(sources),
        out.pages@ == ok_items(pages),
        out.matches@ == ok_items(matches),
        out.preview == (match preview {
            Some(r) => ok_value(r),
            None => None,
        }),
        texts(out.errors@) == dashboard_errors(local_error, health, sources, pages, matches, preview),
        out.query_text == query_text,
        out.environment == environment,
        out.tenant_label@ == hex32(tenant_id as nat).subrange(0, 8),
{
    let ghost local_error_in = local_error;
    let mut errors: Vec<String> = Vec::new();
    match local_error {
        Some(error) => errors.push(error),
        None => {},
    }
    let ghost local = texts(errors@);
    assert(local =~= match local_error_in {
        Some(e) => seq![e@],
        None => Seq::<Seq<char>>::empty(),
    });
    let health_value = capture("health", health, &mut errors);
    let sources_value = capture("sources", sources, &mut errors);
    let pages_value = capture("pages", pages, &mut errors);
    let matches_value = capture("matches", matches, &mut errors);
    let ghost before_preview = texts(errors@);
    let preview_value = match preview {
        Some(result) => capture("preview", result, &mut errors),
        None => None,
    };
    assert(texts(errors@) =~= before_preview + match preview {
        Some(r) => failure_lines("preview"@, r),
        None => Seq::empty(),
    });
    let sources_list = match sources_value {
        Some(v) => v,
        None => Vec::new(),
    };
    let pages_list = match pages_value {
        Some(v) => v,
        None => Vec::new(),
    };
    let matches_list = match matches_value {
        Some(v) => v,
        None => Vec::new(),
    };
    DashboardData {
        health: health_value,
        sources: sources_list,
        pages: pages_list,
        matches: matches_list,
        preview: preview_value,
        query_text,
        errors,
        environment,
        tenant_label: short_uuid(tenant_id),
    }
}

/// What the dashboard reports about itself on `/healthz`.
pub struct DashboardHealth {
    pub service: &'static str,
    pub status: &'static str,
    pub environment: &'static str,
    pub production_ready: bool,
    pub tenant_context: &'static str,
    pub api_reachable: bool,
    pub api_production_ready: Option<bool>,
}

/// The dashboard's health report. It is never production ready: the status
/// is `degraded` when the API answered its health call and `unavailable`
/// otherwise.
pub fn dashboard_health(environment: &'static str, api_health: Option<ApiHealth>) -> (out:
    DashboardHealth)
    ensures
        out.service@ == "eal-leptos-web"@,
        out.status@ == (if api_health is Some {
            "degraded"@
        } else {
            "unavailable"@
        }),
        out.environment == environment,
        !out.production_ready,
        out.tenant_context@ == "development_header"@,
        out.api_reachable == api_health is Some,
        out.api_production_ready == (match api_health {
            Some(h) => Some(h.production_ready),
            None => None,
        }),
{
    let api_reachable = api_health.is_some();
    let api_production_ready = match api_health {
        Some(h) => Some(h.production_ready),
        None => None,
    };
    DashboardHealth {
        service: "eal-leptos-web",
        status: if api_reachable {
            "degraded"
        } else {
            "unavailable"
        },
        environment,
        production_ready: false,
        tenant_context: "development_header",
        api_reachable,
        api_production_ready,
    }
}


/// The most page revisions the dashboard lists.
pub const SHOWN_REVISIONS: usize = 12;

/// The most match candidates the dashboard lists.
pub const SHOWN_CANDIDATES: usize = 20;

/// Everything the dashboard page shows, as text.
pub struct DashboardView {
    pub environment: String,
    pub tenant_label: String,
    pub source_count: usize,
    pub revision_count: usize,
    pub candidate_count: usize,
    pub health: Option<HealthCard>,
    pub errors: Vec<String>,
    pub query_text: String,
    pub preview: Option<PreviewPanel>,
    pub sources_empty: bool,
    pub sources: Vec<SourceDomainCard>,
    pub pages_empty: bool,
    pub pages: Vec<PageCard>,
    pub matches_empty: bool,
    pub candidates: Vec<CandidateCard>,
}

/// The smaller of `n` and `limit`.
pub open spec fn at_most(n: nat, limit: usize) -> nat {
    if n < limit {
        n
    } else {
        limit as nat
    }
}

/// Whether every hash that the page shows can be shortened: those of the
/// listed revisions and those of the preview results.
pub open spec fn dashboard_showable(data: DashboardData) -> bool {
    &&& forall|i: int|
        0 <= i < at_most(data.pages@.len(), SHOWN_REVISIONS) ==> #[trigger] hash_showable(
            data.pages@[i].content_hash,
        )
    &&& data.preview matches Some(p) ==> preview_showable(p)
}

/// Whether every hash that the page shows fits in memory.
pub open spec fn dashboard_hashes_fit(data: DashboardData) -> bool {
    &&& forall|i: int|
        0 <= i < at_most(data.pages@.len(), SHOWN_REVISIONS) ==> #[trigger] fits_in_memory(
            data.pages@[i].content_hash@,
        )
    &&& data.preview matches Some(p) ==> forall|i: int|
        0 <= i < p.results@.len() ==> #[trigger] fits_in_memory(p.results@[i].content_hash@)
}

/// Whether the dashboard can show `data`: every hash it shortens must be cut
/// on character boundaries.
pub fn dashboard_can_render(data: &DashboardData) -> (b: bool)
    ensures
        dashboard_hashes_fit(*data) ==> (b == dashboard_showable(*data)),
{
    let n = if data.pages.len() < SHOWN_REVISIONS {
        data.pages.len()
    } else {
        SHOWN_REVISIONS
    };
    let mut i: usize = 0;
    while i < n
        invariant
            i <= n == at_most(data.pages@.len(), SHOWN_REVISIONS),
            dashboard_hashes_fit(*data) ==> forall|k: int|
                0 <= k < i ==> #[trigger] hash_showable(data.pages@[k].content_hash),
        decreases n - i,
    {
        if !can_shorten_hash(data.pages[i].content_hash.as_str()) {
            assert(dashboard_hashes_fit(*data) ==> fits_in_memory(
                data.pages@[i as int].content_hash@,
            ));
            assert(dashboard_hashes_fit(*data) ==> !hash_showable(data.pages@[i as int].content_hash));
            return false;
        }
        assert(dashboard_hashes_fit(*data) ==> fits_in_memory(
            data.pages@[i as int].content_hash@,
        ));
        i = i + 1;
    }
    match &data.preview {
        Some(p) => {
            let m = p.results.len();
            let mut j: usize = 0;
            while j < m
                invariant
                    j <= m == p.results@.len(),
                    data.preview == Some(*p),
                    dashboard_hashes_fit(*data) ==> forall|k: int|
                        0 <= k < j ==> #[trigger] hash_showable(p.results@[k].content_hash),
                decreases m - j,
            {
                if !can_shorten_hash(p.results[j].content_hash.as_str()) {
                    assert(dashboard_hashes_fit(*data) ==> fits_in_memory(
                        p.results@[j as int].content_hash@,
                    ));
                    assert(dashboard_hashes_fit(*data) ==> !hash_showable(
                        p.results@[j as int].content_hash,
                    ));
                    return false;
                }
                assert(dashboard_hashes_fit(*data) ==> fits_in_memory(
                    p.results@[j as int].content_hash@,
                ));
                j = j + 1;
            }
            true
        },
        None => true,
    }
}

/// Whether the view shows `data`: the counts, the health card, the errors,
/// the preview panel, every source, and the first revisions and candidates.
pub open spec fn dashboard_view_of(v: DashboardView, data: DashboardData) -> bool {
    &&& v.environment@ == data.environment@
    &&& v.tenant_label@ == data.tenant_label@
    &&& v.source_count == data.sources@.len()
    &&& v.revision_count == data.pages@.len()
    &&& v.candidate_count == data.matches@.len()
    &&& (match data.health {
        Some(h) => v.health matches Some(card) && health_card_of(card, h),
        None => v.health is None,
    })
    &&& texts(v.errors@) == texts(data.errors@)
    &&& v.query_text@ == data.query_text@
    &&& (match data.preview {
        Some(p) => v.preview matches Some(panel) && preview_panel_of(panel, p),
        None => v.preview is None,
    })
    &&& v.sources_empty == (data.sources@.len() == 0)
    &&& v.sources@.len() == data.sources@.len()
    &&& forall|i: int|
        0 <= i < data.sources@.len() ==> #[trigger] source_domain_card_of(
            v.sources@[i],
            data.sources@[i],
        )
    &&& v.pages_empty == (data.pages@.len() == 0)
    &&& v.pages@.len() == at_most(data.pages@.len(), SHOWN_REVISIONS)
    &&& forall|i: int|
        0 <= i < v.pages@.len() ==> #[trigger] page_card_of(v.pages@[i], data.pages@[i])
    &&& v.matches_empty == (data.matches@.len() == 0)
    &&& v.candidates@.len() == at_most(data.matches@.len(), SHOWN_CANDIDATES)
    &&& forall|i: int|
        0 <= i < v.candidates@.len() ==> #[trigger] candidate_card_of(
            v.candidates@[i],
            data.matches@[i],
        )
}

/// Everything the dashboard page shows, as text.
pub fn dashboard_view(data: &DashboardData) -> (v: DashboardView)
    requires
        dashboard_showable(*data),
    ensures
        dashboard_view_of(v, *data),
{
    let health = match &data.health {
        Some(h) => Some(health_card(h)),
        None => None,
    };
    let preview = match &data.preview {
        Some(p) => Some(preview_panel(p)),
        None => None,
    };
    let n_sources = data.sources.len();
    let mut sources: Vec<SourceDomainCard> = Vec::new();
    let mut i: usize = 0;
    while i < n_sources
        invariant
            i <= n_sources == data.sources@.len(),
            sources@.len() == i,
            forall|k: int|
                0 <= k < i ==> #[trigger] source_domain_card_of(sources@[k], data.sources@[k]),
        decreases n_sources - i,
    {
        sources.push(source_domain_card(&data.sources[i]));
        i = i + 1;
    }
    let n_pages = if data.pages.len() < SHOWN_REVISIONS {
        data.pages.len()
    } else {
        SHOWN_REVISIONS
    };
    let mut pages: Vec<PageCard> = Vec::new();
    let mut j: usize = 0;
    while j < n_pages
        invariant
            j <= n_pages == at_most(data.pages@.len(), SHOWN_REVISIONS),
            dashboard_showable(*data),
            pages@.len() == j,
            forall|k: int| 0 <= k < j ==> #[trigger] page_card_of(pages@[k], data.pages@[k]),
        decreases n_pages - j,
    {
        assert(hash_showable(data.pages@[j as int].content_hash));
        pages.push(page_card(&data.pages[j]));
        j = j + 1;
    }
    let n_candidates = if data.matches.len() < SHOWN_CANDIDATES {
        data.matches.len()
    } else {
        SHOWN_CANDIDATES
    };
    let mut candidates: Vec<CandidateCard> = Vec::new();
    let mut k: usize = 0;
    while k < n_candidates
        invariant
            k <= n_candidates == at_most(data.matches@.len(), SHOWN_CANDIDATES),
            candidates@.len() == k,
            forall|t: int|
                0 <= t < k ==> #[trigger] candidate_card_of(candidates@[t], data.matches@[t]),
        decreases n_candidates - k,
    {
        candidates.push(candidate_card(&data.matches[k]));
        k = k + 1;
    }
    let errors = copy_texts(&data.errors);
    DashboardView {
        environment: data.environment.clone(),
        tenant_label: data.tenant_label.clone(),
        source_count: data.sources.len(),
        revision_count: data.pages.len(),
        candidate_count: data.matches.len(),
        health,
        errors,
        query_text: data.query_text.clone(),
        preview,
        sources_empty: data.sources.len() == 0,
        sources,
        pages_empty: data.pages.len() == 0,
        pages,
        matches_empty: data.matches.len() == 0,
        candidates,
    }
}


/// 1 for a failed call, 0 for a successful one.
pub open spec fn failed<T>(result: Result<T, ApiFailure>) -> nat {
    if result is Err {
        1
    } else {
        0
    }
}

/// Every failed call is reported exactly once and nothing else is: the
/// dashboard shows as many error lines as there were failed calls, plus one
/// for the form's own refusal.
pub proof fn one_error_line_per_failure(
    local_error: Option<String>,
    health: Result<ApiHealth, ApiFailure>,
    sources: Result<Vec<SourceDomain>, ApiFailure>,
    pages: Result<Vec<PageIndexRecord>, ApiFailure>,
    matches: Result<Vec<MatchCandidate>, ApiFailure>,
    preview: Option<Result<SemanticSearchResponse, ApiFailure>>,
)
    ensures
        dashboard_errors(local_error, health, sources, pages, matches, preview).len() == (if local_error is Some {
            1nat
        } else {
            0nat
        }) + failed(health) + failed(sources) + failed(pages) + failed(matches) + (match preview {
            Some(r) => failed(r),
            None => 0nat,
        }),
{
}

} // verus!
