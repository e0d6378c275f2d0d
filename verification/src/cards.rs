//! The text of the dashboard's cards: service health, source boundaries,
//! page revisions, match candidates, and the results of an interest preview.
use vstd::prelude::*;
use vstd::string::StringExecFns;
use crate::ids::{hex32, hyphenated, short_uuid, utc_minute_text, uuid_string};
use crate::models::{
    discovery_label, ApiHealth, MatchCandidate, MatchEvidence, PageIndexRecord, ScoreComponents,
    SearchResult, SemanticSearchResponse, SourceDomain,
};
use crate::text::{
    bool_text, bool_word, decimal, first_n, decimal_text, fits_in_memory, join_first,
    join_texts, joined, short_hash, shortenable, shortened_hash, texts, yes_no,
};

verus! {

/// The separator between the parts of a card line.
pub open spec fn dot() -> Seq<char> {
    " \u{b7} "@
}

/// The first eight hex digits of a UUID.
pub open spec fn short_id(v: u128) -> Seq<char> {
    hex32(v as nat).subrange(0, 8)
}

/// `a` followed by `b`, as a new string.
fn concat(a: &str, b: &str) -> (out: String)
    ensures
        out@ == a@ + b@,
{
    let mut out = a.to_owned();
    out.append(b);
    out
}

// ---------------------------------------------------------------------------
// Service health
// ---------------------------------------------------------------------------

/// The text of the API health card.
pub struct HealthCard {
    pub status: String,
    pub service: String,
    pub detail: String,
    pub embedding: String,
}

/// The detail line of the health card.
pub open spec fn health_detail(h: ApiHealth) -> Seq<char> {
    h.environment@ + dot() + h.storage_mode@ + dot() + h.semantic_index_mode@ + " \u{b7} db:"@
        + bool_word(h.database_connected) + " \u{b7} supabase:"@ + bool_word(h.supabase_configured)
        + " \u{b7} production:"@ + bool_word(h.production_ready)
}

/// Whether the card says what the dashboard shows for `h`.
pub open spec fn health_card_of(card: HealthCard, h: ApiHealth) -> bool {
    &&& card.status@ == h.status@
    &&& card.service@ == h.service@
    &&& card.detail@ == health_detail(h)
    &&& card.embedding@ == h.embedding_mode@ + " / "@ + h.embedding_model@
}

/// The text of the API health card.
pub fn health_card(h: &ApiHealth) -> (card: HealthCard)
    ensures
        health_card_of(card, *h),
{
    let mut detail = h.environment.clone();
    detail.append(" \u{b7} ");
    detail.append(h.storage_mode.as_str());
    detail.append(" \u{b7} ");
    detail.append(h.semantic_index_mode.as_str());
    detail.append(" \u{b7} db:");
    detail.append(bool_text(h.database_connected));
    detail.append(" \u{b7} supabase:");
    detail.append(bool_text(h.supabase_configured));
    detail.append(" \u{b7} production:");
    detail.append(bool_text(h.production_ready));
    let mut embedding = h.embedding_mode.clone();
    embedding.append(" / ");
    embedding.append(h.embedding_model.as_str());
    HealthCard {
        status: h.status.clone(),
        service: h.service.clone(),
        detail,
        embedding,
    }
}

// ---------------------------------------------------------------------------
// Source boundaries
// ---------------------------------------------------------------------------

/// The text of a source-boundary card. The priority is an `f32` bit pattern.
pub struct SourceDomainCard {
    pub class: &'static str,
    pub name: String,
    pub base_url: String,
    pub host: String,
    pub priority_bits: u32,
    pub modes: String,
    pub source_short: String,
    pub tenant_short: String,
    pub budget: String,
    pub subdomains: &'static str,
    pub robots: &'static str,
    pub enabled: &'static str,
    pub seeds: String,
}

/// The labels of a source's discovery modes, in order.
pub open spec fn mode_labels(source: SourceDomain) -> Seq<Seq<char>> {
    Seq::new(
        source.discovery_modes@.len(),
        |i: int| discovery_label(source.discovery_modes@[i]),
    )
}

/// The yes/no word.
pub open spec fn yes_no_word(b: bool) -> Seq<char> {
    if b {
        "yes"@
    } else {
        "no"@
    }
}

/// Whether the card says what the dashboard shows for `source`.
pub open spec fn source_domain_card_of(card: SourceDomainCard, source: SourceDomain) -> bool {
    &&& card.class@ == (if source.enabled {
        "source-card"@
    } else {
        "source-card source-card--disabled"@
    })
    &&& card.name@ == source.name@
    &&& card.base_url@ == source.base_url@
    &&& card.host@ == source.host@
    &&& card.priority_bits == source.source_priority_bits
    &&& card.modes@ == joined(mode_labels(source), dot())
    &&& card.source_short@ == short_id(source.id)
    &&& card.tenant_short@ == short_id(source.tenant_id)
    &&& card.budget@ == decimal(source.max_pages_per_scan as nat) + " pages"@
    &&& card.subdomains@ == yes_no_word(source.include_subdomains)
    &&& card.robots@ == (if source.respect_robots {
        "required"@
    } else {
        "unsafe"@
    })
    &&& card.enabled@ == yes_no_word(source.enabled)
    &&& card.seeds@ == "Seeds: "@ + (if source.seed_urls@.len() == 0 {
        "API default"@
    } else {
        joined(texts(source.seed_urls@), dot())
    })
}

/// The text of a source-boundary card.
pub fn source_domain_card(source: &SourceDomain) -> (card: SourceDomainCard)
    ensures
        source_domain_card_of(card, *source),
{
    let mut labels: Vec<String> = Vec::new();
    let n = source.discovery_modes.len();
    let mut i: usize = 0;
    while i < n
        invariant
            i <= n == source.discovery_modes@.len(),
            texts(labels@) =~= mode_labels(*source).take(i as int),
        decreases n - i,
    {
        let ghost before = labels@;
        labels.push(source.discovery_modes[i].label().to_owned());
        assert(texts(labels@) =~= texts(before).push(
            discovery_label(source.discovery_modes@[i as int]),
        ));
        i = i + 1;
    }
    assert(mode_labels(*source).take(n as int) =~= mode_labels(*source));
    let modes = join_texts(&labels, " \u{b7} ");
    let seeds = if source.seed_urls.len() == 0 {
        "Seeds: API default".to_owned()
    } else {
        let joined_seeds = join_texts(&source.seed_urls, " \u{b7} ");
        concat("Seeds: ", joined_seeds.as_str())
    };
    proof {
        reveal_strlit("Seeds: API default");
        reveal_strlit("Seeds: ");
        reveal_strlit("API default");
        assert("Seeds: API default"@ =~= "Seeds: "@ + "API default"@);
    }
    let count = decimal_text(source.max_pages_per_scan as u64);
    SourceDomainCard {
        class: if source.enabled {
            "source-card"
        } else {
            "source-card source-card--disabled"
        },
        name: source.name.clone(),
        base_url: source.base_url.clone(),
        host: source.host.clone(),
        priority_bits: source.source_priority_bits,
        modes,
        source_short: short_uuid(source.id),
        tenant_short: short_uuid(source.tenant_id),
        budget: concat(count.as_str(), " pages"),
        subdomains: yes_no(source.include_subdomains),
        robots: if source.respect_robots {
            "required"
        } else {
            "unsafe"
        },
        enabled: yes_no(source.enabled),
        seeds,
    }
}


// ---------------------------------------------------------------------------
// Page revisions
// ---------------------------------------------------------------------------

/// The most keywords a revision card lists.
pub const CARD_KEYWORDS: usize = 8;

/// The most entities a revision card lists.
pub const CARD_ENTITIES: usize = 6;

/// The text of a page-revision card.
pub struct PageCard {
    pub kicker: String,
    pub canonical_url: String,
    pub title: String,
    pub segments: String,
    pub summary: String,
    pub keywords: String,
    pub entities: String,
    pub fetched: String,
    pub hash: String,
    pub predecessor: String,
    pub extractor: String,
    pub model: String,
}

/// A page title, or the placeholder for an untitled page.
pub open spec fn title_or_untitled(title: Option<String>) -> Seq<char> {
    match title {
        Some(t) => t@,
        None => "Untitled page"@,
    }
}

/// Whether a hash can be shown shortened.
pub open spec fn hash_showable(hash: String) -> bool {
    fits_in_memory(hash@) && shortenable(hash@)
}

/// Whether the card says what the dashboard shows for `page`.
pub open spec fn page_card_of(card: PageCard, page: PageIndexRecord) -> bool {
    &&& card.kicker@ == short_id(page.id) + " \u{b7} source "@ + short_id(page.source_id)
    &&& card.canonical_url@ == page.canonical_url@
    &&& card.title@ == title_or_untitled(page.title)
    &&& card.segments@ == decimal(page.segment_count as nat) + " segments"@
    &&& card.summary@ == page.summary@
    &&& card.keywords@ == joined(first_n(texts(page.keywords@), CARD_KEYWORDS as int), dot())
    &&& card.entities@ == joined(first_n(texts(page.entities@), CARD_ENTITIES as int), dot())
    &&& card.fetched@ == utc_minute_text(page.fetched_at.seconds())
    &&& card.hash@ == shortened_hash(page.content_hash@)
    &&& card.predecessor@ == (match page.previous_revision_id {
        Some(id) => short_id(id),
        None => "first revision"@,
    })
    &&& card.extractor@ == page.extractor_version@
    &&& card.model@ == page.model@
}

fn title_text(title: &Option<String>) -> (out: String)
    ensures
        out@ == title_or_untitled(*title),
{
    match title {
        Some(t) => t.clone(),
        None => "Untitled page".to_owned(),
    }
}

/// The text of a page-revision card.
pub fn page_card(page: &PageIndexRecord) -> (card: PageCard)
    requires
        hash_showable(page.content_hash),
    ensures
        page_card_of(card, *page),
{
    let id = short_uuid(page.id);
    let source = short_uuid(page.source_id);
    let mut kicker = id;
    kicker.append(" \u{b7} source ");
    kicker.append(source.as_str());
    let count = decimal_text(page.segment_count as u64);
    let predecessor = match page.previous_revision_id {
        Some(prev) => short_uuid(prev),
        None => "first revision".to_owned(),
    };
    let keywords = join_first(&page.keywords, CARD_KEYWORDS, " \u{b7} ");
    let entities = join_first(&page.entities, CARD_ENTITIES, " \u{b7} ");
    PageCard {
        kicker,
        canonical_url: page.canonical_url.clone(),
        title: title_text(&page.title),
        segments: concat(count.as_str(), " segments"),
        summary: page.summary.clone(),
        keywords,
        entities,
        fetched: page.fetched_at.label(),
        hash: short_hash(page.content_hash.as_str()),
        predecessor,
        extractor: page.extractor_version.clone(),
        model: page.model.clone(),
    }
}

// ---------------------------------------------------------------------------
// Scores and evidence
// ---------------------------------------------------------------------------

/// One cell of a score breakdown; the value is an `f32` bit pattern.
pub struct ScoreCell {
    pub label: &'static str,
    pub value_bits: u32,
}

/// A score breakdown: the weights (as compact JSON) and one cell per component.
pub struct ScoreBreakdown {
    pub weights: String,
    pub cells: Vec<ScoreCell>,
}

/// Whether the breakdown shows `score`'s components in the dashboard's order.
pub open spec fn score_breakdown_of(b: ScoreBreakdown, score: ScoreComponents) -> bool {
    &&& b.weights@ == score.weights@
    &&& b.cells@.len() == 5
    &&& b.cells@[0].label@ == "semantic"@ && b.cells@[0].value_bits == score.semantic_bits
    &&& b.cells@[1].label@ == "lexical"@ && b.cells@[1].value_bits == score.lexical_bits
    &&& b.cells@[2].label@ == "entity"@ && b.cells@[2].value_bits == score.entity_bits
    &&& b.cells@[3].label@ == "recency"@ && b.cells@[3].value_bits == score.recency_bits
    &&& b.cells@[4].label@ == "source"@ && b.cells@[4].value_bits == score.source_priority_bits
}

/// The score breakdown of a match.
pub fn score_breakdown(score: &ScoreComponents) -> (b: ScoreBreakdown)
    ensures
        score_breakdown_of(b, *score),
{
    let mut cells: Vec<ScoreCell> = Vec::new();
    cells.push(ScoreCell { label: "semantic", value_bits: score.semantic_bits });
    cells.push(ScoreCell { label: "lexical", value_bits: score.lexical_bits });
    cells.push(ScoreCell { label: "entity", value_bits: score.entity_bits });
    cells.push(ScoreCell { label: "recency", value_bits: score.recency_bits });
    cells.push(ScoreCell { label: "source", value_bits: score.source_priority_bits });
    ScoreBreakdown { weights: score.weights.clone(), cells }
}

/// One evidence segment; the similarities are `f32` bit patterns.
pub struct EvidenceItem {
    pub kinds: String,
    pub weighted_bits: u32,
    pub raw_bits: u32,
    pub page_text: String,
}

/// The evidence list of a match.
pub struct EvidenceList {
    pub summary: String,
    pub items: Vec<EvidenceItem>,
}

/// Whether the item shows `e`.
pub open spec fn evidence_item_of(item: EvidenceItem, e: MatchEvidence) -> bool {
    &&& item.kinds@ == e.page_segment_kind@ + " \u{2194} "@ + e.query_segment_kind@
    &&& item.weighted_bits == e.weighted_similarity_bits
    &&& item.raw_bits == e.similarity_bits
    &&& item.page_text@ == e.page_text@
}

/// Whether the list shows every segment of `evidence`, in order.
pub open spec fn evidence_list_of(list: EvidenceList, evidence: Seq<MatchEvidence>) -> bool {
    &&& list.summary@ == decimal(evidence.len()) + " evidence segment(s)"@
    &&& list.items@.len() == evidence.len()
    &&& forall|i: int|
        0 <= i < evidence.len() ==> #[trigger] evidence_item_of(list.items@[i], evidence[i])
}

/// The evidence list of a match.
pub fn evidence_list(evidence: &Vec<MatchEvidence>) -> (list: EvidenceList)
    ensures
        evidence_list_of(list, evidence@),
{
    let n = evidence.len();
    let mut items: Vec<EvidenceItem> = Vec::new();
    let mut i: usize = 0;
    while i < n
        invariant
            i <= n == evidence@.len(),
            items@.len() == i,
            forall|k: int| 0 <= k < i ==> #[trigger] evidence_item_of(items@[k], evidence@[k]),
        decreases n - i,
    {
        let e = &evidence[i];
        let mut kinds = e.page_segment_kind.clone();
        kinds.append(" \u{2194} ");
        kinds.append(e.query_segment_kind.as_str());
        items.push(
            EvidenceItem {
                kinds,
                weighted_bits: e.weighted_similarity_bits,
                raw_bits: e.similarity_bits,
                page_text: e.page_text.clone(),
            },
        );
        i = i + 1;
    }
    let count = decimal_text(n as u64);
    EvidenceList { summary: concat(count.as_str(), " evidence segment(s)"), items }
}

// ---------------------------------------------------------------------------
// Match candidates
// ---------------------------------------------------------------------------

/// The text of a candidate card. The score is an `f32` bit pattern.
pub struct CandidateCard {
    pub score_bits: u32,
    pub state: String,
    pub kicker: String,
    pub canonical_url: String,
    pub scores: ScoreBreakdown,
    pub evidence: EvidenceList,
    pub tenant: String,
    pub page_revision: String,
    pub source: String,
    pub match_key: String,
    pub content_hash: String,
    pub query_hash: String,
    pub model: String,
    pub created: String,
}

/// Whether the card says what the dashboard shows for `m`.
pub open spec fn candidate_card_of(card: CandidateCard, m: MatchCandidate) -> bool {
    &&& card.score_bits == m.score_bits
    &&& card.state@ == m.state@
    &&& card.kicker@ == "candidate "@ + short_id(m.id) + " \u{b7} rule "@ + short_id(
        m.alert_rule_id,
    ) + "@"@ + decimal(m.alert_rule_revision as nat)
    &&& card.canonical_url@ == m.canonical_url@
    &&& score_breakdown_of(card.scores, m.components)
    &&& evidence_list_of(card.evidence, m.evidence@)
    &&& card.tenant@ == hyphenated(m.tenant_id as nat)
    &&& card.page_revision@ == hyphenated(m.page_revision_id as nat)
    &&& card.source@ == hyphenated(m.source_id as nat)
    &&& card.match_key@ == m.match_key@
    &&& card.content_hash@ == m.content_hash@
    &&& card.query_hash@ == m.query_hash@
    &&& card.model@ == m.model@
    &&& card.created@ == utc_minute_text(m.created_at.seconds())
}

/// The text of a candidate card.
pub fn candidate_card(m: &MatchCandidate) -> (card: CandidateCard)
    ensures
        candidate_card_of(card, *m),
{
    let mut kicker = "candidate ".to_owned();
    let id = short_uuid(m.id);
    kicker.append(id.as_str());
    kicker.append(" \u{b7} rule ");
    let rule = short_uuid(m.alert_rule_id);
    kicker.append(rule.as_str());
    kicker.append("@");
    let revision = decimal_text(m.alert_rule_revision as u64);
    kicker.append(revision.as_str());
    CandidateCard {
        score_bits: m.score_bits,
        state: m.state.clone(),
        kicker,
        canonical_url: m.canonical_url.clone(),
        scores: score_breakdown(&m.components),
        evidence: evidence_list(&m.evidence),
        tenant: uuid_string(m.tenant_id),
        page_revision: uuid_string(m.page_revision_id),
        source: uuid_string(m.source_id),
        match_key: m.match_key.clone(),
        content_hash: m.content_hash.clone(),
        query_hash: m.query_hash.clone(),
        model: m.model.clone(),
        created: m.created_at.label(),
    }
}

// ---------------------------------------------------------------------------
// Interest preview
// ---------------------------------------------------------------------------

/// The text of one preview result. The score is an `f32` bit pattern.
pub struct SearchResultCard {
    pub score_bits: u32,
    pub kicker: String,
    pub canonical_url: String,
    pub title: String,
    pub summary: String,
    pub scores: ScoreBreakdown,
    pub evidence: EvidenceList,
    pub footer: String,
}

/// Whether the card says what the dashboard shows for `r`.
pub open spec fn search_result_card_of(card: SearchResultCard, r: SearchResult) -> bool {
    &&& card.score_bits == r.score_bits
    &&& card.kicker@ == "page "@ + short_id(r.page_revision_id) + " \u{b7} source "@ + short_id(
        r.source_id,
    )
    &&& card.canonical_url@ == r.canonical_url@
    &&& card.title@ == title_or_untitled(r.title)
    &&& card.summary@ == r.summary@
    &&& score_breakdown_of(card.scores, r.components)
    &&& evidence_list_of(card.evidence, r.evidence@)
    &&& card.footer@ == "Fetched "@ + utc_minute_text(r.fetched_at.seconds()) + " \u{b7} hash "@
        + shortened_hash(r.content_hash@) + " \u{b7} model "@ + r.model@
}

/// The text of one preview result.
pub fn search_result_card(r: &SearchResult) -> (card: SearchResultCard)
    requires
        hash_showable(r.content_hash),
    ensures
        search_result_card_of(card, *r),
{
    let mut kicker = "page ".to_owned();
    let page = short_uuid(r.page_revision_id);
    kicker.append(page.as_str());
    kicker.append(" \u{b7} source ");
    let source = short_uuid(r.source_id);
    kicker.append(source.as_str());
    let mut footer = "Fetched ".to_owned();
    let fetched = r.fetched_at.label();
    footer.append(fetched.as_str());
    footer.append(" \u{b7} hash ");
    let hash = short_hash(r.content_hash.as_str());
    footer.append(hash.as_str());
    footer.append(" \u{b7} model ");
    footer.append(r.model.as_str());
    SearchResultCard {
        score_bits: r.score_bits,
        kicker,
        canonical_url: r.canonical_url.clone(),
        title: title_text(&r.title),
        summary: r.summary.clone(),
        scores: score_breakdown(&r.components),
        evidence: evidence_list(&r.evidence),
        footer,
    }
}

/// The results panel of an interest preview.
pub struct PreviewPanel {
    pub count_label: String,
    pub interest: String,
    pub summary: String,
    pub show_empty: bool,
    pub results: Vec<SearchResultCard>,
}

/// The summary line of a preview.
pub open spec fn preview_summary(p: SemanticSearchResponse) -> Seq<char> {
    decimal(p.compared_pages as nat) + " pages compared \u{b7} "@ + decimal(
        p.skipped_cross_model_pages as nat,
    ) + " cross-model skipped \u{b7} "@ + decimal(p.candidate_matches_created as nat)
        + " candidates created \u{b7} model "@ + p.model@ + match p.next_cursor {
        Some(c) => " \u{b7} next "@ + c@,
        None => Seq::empty(),
    }
}

/// Whether every result of the preview has a hash that can be shown.
pub open spec fn preview_showable(p: SemanticSearchResponse) -> bool {
    forall|i: int| 0 <= i < p.results@.len() ==> #[trigger] hash_showable(p.results@[i].content_hash)
}

/// Whether the panel says what the dashboard shows for `p`.
pub open spec fn preview_panel_of(panel: PreviewPanel, p: SemanticSearchResponse) -> bool {
    &&& panel.count_label@ == decimal(p.results@.len()) + " result(s)"@
    &&& panel.interest@ == "Interest: "@ + p.query_text@
    &&& panel.summary@ == preview_summary(p)
    &&& panel.show_empty == (p.results@.len() == 0)
    &&& panel.results@.len() == p.results@.len()
    &&& forall|i: int|
        0 <= i < p.results@.len() ==> #[trigger] search_result_card_of(
            panel.results@[i],
            p.results@[i],
        )
}

/// The results panel of an interest preview.
pub fn preview_panel(p: &SemanticSearchResponse) -> (panel: PreviewPanel)
    requires
        preview_showable(*p),
    ensures
        preview_panel_of(panel, *p),
{
    let compared = decimal_text(p.compared_pages as u64);
    let mut summary = concat(compared.as_str(), " pages compared \u{b7} ");
    let skipped = decimal_text(p.skipped_cross_model_pages as u64);
    summary.append(skipped.as_str());
    summary.append(" cross-model skipped \u{b7} ");
    let created = decimal_text(p.candidate_matches_created as u64);
    summary.append(created.as_str());
    summary.append(" candidates created \u{b7} model ");
    summary.append(p.model.as_str());
    match &p.next_cursor {
        Some(cursor) => {
            let ghost before = summary@;
            summary.append(" \u{b7} next ");
            summary.append(cursor.as_str());
            assert(summary@ =~= before + (" \u{b7} next "@ + cursor@));
        },
        None => {
            assert(summary@ =~= summary@ + Seq::<char>::empty());
        },
    }
    let n = p.results.len();
    let mut results: Vec<SearchResultCard> = Vec::new();
    let mut i: usize = 0;
    while i < n
        invariant
            i <= n == p.results@.len(),
            preview_showable(*p),
            results@.len() == i,
            forall|k: int|
                0 <= k < i ==> #[trigger] search_result_card_of(results@[k], p.results@[k]),
        decreases n - i,
    {
        assert(hash_showable(p.results@[i as int].content_hash));
        results.push(search_result_card(&p.results[i]));
        i = i + 1;
    }
    let count = decimal_text(n as u64);
    PreviewPanel {
        count_label: concat(count.as_str(), " result(s)"),
        interest: concat("Interest: ", p.query_text.as_str()),
        summary,
        show_empty: n == 0,
        results,
    }
}

} // verus!
