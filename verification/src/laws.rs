//! Laws of the library, each stated in its own terms rather than through
//! the spec functions that the operations' contracts use, so that a change
//! to an operation together with its contract still contradicts them.
use vstd::prelude::*;
use crate::cards::{
    candidate_card_of, evidence_list_of, health_card_of, page_card_of, preview_panel_of,
    preview_summary, score_breakdown_of, search_result_card_of, source_domain_card_of,
    CandidateCard, EvidenceList, HealthCard, PageCard, PreviewPanel, ScoreBreakdown,
    SearchResultCard, SourceDomainCard,
};
use crate::console::{
    candidate_card_of as console_card_of, rule_card_of, source_card_of, CandidateCardText,
    CandidateView, RuleCardText, RuleView, SourceCardText, SourceView,
};
use crate::dashboard::{
    dashboard_errors, dashboard_view_of, ok_items, ok_value, ApiFailure, DashboardData, DashboardView,
};
use crate::ids::{hex32, hex_digit, hyphenated, utc_minute_text};
use vstd::arithmetic::power::pow;
use crate::models::{
    preview_accepted, ApiHealth, MatchCandidate, MatchEvidence, PageIndexRecord, PreviewForm,
    ScoreComponents, SearchResult, SemanticSearchResponse, SourceDomain,
};
use crate::scores::clamped;
use crate::text::{decimal, is_white_space, joined, shortened_hash, trim_end, trim_start, trimmed};
use vstd::utf8::{encode_utf8, encode_utf8_decode_utf8, is_ascii_chars, is_ascii_chars_encode_utf8};

verus! {

// ---------------------------------------------------------------------------
// Whitespace and trimming
// ---------------------------------------------------------------------------

/// The whitespace that trimming removes is exactly Unicode `White_Space`:
/// the controls TAB, LF, VT, FF and CR, SPACE, NEL, NO-BREAK SPACE, OGHAM
/// SPACE MARK, the spaces U+2000 to U+200A, LINE and PARAGRAPH SEPARATOR,
/// NARROW NO-BREAK SPACE, MEDIUM MATHEMATICAL SPACE and IDEOGRAPHIC SPACE.
pub proof fn white_space_is_unicode_white_space(c: char)
    ensures
        is_white_space(c) <==> {
            ||| c == '\t'
            ||| c == '\n'
            ||| c == '\u{0B}'
            ||| c == '\u{0C}'
            ||| c == '\r'
            ||| c == ' '
            ||| c == '\u{85}'
            ||| c == '\u{A0}'
            ||| c == '\u{1680}'
            ||| ('\u{2000}' <= c && c <= '\u{200A}')
            ||| c == '\u{2028}'
            ||| c == '\u{2029}'
            ||| c == '\u{202F}'
            ||| c == '\u{205F}'
            ||| c == '\u{3000}'
        },
{
}

proof fn lemma_trim_start_cut(s: Seq<char>) -> (i: int)
    ensures
        0 <= i <= s.len(),
        trim_start(s) == s.skip(i),
        forall|k: int| 0 <= k < i ==> is_white_space(#[trigger] s[k]),
        i < s.len() ==> !is_white_space(s[i]),
    decreases s.len(),
{
    if s.len() > 0 && is_white_space(s[0]) {
        let j = lemma_trim_start_cut(s.drop_first());
        assert(s.drop_first().skip(j) =~= s.skip(j + 1));
        assert forall|k: int| 0 <= k < j + 1 implies is_white_space(#[trigger] s[k]) by {
            if k > 0 {
                assert(s[k] == s.drop_first()[k - 1]);
            }
        }
        j + 1
    } else {
        assert(s.skip(0) =~= s);
        0
    }
}

proof fn lemma_trim_end_cut(s: Seq<char>) -> (m: int)
    ensures
        0 <= m <= s.len(),
        trim_end(s) == s.take(m),
        forall|k: int| m <= k < s.len() ==> is_white_space(#[trigger] s[k]),
        m > 0 ==> !is_white_space(s[m - 1]),
    decreases s.len(),
{
    if s.len() > 0 && is_white_space(s.last()) {
        let m = lemma_trim_end_cut(s.drop_last());
        assert(s.drop_last().take(m) =~= s.take(m));
        assert forall|k: int| m <= k < s.len() implies is_white_space(#[trigger] s[k]) by {
            if k < s.len() - 1 {
                assert(s[k] == s.drop_last()[k]);
            }
        }
        m
    } else {
        assert(s.take(s.len() as int) =~= s);
        s.len() as int
    }
}

/// Trimming cuts a stretch of whitespace off each end and nothing else: the
/// result is the text between two cut points, everything before the first
/// and from the second on is whitespace, and a non-empty result begins and
/// ends with a character that is not whitespace.
pub proof fn trim_removes_only_outer_white_space(s: Seq<char>) -> (cut: (int, int))
    ensures
        0 <= cut.0 <= cut.1 <= s.len(),
        trimmed(s) == s.subrange(cut.0, cut.1),
        forall|k: int| 0 <= k < cut.0 ==> is_white_space(#[trigger] s[k]),
        forall|k: int| cut.1 <= k < s.len() ==> is_white_space(#[trigger] s[k]),
        cut.0 < cut.1 ==> !is_white_space(s[cut.0]) && !is_white_space(s[cut.1 - 1]),
{
    let i = lemma_trim_start_cut(s);
    let rest = s.skip(i);
    let m = lemma_trim_end_cut(rest);
    assert(rest.take(m) =~= s.subrange(i, i + m));
    assert forall|k: int| i + m <= k < s.len() implies is_white_space(#[trigger] s[k]) by {
        assert(s[k] == rest[k - i]);
    }
    if m > 0 {
        assert(s[i + m - 1] == rest[m - 1]);
        assert(s[i] == rest[0]);
    }
    (i, i + m)
}

// ---------------------------------------------------------------------------
// Dashboard cards
// ---------------------------------------------------------------------------

/// A page-revision card describes its own page: the kicker names the page
/// and its source by the first eight hex digits of their UUIDs, and the
/// predecessor row names the previous revision the same way (or says
/// `first revision`), whatever the page's own id is.
pub proof fn page_card_names_its_predecessor(card: PageCard, page: PageIndexRecord)
    requires
        page_card_of(card, page),
    ensures
        card.kicker@ == hex32(page.id as nat).subrange(0, 8) + " \u{b7} source "@ + hex32(
            page.source_id as nat,
        ).subrange(0, 8),
        page.previous_revision_id matches Some(p) ==> card.predecessor@ == hex32(p as nat).subrange(
            0,
            8,
        ),
        page.previous_revision_id is None ==> card.predecessor@ == "first revision"@,
        card.canonical_url@ == page.canonical_url@,
        card.summary@ == page.summary@,
        card.extractor@ == page.extractor_version@,
        card.model@ == page.model@,
        card.fetched@ == utc_minute_text(page.fetched_at.seconds()),
        page.title matches Some(t) ==> card.title@ == t@,
        page.title is None ==> card.title@ == "Untitled page"@,
        card.segments@ == decimal(page.segment_count as nat) + " segments"@,
        card.keywords@ == joined(
            page.keywords@.map_values(|t: String| t@).take(
                if page.keywords@.len() < 8 {
                    page.keywords@.len() as int
                } else {
                    8
                },
            ),
            " \u{b7} "@,
        ),
        card.entities@ == joined(
            page.entities@.map_values(|t: String| t@).take(
                if page.entities@.len() < 6 {
                    page.entities@.len() as int
                } else {
                    6
                },
            ),
            " \u{b7} "@,
        ),
        card.hash@ == shortened_hash(page.content_hash@),
{
    let k = page.keywords@.map_values(|t: String| t@);
    let e = page.entities@.map_values(|t: String| t@);
    assert(k.take(k.len() as int) =~= k);
    assert(e.take(e.len() as int) =~= e);
}

/// A candidate card's provenance rows are the full UUID texts of the
/// candidate's own tenant, page revision and source, each from its own
/// field; its score is the combined score and its time the creation time.
pub proof fn candidate_card_shows_its_own_identity(card: CandidateCard, m: MatchCandidate)
    requires
        candidate_card_of(card, m),
    ensures
        card.tenant@ == hyphenated(m.tenant_id as nat),
        card.page_revision@ == hyphenated(m.page_revision_id as nat),
        card.source@ == hyphenated(m.source_id as nat),
        card.score_bits == m.score_bits,
        card.state@ == m.state@,
        card.canonical_url@ == m.canonical_url@,
        card.match_key@ == m.match_key@,
        card.content_hash@ == m.content_hash@,
        card.query_hash@ == m.query_hash@,
        card.model@ == m.model@,
        card.created@ == utc_minute_text(m.created_at.seconds()),
        card.kicker@ == "candidate "@ + hex32(m.id as nat).subrange(0, 8) + " \u{b7} rule "@
            + hex32(m.alert_rule_id as nat).subrange(0, 8) + "@"@ + decimal(
            m.alert_rule_revision as nat,
        ),
        card.scores.cells@.len() == 5,
        card.scores.cells@[0].value_bits == m.components.semantic_bits,
        card.evidence.items@.len() == m.evidence@.len(),
{
}

/// A preview result card shows the result's combined score, not one of the
/// components of its breakdown, and the result's own page.
pub proof fn search_result_card_shows_combined_score(card: SearchResultCard, r: SearchResult)
    requires
        search_result_card_of(card, r),
    ensures
        card.score_bits == r.score_bits,
        card.canonical_url@ == r.canonical_url@,
        card.summary@ == r.summary@,
        card.scores.weights@ == r.components.weights@,
        card.kicker@ == "page "@ + hex32(r.page_revision_id as nat).subrange(0, 8)
            + " \u{b7} source "@ + hex32(r.source_id as nat).subrange(0, 8),
        r.title matches Some(t) ==> card.title@ == t@,
        r.title is None ==> card.title@ == "Untitled page"@,
        card.footer@ == "Fetched "@ + utc_minute_text(r.fetched_at.seconds()) + " \u{b7} hash "@
            + shortened_hash(r.content_hash@) + " \u{b7} model "@ + r.model@,
        card.evidence.items@.len() == r.evidence@.len(),
{
}

/// Every card of a preview panel shows the combined score of the result in
/// the same position, and there is one card per result.
pub proof fn preview_cards_follow_results(panel: PreviewPanel, p: SemanticSearchResponse)
    requires
        preview_panel_of(panel, p),
    ensures
        panel.results@.len() == p.results@.len(),
        forall|i: int|
            0 <= i < p.results@.len() ==> #[trigger] panel.results@[i].score_bits
                == p.results@[i].score_bits,
{
    assert forall|i: int| 0 <= i < p.results@.len() implies #[trigger] panel.results@[i].score_bits
        == p.results@[i].score_bits by {
        assert(search_result_card_of(panel.results@[i], p.results@[i]));
    }
}

// ---------------------------------------------------------------------------
// Semantic console
// ---------------------------------------------------------------------------

/// A console candidate card lists the candidate's entities under
/// `Entities` and its keywords under `Keywords`, each in order.
pub proof fn console_card_tags_are_the_candidates(card: CandidateCardText, c: CandidateView)
    requires
        console_card_of(card, c),
    ensures
        card.entities@ == c.entities@,
        card.keywords@ == c.keywords@,
        card.page_title@ == c.page_title@,
        card.canonical_url@ == c.canonical_url@,
        card.best_sentence@ == c.best_sentence@,
        card.state@ == c.state@,
{
}


// ---------------------------------------------------------------------------
// Numbers, joining and hashes
// ---------------------------------------------------------------------------

/// The number that a string of decimal digits denotes.
pub open spec fn digits_value(s: Seq<char>) -> int
    decreases s.len(),
{
    if s.len() == 0 {
        0
    } else {
        digits_value(s.drop_last()) * 10 + (s.last() as int - 48)
    }
}

proof fn lemma_digit(d: nat)
    requires
        d < 10,
    ensures
        crate::text::digit_char(d) as int == 48 + d,
        '0' <= crate::text::digit_char(d) <= '9',
        d > 0 ==> crate::text::digit_char(d) != '0',
{
}

/// The decimal text of a number consists of the digits `0` to `9`, has no
/// leading zero, and reads back as the number.
pub proof fn decimal_reads_back(n: nat)
    ensures
        decimal(n).len() >= 1,
        decimal(n).len() == 1 <==> n < 10,
        forall|i: int| 0 <= i < decimal(n).len() ==> '0' <= #[trigger] decimal(n)[i] <= '9',
        decimal(n).len() > 1 ==> decimal(n)[0] != '0',
        digits_value(decimal(n)) == n,
    decreases n,
{
    if n < 10 {
        lemma_digit(n);
        assert(decimal(n).drop_last() =~= Seq::<char>::empty());
        assert(digits_value(decimal(n).drop_last()) == 0);
    } else {
        decimal_reads_back(n / 10);
        lemma_digit(n % 10);
        let d = decimal(n);
        assert(d.drop_last() =~= decimal(n / 10));
        assert(d.last() == crate::text::digit_char(n % 10));
        assert(d[0] == decimal(n / 10)[0]);
        if decimal(n / 10).len() == 1 {
            lemma_digit(n / 10);
        }
        assert forall|i: int| 0 <= i < d.len() implies '0' <= #[trigger] d[i] <= '9' by {
            if i < d.len() - 1 {
                assert(d[i] == decimal(n / 10)[i]);
            }
        }
    }
}

/// The total length of a list of texts.
pub open spec fn total_len(items: Seq<Seq<char>>) -> nat
    decreases items.len(),
{
    if items.len() == 0 {
        0
    } else {
        total_len(items.drop_last()) + items.last().len()
    }
}

/// Joining puts every item in, in order, with one separator between
/// neighbours: the result starts with the first item, ends with the last,
/// and is as long as the items plus one separator per gap.
pub proof fn joined_keeps_items_in_order(items: Seq<Seq<char>>, sep: Seq<char>)
    ensures
        items.len() == 0 ==> joined(items, sep).len() == 0,
        items.len() > 0 ==> joined(items, sep).len() == total_len(items) + (items.len() - 1)
            * sep.len(),
        items.len() > 0 ==> items[0].is_prefix_of(joined(items, sep)),
        items.len() > 0 ==> items.last().is_suffix_of(joined(items, sep)),
    decreases items.len(),
{
    if items.len() == 1 {
        assert(items.drop_last() =~= Seq::<Seq<char>>::empty());
        assert(total_len(items.drop_last()) == 0);
        assert(total_len(items) == items[0].len());
        assert(items[0] =~= joined(items, sep).subrange(0, items[0].len() as int));
        assert(items.last() =~= joined(items, sep).subrange(0, items[0].len() as int));
    } else if items.len() > 1 {
        let front = items.drop_last();
        joined_keeps_items_in_order(front, sep);
        let j = joined(items, sep);
        assert(j == joined(front, sep) + sep + items.last());
        assert(front[0] == items[0]);
        assert(items[0] =~= j.subrange(0, items[0].len() as int)) by {
            assert(items[0] =~= joined(front, sep).subrange(0, items[0].len() as int));
        }
        let start = j.len() - items.last().len();
        assert(items.last() =~= j.subrange(start, j.len() as int));
        assert(total_len(items) == total_len(front) + items.last().len());
        assert((items.len() - 1) * sep.len() == (front.len() - 1) * sep.len() + sep.len())
            by (nonlinear_arith)
            requires
                front.len() == items.len() - 1,
        ;
    }
}

proof fn lemma_ascii_piece(s: Seq<char>, i: int, j: int)
    requires
        is_ascii_chars(s),
        0 <= i <= j <= s.len(),
    ensures
        decode_piece(encode_utf8(s).subrange(i, j)) == s.subrange(i, j),
{
    let piece = s.subrange(i, j);
    assert(is_ascii_chars(piece));
    is_ascii_chars_encode_utf8(s);
    is_ascii_chars_encode_utf8(piece);
    assert(encode_utf8(piece) =~= encode_utf8(s).subrange(i, j)) by {
        assert forall|k: int| 0 <= k < j - i implies encode_utf8(piece)[k] == encode_utf8(
            s,
        ).subrange(i, j)[k] by {
            assert(piece[k] == s[i + k]);
        }
    }
    encode_utf8_decode_utf8(piece);
}

/// UTF-8 decoding, as used for the two ends of a shortened hash.
pub open spec fn decode_piece(bytes: Seq<u8>) -> Seq<char> {
    vstd::utf8::decode_utf8(bytes)
}

/// A hash written in ASCII (as content hashes are) is shown unchanged up to
/// sixteen characters, and otherwise as its first eight characters, an
/// ellipsis, and its last eight characters.
pub proof fn ascii_hash_shows_both_ends(s: Seq<char>)
    requires
        is_ascii_chars(s),
    ensures
        s.len() <= 16 ==> shortened_hash(s) == s,
        s.len() > 16 ==> shortened_hash(s) == s.take(8) + seq!['\u{2026}'] + s.skip(
            s.len() - 8,
        ),
{
    is_ascii_chars_encode_utf8(s);
    if s.len() > 16 {
        lemma_ascii_piece(s, 0, 8);
        lemma_ascii_piece(s, s.len() - 8, s.len() as int);
        assert(s.subrange(0, 8) =~= s.take(8));
        assert(s.subrange(s.len() - 8, s.len() as int) =~= s.skip(s.len() - 8));
    }
}

// ---------------------------------------------------------------------------
// Scores and preview validation
// ---------------------------------------------------------------------------

/// How a score is clamped, by its `f32` bit pattern: values in `[0, 1]`
/// (and `-0.0`) are kept, finite values above one become `1.0`, and
/// everything else (NaN, infinities, negative numbers) becomes `0.0`.
pub proof fn clamp_keeps_unit_scores_and_fails_closed(b: u32)
    ensures
        b <= 0x3F80_0000 ==> clamped(b) == b,
        b == 0x8000_0000 ==> clamped(b) == b,
        0x3F80_0000 < b < 0x7F80_0000 ==> clamped(b) == 0x3F80_0000,
        0x7F80_0000 <= b <= 0x7FFF_FFFF ==> clamped(b) == 0,
        0x8000_0000 < b ==> clamped(b) == 0,
{
    let q = (b as nat) / 0x80_0000;
    assert(b < 0x7F80_0000 ==> q < 0xFF);
    assert(0x7F80_0000 <= b <= 0x7FFF_FFFF ==> q == 0xFF);
    assert(b >= 0x8000_0000 ==> 0x100 <= q < 0x200);
}

/// A preview form is accepted exactly when its trimmed interest has 3 to
/// 2,000 characters, its threshold is `-0.0` or a bit pattern no greater
/// than that of `1.0` (a finite number in `[0, 1]`), and its limit lies in
/// `1..=50`.
pub proof fn preview_acceptance_bounds(form: PreviewForm)
    ensures
        preview_accepted(form) <==> {
            &&& 3 <= trimmed(form.query_text@).len() <= 2000
            &&& (form.threshold_bits <= 0x3F80_0000 || form.threshold_bits == 0x8000_0000)
            &&& 1 <= form.limit <= 50
        },
{
}

// ---------------------------------------------------------------------------
// More dashboard cards
// ---------------------------------------------------------------------------

/// The word shown for a boolean.
pub open spec fn word(b: bool) -> Seq<char> {
    if b {
        "true"@
    } else {
        "false"@
    }
}

/// The health card reports each flag under its own name.
pub proof fn health_card_reports_each_flag(card: HealthCard, h: ApiHealth)
    requires
        health_card_of(card, h),
    ensures
        card.status@ == h.status@,
        card.service@ == h.service@,
        card.detail@ == h.environment@ + " \u{b7} "@ + h.storage_mode@ + " \u{b7} "@
            + h.semantic_index_mode@ + " \u{b7} db:"@ + word(h.database_connected)
            + " \u{b7} supabase:"@ + word(h.supabase_configured) + " \u{b7} production:"@ + word(
            h.production_ready,
        ),
        card.embedding@ == h.embedding_mode@ + " / "@ + h.embedding_model@,
{
}

/// A source-boundary card shows each policy flag from its own field.
pub proof fn source_domain_card_reports_each_flag(card: SourceDomainCard, s: SourceDomain)
    requires
        source_domain_card_of(card, s),
    ensures
        s.enabled ==> card.class@ == "source-card"@,
        !s.enabled ==> card.class@ == "source-card source-card--disabled"@,
        card.subdomains@ == (if s.include_subdomains {
            "yes"@
        } else {
            "no"@
        }),
        card.enabled@ == (if s.enabled {
            "yes"@
        } else {
            "no"@
        }),
        card.robots@ == (if s.respect_robots {
            "required"@
        } else {
            "unsafe"@
        }),
        card.source_short@ == hex32(s.id as nat).subrange(0, 8),
        card.tenant_short@ == hex32(s.tenant_id as nat).subrange(0, 8),
        card.priority_bits == s.source_priority_bits,
        card.name@ == s.name@,
        card.host@ == s.host@,
        card.base_url@ == s.base_url@,
        card.budget@ == decimal(s.max_pages_per_scan as nat) + " pages"@,
        card.modes@ == joined(
            Seq::new(
                s.discovery_modes@.len(),
                |i: int| crate::models::discovery_label(s.discovery_modes@[i]),
            ),
            " \u{b7} "@,
        ),
        s.seed_urls@.len() == 0 ==> card.seeds@ == "Seeds: API default"@,
        s.seed_urls@.len() > 0 ==> card.seeds@.subrange(0, 7) == "Seeds: "@ && s.seed_urls@[0]@.is_prefix_of(
            card.seeds@.subrange(7, card.seeds@.len() as int),
        ),
{
    reveal_strlit("Seeds: ");
    reveal_strlit("Seeds: API default");
    reveal_strlit("API default");
    if s.seed_urls@.len() == 0 {
        assert("Seeds: "@ + "API default"@ =~= "Seeds: API default"@);
    } else {
        let items = s.seed_urls@.map_values(|t: String| t@);
        joined_keeps_items_in_order(items, " \u{b7} "@);
        assert(card.seeds@.subrange(0, 7) =~= "Seeds: "@);
        assert(card.seeds@.subrange(7, card.seeds@.len() as int) =~= joined(items, " \u{b7} "@));
    }
}

/// Each cell of a score breakdown shows its own component.
pub proof fn breakdown_cells_show_their_components(b: ScoreBreakdown, c: ScoreComponents)
    requires
        score_breakdown_of(b, c),
    ensures
        b.cells@.len() == 5,
        b.cells@[0].value_bits == c.semantic_bits && b.cells@[0].label@ == "semantic"@,
        b.cells@[1].value_bits == c.lexical_bits && b.cells@[1].label@ == "lexical"@,
        b.cells@[2].value_bits == c.entity_bits && b.cells@[2].label@ == "entity"@,
        b.cells@[3].value_bits == c.recency_bits && b.cells@[3].label@ == "recency"@,
        b.cells@[4].value_bits == c.source_priority_bits && b.cells@[4].label@ == "source"@,
        b.weights@ == c.weights@,
{
}

/// Each evidence item shows its own segment: the weighted similarity as
/// weighted, the raw similarity as raw, and the page segment's kind first.
pub proof fn evidence_items_show_their_segments(list: EvidenceList, e: Seq<MatchEvidence>)
    requires
        evidence_list_of(list, e),
    ensures
        list.items@.len() == e.len(),
        forall|i: int|
            #![trigger list.items@[i]]
            0 <= i < e.len() ==> {
                &&& list.items@[i].weighted_bits == e[i].weighted_similarity_bits
                &&& list.items@[i].raw_bits == e[i].similarity_bits
                &&& list.items@[i].page_text@ == e[i].page_text@
                &&& e[i].page_segment_kind@.is_prefix_of(list.items@[i].kinds@)
                &&& e[i].query_segment_kind@.is_suffix_of(list.items@[i].kinds@)
            },
        list.summary@ == decimal(e.len()) + " evidence segment(s)"@,
{
    assert forall|i: int| #![trigger list.items@[i]] 0 <= i < e.len() implies {
        &&& list.items@[i].weighted_bits == e[i].weighted_similarity_bits
        &&& list.items@[i].raw_bits == e[i].similarity_bits
        &&& list.items@[i].page_text@ == e[i].page_text@
        &&& e[i].page_segment_kind@.is_prefix_of(list.items@[i].kinds@)
        &&& e[i].query_segment_kind@.is_suffix_of(list.items@[i].kinds@)
    } by {
        assert(crate::cards::evidence_item_of(list.items@[i], e[i]));
        let k = list.items@[i].kinds@;
        let p = e[i].page_segment_kind@;
        let q = e[i].query_segment_kind@;
        assert(k == p + " \u{2194} "@ + q);
        assert(p =~= k.subrange(0, p.len() as int));
        assert(q =~= k.subrange(k.len() - q.len(), k.len() as int));
    }
}

/// The preview summary counts compared pages, skipped pages and created
/// candidates each from its own field, and names the next cursor if any.
pub proof fn preview_summary_counts_each_field(panel: PreviewPanel, p: SemanticSearchResponse)
    requires
        preview_panel_of(panel, p),
    ensures
        panel.summary@ == decimal(p.compared_pages as nat) + " pages compared \u{b7} "@ + decimal(
            p.skipped_cross_model_pages as nat,
        ) + " cross-model skipped \u{b7} "@ + decimal(p.candidate_matches_created as nat)
            + " candidates created \u{b7} model "@ + p.model@ + (match p.next_cursor {
            Some(c) => " \u{b7} next "@ + c@,
            None => Seq::empty(),
        }),
        panel.count_label@ == decimal(p.results@.len()) + " result(s)"@,
        panel.interest@ == "Interest: "@ + p.query_text@,
        panel.show_empty <==> p.results@.len() == 0,
{
}

// ---------------------------------------------------------------------------
// Semantic console cards
// ---------------------------------------------------------------------------

/// Each score row of a console candidate card shows its own component,
/// clamped.
pub proof fn console_rows_show_their_components(card: CandidateCardText, c: CandidateView)
    requires
        console_card_of(card, c),
    ensures
        card.score_rows@.len() == 5,
        card.score_rows@[0].score_bits == clamped(c.semantic_score_bits),
        card.score_rows@[1].score_bits == clamped(c.lexical_score_bits),
        card.score_rows@[2].score_bits == clamped(c.entity_score_bits),
        card.score_rows@[3].score_bits == clamped(c.recency_score_bits),
        card.score_rows@[4].score_bits == clamped(c.source_priority_score_bits),
        card.score_rows@[0].label@ == "Semantic"@,
        card.score_rows@[1].label@ == "Lexical"@,
        card.score_rows@[2].label@ == "Entity"@,
        card.score_rows@[3].label@ == "Recency"@,
        card.score_rows@[4].label@ == "Source priority"@,
        card.overall_score_bits == clamped(c.overall_score_bits),
        card.approve_url@ == "/ui/matches/"@ + c.id@ + "/approve"@,
        card.suppress_url@ == "/ui/matches/"@ + c.id@ + "/suppress"@,
        card.dismiss_url@ == "/ui/matches/"@ + c.id@ + "/dismiss"@,
        card.detail_url@ == "/matches/"@ + c.id@,
        card.status_class@ == "status-pill status-"@ + c.state@,
        card.context@ == c.rule_name@ + " \u{b7} "@ + c.source_domain@,
        card.discovered_label@ == c.discovered_label@,
        card.model_label@ == c.model_label@,
{
    reveal_strlit("/approve");
    reveal_strlit("/suppress");
    reveal_strlit("/dismiss");
    reveal_strlit("/");
    reveal_strlit("approve");
    reveal_strlit("suppress");
    reveal_strlit("dismiss");
    assert("/approve"@ =~= "/"@ + "approve"@);
    assert("/suppress"@ =~= "/"@ + "suppress"@);
    assert("/dismiss"@ =~= "/"@ + "dismiss"@);
    assert("/ui/matches/"@ + c.id@ + ("/"@ + "approve"@) =~= "/ui/matches/"@ + c.id@ + "/approve"@);
    assert("/ui/matches/"@ + c.id@ + ("/"@ + "suppress"@) =~= "/ui/matches/"@ + c.id@
        + "/suppress"@);
    assert("/ui/matches/"@ + c.id@ + ("/"@ + "dismiss"@) =~= "/ui/matches/"@ + c.id@
        + "/dismiss"@);
}

/// A console source card shows each flag from its own field and points its
/// forms at its own source.
pub proof fn console_source_card_reports_each_flag(card: SourceCardText, s: SourceView)
    requires
        source_card_of(card, s),
    ensures
        card.subdomain_label@ == (if s.include_subdomains {
            "Exact host + subdomains"@
        } else {
            "Exact host only"@
        }),
        card.robots_label@ == (if s.respect_robots {
            "Robots enforced"@
        } else {
            "Robots disabled"@
        }),
        card.indexed_pages@ == decimal(s.indexed_pages as nat),
        card.page_budget@ == decimal(s.page_budget as nat),
        card.scan_url@ == "/ui/sources/"@ + s.id@ + "/scan"@,
        card.detail_url@ == "/sources/"@ + s.id@,
        card.status_class@ == "status-pill status-"@ + s.status@,
        card.status@ == s.status@,
        card.domain@ == s.domain@,
        card.last_scan_label@ == s.last_scan_label@,
{
}

/// A console rule card shows the rule's own revision, status and count,
/// clamps its threshold, and points its forms at its own rule.
pub proof fn console_rule_card_reports_its_rule(card: RuleCardText, r: RuleView)
    requires
        rule_card_of(card, r),
    ensures
        card.revision_label@ == "Revision "@ + decimal(r.revision as nat),
        card.status@ == (if r.enabled {
            "enabled"@
        } else {
            "paused"@
        }),
        card.status_class@ == "status-pill status-"@ + card.status@,
        card.threshold_bits == clamped(r.threshold_bits),
        card.candidate_count@ == decimal(r.candidate_count as nat),
        card.evaluate_url@ == "/ui/alert-rules/"@ + r.id@ + "/evaluate"@,
        card.detail_url@ == "/alert-rules/"@ + r.id@,
        card.name@ == r.name@,
        card.query_text@ == r.query_text@,
{
}

// ---------------------------------------------------------------------------
// The dashboard page
// ---------------------------------------------------------------------------

/// The page counts each list from its own part, flags each empty part by
/// itself, lists every source but at most twelve revisions and twenty
/// candidates, and keeps the error lines.
pub proof fn dashboard_view_counts_each_part(v: DashboardView, data: DashboardData)
    requires
        dashboard_view_of(v, data),
    ensures
        v.source_count == data.sources@.len(),
        v.revision_count == data.pages@.len(),
        v.candidate_count == data.matches@.len(),
        v.sources_empty <==> data.sources@.len() == 0,
        v.pages_empty <==> data.pages@.len() == 0,
        v.matches_empty <==> data.matches@.len() == 0,
        v.sources@.len() == data.sources@.len(),
        v.pages@.len() <= 12 && v.pages@.len() <= data.pages@.len(),
        data.pages@.len() <= 12 ==> v.pages@.len() == data.pages@.len(),
        data.pages@.len() > 12 ==> v.pages@.len() == 12,
        v.candidates@.len() <= 20 && v.candidates@.len() <= data.matches@.len(),
        data.matches@.len() <= 20 ==> v.candidates@.len() == data.matches@.len(),
        data.matches@.len() > 20 ==> v.candidates@.len() == 20,
        v.errors@.len() == data.errors@.len(),
        forall|i: int| 0 <= i < v.errors@.len() ==> #[trigger] v.errors@[i]@ == data.errors@[i]@,
        v.health is Some <==> data.health is Some,
        v.preview is Some <==> data.preview is Some,
        v.environment@ == data.environment@,
        v.tenant_label@ == data.tenant_label@,
        v.query_text@ == data.query_text@,
        forall|i: int|
            0 <= i < v.sources@.len() ==> #[trigger] source_domain_card_of(
                v.sources@[i],
                data.sources@[i],
            ),
        forall|i: int|
            0 <= i < v.pages@.len() ==> #[trigger] page_card_of(v.pages@[i], data.pages@[i]),
        forall|i: int|
            0 <= i < v.candidates@.len() ==> #[trigger] candidate_card_of(
                v.candidates@[i],
                data.matches@[i],
            ),
        data.health matches Some(h) ==> v.health matches Some(c) && health_card_of(c, h),
        data.preview matches Some(p) ==> v.preview matches Some(c) && preview_panel_of(c, p),
{
    let a = crate::text::texts(v.errors@);
    let b = crate::text::texts(data.errors@);
    assert(a.len() == v.errors@.len());
    assert(b.len() == data.errors@.len());
    assert forall|i: int| 0 <= i < v.errors@.len() implies #[trigger] v.errors@[i]@
        == data.errors@[i]@ by {
        assert(a[i] == v.errors@[i]@);
        assert(b[i] == data.errors@[i]@);
    }
}

/// The line that reports a failure under a label.
pub open spec fn reported(label: Seq<char>, e: ApiFailure) -> Seq<char> {
    label + ": "@ + e.code@ + " \u{b7} "@ + e.message@
}

/// The error lines of a dashboard page: the form's refusal first, then each
/// failed call reported under its own name with its own code and message,
/// in the order health, sources, pages, matches, preview.
pub proof fn dashboard_errors_name_each_failure(
    local_error: Option<String>,
    health: Result<ApiHealth, ApiFailure>,
    sources: Result<Vec<SourceDomain>, ApiFailure>,
    pages: Result<Vec<PageIndexRecord>, ApiFailure>,
    matches: Result<Vec<MatchCandidate>, ApiFailure>,
    preview: Option<Result<SemanticSearchResponse, ApiFailure>>,
)
    ensures
        ({
            let lines = dashboard_errors(local_error, health, sources, pages, matches, preview);
            let l = if local_error is Some {
                1int
            } else {
                0int
            };
            let h = if health is Err {
                1int
            } else {
                0int
            };
            let s = if sources is Err {
                1int
            } else {
                0int
            };
            let p = if pages is Err {
                1int
            } else {
                0int
            };
            let m = if matches is Err {
                1int
            } else {
                0int
            };
            &&& (local_error matches Some(e) ==> lines[0] == e@)
            &&& (health matches Err(e) ==> lines[l] == reported("health"@, e))
            &&& (sources matches Err(e) ==> lines[l + h] == reported("sources"@, e))
            &&& (pages matches Err(e) ==> lines[l + h + s] == reported("pages"@, e))
            &&& (matches matches Err(e) ==> lines[l + h + s + p] == reported("matches"@, e))
            &&& (preview matches Some(Err(e)) ==> lines[l + h + s + p + m] == reported(
                "preview"@,
                e,
            ))
        }),
{
}


// ---------------------------------------------------------------------------
// UUID text
// ---------------------------------------------------------------------------

/// The number a lower-case hexadecimal digit stands for.
pub open spec fn hex_char_value(c: char) -> int {
    if c <= '9' {
        c as int - 48
    } else {
        c as int - 87
    }
}

/// The number that a string of hexadecimal digits denotes.
pub open spec fn hex_value(s: Seq<char>) -> int
    decreases s.len(),
{
    if s.len() == 0 {
        0
    } else {
        hex_value(s.drop_last()) * 16 + hex_char_value(s.last())
    }
}

proof fn lemma_hex_digit(d: nat)
    requires
        d < 16,
    ensures
        hex_char_value(hex_digit(d)) == d,
        ('0' <= hex_digit(d) <= '9') || ('a' <= hex_digit(d) <= 'f'),
{
}

proof fn lemma_hex_prefix(v: nat, k: int)
    requires
        0 <= k <= 32,
        v < pow(16, 32),
    ensures
        hex_value(hex32(v).take(k)) == (v as int) / pow(16, (32 - k) as nat),
    decreases k,
{
    vstd::arithmetic::power::lemma_pow_positive(16, (32 - k) as nat);
    if k == 0 {
        assert(hex32(v).take(0) =~= Seq::<char>::empty());
        vstd::arithmetic::div_mod::lemma_fundamental_div_mod_converse_div(
            v as int,
            pow(16, 32),
            0,
            v as int,
        );
    } else {
        lemma_hex_prefix(v, k - 1);
        let a = pow(16, (32 - k) as nat);
        assert(pow(16, (33 - k) as nat) == 16 * a) by {
            reveal(pow);
        }
        let t = hex32(v).take(k);
        assert(t.drop_last() =~= hex32(v).take(k - 1));
        let d = ((v / a as nat) % 16) as nat;
        assert(t.last() == hex_digit(d));
        lemma_hex_digit(d);
        vstd::arithmetic::div_mod::lemma_div_denominator(v as int, a, 16);
        assert(a * 16 == 16 * a) by (nonlinear_arith);
        vstd::arithmetic::div_mod::lemma_fundamental_div_mod((v as int) / a, 16);
    }
}

/// The text of a UUID is 36 characters long, has hyphens at positions 8,
/// 13, 18 and 23 and lower-case hexadecimal digits everywhere else, and
/// its 32 digits, read as a hexadecimal number, give back the UUID's value;
/// so its first eight digits are the value's top 32 bits.
pub proof fn uuid_text_reads_back(v: u128)
    ensures
        hyphenated(v as nat).len() == 36,
        hyphenated(v as nat)[8] == '-' && hyphenated(v as nat)[13] == '-' && hyphenated(
            v as nat,
        )[18] == '-' && hyphenated(v as nat)[23] == '-',
        hyphenated(v as nat).subrange(0, 8) == hex32(v as nat).subrange(0, 8),
        hyphenated(v as nat).subrange(9, 13) == hex32(v as nat).subrange(8, 12),
        hyphenated(v as nat).subrange(14, 18) == hex32(v as nat).subrange(12, 16),
        hyphenated(v as nat).subrange(19, 23) == hex32(v as nat).subrange(16, 20),
        hyphenated(v as nat).subrange(24, 36) == hex32(v as nat).subrange(20, 32),
        forall|i: int|
            0 <= i < 32 ==> ('0' <= #[trigger] hex32(v as nat)[i] <= '9') || ('a' <= hex32(
                v as nat,
            )[i] <= 'f'),
        hex_value(hex32(v as nat)) == v,
        hex_value(hex32(v as nat).subrange(0, 8)) == v / 0x1_0000_0000_0000_0000_0000_0000u128,
{
    let h = hex32(v as nat);
    let t = hyphenated(v as nat);
    assert(t.subrange(0, 8) =~= h.subrange(0, 8));
    assert(t.subrange(9, 13) =~= h.subrange(8, 12));
    assert(t.subrange(14, 18) =~= h.subrange(12, 16));
    assert(t.subrange(19, 23) =~= h.subrange(16, 20));
    assert(t.subrange(24, 36) =~= h.subrange(20, 32));
    assert forall|i: int| 0 <= i < 32 implies ('0' <= #[trigger] h[i] <= '9') || ('a' <= h[i]
        <= 'f') by {
        vstd::arithmetic::power::lemma_pow_positive(16, (31 - i) as nat);
        lemma_hex_digit(((v as nat / pow(16, (31 - i) as nat) as nat) % 16) as nat);
    }
    assert(pow(16, 32) == 0x1_0000_0000_0000_0000_0000_0000_0000_0000int) by {
        reveal_with_fuel(pow, 33);
    }
    assert(pow(16, 24) == 0x1_0000_0000_0000_0000_0000_0000int) by {
        reveal_with_fuel(pow, 25);
    }
    assert(pow(16, 0) == 1) by {
        reveal(pow);
    }
    lemma_hex_prefix(v as nat, 32);
    lemma_hex_prefix(v as nat, 8);
    assert(h.take(32) =~= h);
    assert((v as int) / 1 == v as int);
    assert(hex_value(h) == v);
    assert(h.take(8) =~= h.subrange(0, 8));
}


/// A call's answer is kept whole when it succeeded and left empty when it
/// failed.
pub proof fn answers_are_kept_or_emptied<T>(
    list: Result<Vec<T>, ApiFailure>,
    single: Result<T, ApiFailure>,
)
    ensures
        list matches Ok(v) ==> ok_items(list) == v@,
        list is Err ==> ok_items(list).len() == 0,
        single matches Ok(v) ==> ok_value(single) == Some(v),
        single is Err ==> ok_value(single) is None,
{
}

} // verus!
