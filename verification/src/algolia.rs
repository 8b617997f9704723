//! The documentation search client: the shape of the upstream search
//! response, the request that is sent, and the normalization of raw hits
//! into a flat, uniform result list.

use vstd::prelude::*;

use crate::text::{dec_digits, remove_all, u64_to_dec};

verus! {

/// Declares serde_json's `Value` type so that hit fields carrying raw JSON
/// can be held opaquely; nothing is assumed about a value of it.
#[verifier::external_type_specification]
#[verifier::external_body]
pub struct ExValue(serde_json::Value);

pub struct AlgoliaResponse {
    pub results: Vec<AlgoliaSearchResult>,
}

pub struct AlgoliaSearchResult {
    pub hits: Vec<Hit>,
    pub nb_hits: i64,
    pub page: i64,
    pub nb_pages: i64,
    pub hits_per_page: i64,
    pub exhaustive_nb_hits: bool,
    pub query: String,
    pub params: String,
    pub index: String,
    pub processing_time_ms: i64,
}

pub struct Hit {
    pub content: serde_json::Value,
    pub hierarchy: Hierarchy,
    pub type_field: String,
    pub url: String,
    pub object_id: String,
    pub snippet_result: SnippetResult,
    pub highlight_result: HighlightResult,
}

pub struct Hierarchy {
    pub lvl0: String,
    pub lvl1: String,
    pub lvl2: Option<String>,
    pub lvl3: serde_json::Value,
    pub lvl4: serde_json::Value,
    pub lvl5: serde_json::Value,
    pub lvl6: serde_json::Value,
}

pub struct SnippetResult {
    pub hierarchy: Hierarchy2,
}

pub struct Hierarchy2 {
    pub lvl1: Lvl1,
    pub lvl2: Option<Lvl2>,
}

pub struct Lvl1 {
    pub value: String,
    pub match_level: String,
}

pub struct Lvl2 {
    pub value: String,
    pub match_level: String,
}

pub struct HighlightResult {
    pub hierarchy: Hierarchy3,
    pub hierarchy_camel: Vec<HierarchyCamel>,
}

pub struct Hierarchy3 {
    pub lvl0: Lvl0,
    pub lvl1: Lvl12,
    pub lvl2: Option<Lvl22>,
}

pub struct Lvl0 {
    pub value: String,
    pub match_level: String,
    pub matched_words: Vec<serde_json::Value>,
}

pub struct Lvl12 {
    pub value: String,
    pub match_level: String,
    pub fully_highlighted: Option<bool>,
    pub matched_words: Vec<String>,
}

pub struct Lvl22 {
    pub value: String,
    pub match_level: String,
    pub fully_highlighted: Option<bool>,
    pub matched_words: Vec<String>,
}

pub struct HierarchyCamel {
    pub lvl0: Lvl02,
    pub lvl1: Lvl13,
    pub lvl2: Option<Lvl23>,
}

pub struct Lvl02 {
    pub value: String,
    pub match_level: String,
    pub matched_words: Vec<serde_json::Value>,
}

pub struct Lvl13 {
    pub value: String,
    pub match_level: String,
    pub fully_highlighted: Option<bool>,
    pub matched_words: Vec<String>,
}

pub struct Lvl23 {
    pub value: String,
    pub match_level: String,
    pub fully_highlighted: Option<bool>,
    pub matched_words: Vec<String>,
}

/// One normalized search result: a non-empty label, an optional non-empty
/// description, and a non-empty target URL with the in-page scroll anchor
/// stripped.
pub struct DocResult {
    pub label: String,
    pub description: Option<String>,
    pub url: String,
}

/// The mathematical shape of a normalized result.
pub ghost struct DocResultV {
    pub label: Seq<char>,
    pub description: Option<Seq<char>>,
    pub target: Seq<char>,
}

impl View for DocResult {
    type V = DocResultV;

    open spec fn view(&self) -> DocResultV {
        DocResultV {
            label: self.label@,
            description: match self.description {
                Option::Some(d) => Option::Some(d@),
                Option::None => Option::None,
            },
            target: self.url@,
        }
    }
}

/// The views of a list of normalized results.
pub open spec fn recs_view(s: Seq<DocResult>) -> Seq<DocResultV> {
    s.map_values(|d: DocResult| d@)
}

/// The in-page scroll anchor that is stripped from every hit URL.
pub open spec fn anchor_fragment() -> Seq<char> {
    "#content-wrapper"@
}

/// A raw hit carries its mandatory fields: a non-empty heading and a URL
/// that is still non-empty once the scroll anchor is stripped. Hits that do
/// not are dropped rather than included malformed.
pub open spec fn hit_ok(h: Hit) -> bool {
    h.hierarchy.lvl1@.len() > 0 && remove_all(h.url@, anchor_fragment()).len() > 0
}

/// An absent or empty secondary heading normalizes to an absent description.
pub open spec fn norm_desc(d: Option<String>) -> Option<Seq<char>> {
    match d {
        Option::Some(s) => if s@.len() == 0 {
            Option::None
        } else {
            Option::Some(s@)
        },
        Option::None => Option::None,
    }
}

/// The normalized record for one raw hit.
pub open spec fn norm_hit(h: Hit) -> DocResultV {
    DocResultV {
        label: h.hierarchy.lvl1@,
        description: norm_desc(h.hierarchy.lvl2),
        target: remove_all(h.url@, anchor_fragment()),
    }
}

/// The normalized records of one block of hits, in hit order, dropping the
/// hits that lack a mandatory field.
pub open spec fn norm_hits(hits: Seq<Hit>) -> Seq<DocResultV>
    decreases hits.len(),
{
    if hits.len() == 0 {
        Seq::empty()
    } else {
        norm_hits(hits.drop_last()) + (if hit_ok(hits.last()) {
            seq![norm_hit(hits.last())]
        } else {
            Seq::empty()
        })
    }
}

/// The normalized records of a whole response: blocks flattened in order,
/// and within each block the hits in order.
pub open spec fn norm_results(rs: Seq<AlgoliaSearchResult>) -> Seq<DocResultV>
    decreases rs.len(),
{
    if rs.len() == 0 {
        Seq::empty()
    } else {
        norm_results(rs.drop_last()) + norm_hits(rs.last().hits@)
    }
}

/// The hit counts of all blocks, summed.
pub open spec fn total_hits(rs: Seq<AlgoliaSearchResult>) -> nat
    decreases rs.len(),
{
    if rs.len() == 0 {
        0
    } else {
        total_hits(rs.drop_last()) + rs.last().hits@.len()
    }
}

/// Every hit of every block carries its mandatory fields.
pub open spec fn all_hits_ok(rs: Seq<AlgoliaSearchResult>) -> bool {
    forall|i: int, j: int|
        0 <= i < rs.len() && 0 <= j < rs[i].hits@.len() ==> hit_ok(#[trigger] rs[i].hits@[j])
}

/// A normalized record is well formed: label and target are non-empty, and
/// the description, when present, is non-empty.
pub open spec fn record_wf(r: DocResultV) -> bool {
    &&& r.label.len() > 0
    &&& r.target.len() > 0
    &&& (r.description matches Option::Some(d) ==> d.len() > 0)
}

/// Strip the in-page scroll anchor from a hit URL, wherever it stands.
pub fn strip_anchor(url: &str) -> (r: String)
    ensures
        r@ == remove_all(url@, anchor_fragment()),
{
    proof {
        reveal_strlit("#content-wrapper");
    }
    crate::text::remove_all_str(url, "#content-wrapper")
}

/// Flatten a raw response into the uniform result list: block order, then
/// hit order, each hit normalized, malformed hits dropped.
pub fn normalize_response(resp: &AlgoliaResponse) -> (r: Vec<DocResult>)
    ensures
        recs_view(r@) == norm_results(resp.results@),
{
    let mut out: Vec<DocResult> = Vec::new();
    let nblocks: usize = resp.results.len();
    let mut b: usize = 0;
    proof {
        assert(resp.results@.take(0) =~= Seq::<AlgoliaSearchResult>::empty());
        assert(recs_view(out@) =~= norm_results(resp.results@.take(0)));
    }
    while b < nblocks
        invariant
            0 <= b <= nblocks,
            nblocks == resp.results@.len(),
            recs_view(out@) == norm_results(resp.results@.take(b as int)),
        decreases nblocks - b,
    {
        let nh: usize = resp.results[b].hits.len();
        let mut h: usize = 0;
        proof {
            assert(resp.results@[b as int].hits@.take(0) =~= Seq::<Hit>::empty());
            assert(norm_results(resp.results@.take(b as int)) + norm_hits(
                resp.results@[b as int].hits@.take(0),
            ) =~= norm_results(resp.results@.take(b as int)));
        }
        while h < nh
            invariant
                0 <= b < nblocks,
                0 <= h <= nh,
                nblocks == resp.results@.len(),
                nh == resp.results@[b as int].hits@.len(),
                recs_view(out@) == norm_results(resp.results@.take(b as int)) + norm_hits(
                    resp.results@[b as int].hits@.take(h as int),
                ),
            decreases nh - h,
        {
            let hit = &resp.results[b].hits[h];
            let stripped = strip_anchor(hit.url.as_str());
            let label_ok: bool = hit.hierarchy.lvl1.as_str().unicode_len() > 0;
            let target_ok: bool = stripped.as_str().unicode_len() > 0;
            let ghost hits = resp.results@[b as int].hits@;
            proof {
                assert(hits.take(h + 1).drop_last() =~= hits.take(h as int));
                assert(hits.take(h + 1).last() == hits[h as int]);
            }
            if label_ok && target_ok {
                let description: Option<String> = match &hit.hierarchy.lvl2 {
                    Option::Some(d) => if d.as_str().unicode_len() > 0 {
                        Option::Some(d.clone())
                    } else {
                        Option::None
                    },
                    Option::None => Option::None,
                };
                let rec = DocResult { label: hit.hierarchy.lvl1.clone(), description, url: stripped };
                proof {
                    assert(rec@ == norm_hit(hits[h as int]));
                    assert(hit_ok(hits[h as int]));
                    assert(norm_hits(hits.take(h + 1)) == norm_hits(hits.take(h as int)) + seq![
                        norm_hit(hits[h as int]),
                    ]);
                }
                let ghost old_out = out@;
                out.push(rec);
                proof {
                    assert(recs_view(old_out.push(rec)) =~= recs_view(old_out) + seq![rec@]);
                    assert((norm_results(resp.results@.take(b as int)) + norm_hits(
                        hits.take(h as int),
                    )) + seq![norm_hit(hits[h as int])] =~= norm_results(resp.results@.take(
                        b as int,
                    )) + norm_hits(hits.take(h + 1)));
                }
            } else {
                proof {
                    assert(!hit_ok(hits[h as int]));
                    assert(norm_hits(hits.take(h + 1)) =~= norm_hits(hits.take(h as int)));
                }
            }
            h += 1;
        }
        proof {
            let ghost rs = resp.results@;
            assert(rs[b as int].hits@.take(nh as int) =~= rs[b as int].hits@);
            assert(rs.take(b + 1).drop_last() =~= rs.take(b as int));
            assert(rs.take(b + 1).last() == rs[b as int]);
            assert(norm_results(rs.take(b + 1)) == norm_results(rs.take(b as int)) + norm_hits(
                rs[b as int].hits@,
            ));
        }
        b += 1;
    }
    proof {
        assert(resp.results@.take(nblocks as int) =~= resp.results@);
    }
    out
}

proof fn lemma_norm_hits_len_all_ok(hits: Seq<Hit>)
    requires
        forall|j: int| 0 <= j < hits.len() ==> hit_ok(#[trigger] hits[j]),
    ensures
        norm_hits(hits).len() == hits.len(),
    decreases hits.len(),
{
    if hits.len() > 0 {
        lemma_norm_hits_len_all_ok(hits.drop_last());
    }
}

/// Normalization keeps every well-formed hit: over blocks whose hits all
/// carry their mandatory fields, the flat result list is exactly as long as
/// the hit counts of the blocks summed, in block-then-hit order.
pub proof fn lemma_normalized_len(rs: Seq<AlgoliaSearchResult>)
    requires
        all_hits_ok(rs),
    ensures
        norm_results(rs).len() == total_hits(rs),
    decreases rs.len(),
{
    if rs.len() > 0 {
        assert(all_hits_ok(rs.drop_last())) by {
            assert forall|i: int, j: int|
                0 <= i < rs.drop_last().len() && 0 <= j
                    < rs.drop_last()[i].hits@.len() implies hit_ok(
                #[trigger] rs.drop_last()[i].hits@[j],
            ) by {
                assert(rs.drop_last()[i] == rs[i]);
            }
        }
        lemma_normalized_len(rs.drop_last());
        assert(forall|j: int|
            0 <= j < rs.last().hits@.len() ==> hit_ok(#[trigger] rs.last().hits@[j])) by {
            assert(rs.last() == rs[rs.len() - 1]);
        }
        lemma_norm_hits_len_all_ok(rs.last().hits@);
    }
}

proof fn lemma_norm_hits_index(hits: Seq<Hit>, j: int)
    requires
        forall|k: int| 0 <= k < hits.len() ==> hit_ok(#[trigger] hits[k]),
        0 <= j < hits.len(),
    ensures
        norm_hits(hits).len() == hits.len(),
        norm_hits(hits)[j] == norm_hit(hits[j]),
    decreases hits.len(),
{
    lemma_norm_hits_len_all_ok(hits);
    if j == hits.len() - 1 {
        lemma_norm_hits_len_all_ok(hits.drop_last());
    } else {
        lemma_norm_hits_index(hits.drop_last(), j);
    }
}

proof fn lemma_total_hits_prefix(rs: Seq<AlgoliaSearchResult>, i: int)
    requires
        0 <= i < rs.len(),
    ensures
        total_hits(rs.take(i)) + rs[i].hits@.len() <= total_hits(rs),
    decreases rs.len(),
{
    if i == rs.len() - 1 {
        assert(rs.take(i) =~= rs.drop_last());
    } else {
        assert(rs.drop_last().take(i) =~= rs.take(i));
        lemma_total_hits_prefix(rs.drop_last(), i);
    }
}

/// Normalization keeps the original block-then-hit order: with well-formed
/// hits throughout, the record for hit `j` of block `i` stands at the index
/// that counts all hits of the blocks before it, then `j`.
pub proof fn lemma_normalized_order(rs: Seq<AlgoliaSearchResult>, i: int, j: int)
    requires
        all_hits_ok(rs),
        0 <= i < rs.len(),
        0 <= j < rs[i].hits@.len(),
    ensures
        total_hits(rs.take(i)) + j < norm_results(rs).len(),
        norm_results(rs)[total_hits(rs.take(i)) + j] == norm_hit(rs[i].hits@[j]),
    decreases rs.len(),
{
    lemma_normalized_len(rs);
    lemma_total_hits_prefix(rs, i);
    assert(all_hits_ok(rs.drop_last())) by {
        assert forall|a: int, b: int|
            0 <= a < rs.drop_last().len() && 0 <= b
                < rs.drop_last()[a].hits@.len() implies hit_ok(
            #[trigger] rs.drop_last()[a].hits@[b],
        ) by {
            assert(rs.drop_last()[a] == rs[a]);
        }
    }
    lemma_normalized_len(rs.drop_last());
    if i == rs.len() - 1 {
        assert(rs.take(i) =~= rs.drop_last());
        assert(forall|k: int|
            0 <= k < rs.last().hits@.len() ==> hit_ok(#[trigger] rs.last().hits@[k])) by {
            assert(rs.last() == rs[rs.len() - 1]);
        }
        lemma_norm_hits_index(rs.last().hits@, j);
    } else {
        assert(rs.drop_last().take(i) =~= rs.take(i));
        assert(rs.drop_last()[i] == rs[i]);
        lemma_total_hits_prefix(rs.drop_last(), i);
        lemma_normalized_order(rs.drop_last(), i, j);
    }
}

/// A hit whose secondary heading is absent or empty normalizes to a record
/// with an absent description, never an empty one.
pub proof fn lemma_empty_description_absent(h: Hit)
    ensures
        h.hierarchy.lvl2 is None ==> norm_hit(h).description is None,
        (h.hierarchy.lvl2 matches Option::Some(d) && d@.len() == 0) ==> norm_hit(h).description
            is None,
        norm_hit(h).description matches Option::Some(d) ==> d.len() > 0,
{
}

proof fn lemma_norm_hits_wf(hits: Seq<Hit>, k: int)
    requires
        0 <= k < norm_hits(hits).len(),
    ensures
        record_wf(norm_hits(hits)[k]),
    decreases hits.len(),
{
    if hits.len() > 0 {
        if k < norm_hits(hits.drop_last()).len() {
            lemma_norm_hits_wf(hits.drop_last(), k);
        }
    }
}

/// Every record of a normalized response is well formed: non-empty label,
/// non-empty target, and no empty description.
pub proof fn lemma_normalized_records_wf(rs: Seq<AlgoliaSearchResult>, k: int)
    requires
        0 <= k < norm_results(rs).len(),
    ensures
        record_wf(norm_results(rs)[k]),
    decreases rs.len(),
{
    if rs.len() > 0 {
        if k < norm_results(rs.drop_last()).len() {
            lemma_normalized_records_wf(rs.drop_last(), k);
        } else {
            lemma_norm_hits_wf(rs.last().hits@, k - norm_results(rs.drop_last()).len());
        }
    }
}

/// How many hits one search asks the upstream index for.
pub const HITS_PER_PAGE: u16 = 5;

/// Errors of one search round trip. Transport failures and malformed
/// response bodies are kept apart, though both degrade to an empty result
/// list at the command boundary.
pub enum SearchError {
    Network,
    Upstream,
}

/// The endpoint for batched multi-index queries of the application's host.
pub fn build_search_url(app_id: &str) -> (r: String)
    ensures
        r@ == "https://"@ + app_id@ + "-dsn.algolia.net/1/indexes/*/queries"@,
{
    let mut r = String::from_str("https://");
    r.append(app_id);
    r.append("-dsn.algolia.net/1/indexes/*/queries");
    r
}

/// The request body of one search: a single sub-query against the
/// `tailwindcss` index, with the page cap, the highlight and snippet
/// configuration, a facet filter pinning the content version, and result
/// de-duplication.
pub open spec fn search_body_text(q: Seq<char>, version: Seq<char>) -> Seq<char> {
    "{\"requests\":[{\"indexName\":\"tailwindcss\",\"query\":\""@ + q
        + "\",\"params\":\"hitsPerPage="@ + dec_digits(HITS_PER_PAGE as nat)
        + "&highlightPreTag=%2A%2A&highlightPostTag=%2A%2A&attributesToRetrieve=%5B%22hierarchy.lvl0%22%2C%22hierarchy.lvl1%22%2C%22hierarchy.lvl2%22%2C%22hierarchy.lvl3%22%2C%22hierarchy.lvl4%22%2C%22hierarchy.lvl5%22%2C%22hierarchy.lvl6%22%2C%22content%22%2C%22type%22%2C%22url%22%5D&attributesToSnippet=%5B%22hierarchy.lvl1%3A10%22%2C%22hierarchy.lvl2%3A10%22%2C%22hierarchy.lvl3%3A10%22%2C%22hierarchy.lvl4%3A10%22%2C%22hierarchy.lvl5%3A10%22%2C%22hierarchy.lvl6%3A10%22%2C%22content%3A10%22%5D&snippetEllipsisText=%E2%80%A6&facetFilters=version%3Av"@
        + version + "&distinct=1\"}]}"@
}

/// Build the search request body for one query against one content version.
pub fn build_search_body(query: &str, version: &str) -> (r: String)
    ensures
        r@ == search_body_text(query@, version@),
{
    let mut r = String::from_str("{\"requests\":[{\"indexName\":\"tailwindcss\",\"query\":\"");
    r.append(query);
    r.append("\",\"params\":\"hitsPerPage=");
    let cap = u64_to_dec(HITS_PER_PAGE as u64);
    r.append(cap.as_str());
    r.append(
        "&highlightPreTag=%2A%2A&highlightPostTag=%2A%2A&attributesToRetrieve=%5B%22hierarchy.lvl0%22%2C%22hierarchy.lvl1%22%2C%22hierarchy.lvl2%22%2C%22hierarchy.lvl3%22%2C%22hierarchy.lvl4%22%2C%22hierarchy.lvl5%22%2C%22hierarchy.lvl6%22%2C%22content%22%2C%22type%22%2C%22url%22%5D&attributesToSnippet=%5B%22hierarchy.lvl1%3A10%22%2C%22hierarchy.lvl2%3A10%22%2C%22hierarchy.lvl3%3A10%22%2C%22hierarchy.lvl4%3A10%22%2C%22hierarchy.lvl5%3A10%22%2C%22hierarchy.lvl6%3A10%22%2C%22content%3A10%22%5D&snippetEllipsisText=%E2%80%A6&facetFilters=version%3Av",
    );
    r.append(version);
    r.append("&distinct=1\"}]}");
    r
}

/// Coerce a failed search to an empty result list, so the user always gets
/// a response; a failure is indistinguishable from a genuine zero-hit
/// search.
pub fn results_or_empty(r: Result<Vec<DocResult>, SearchError>) -> (out: Vec<DocResult>)
    ensures
        match r {
            Result::Ok(v) => out == v,
            Result::Err(_) => out@.len() == 0,
        },
{
    match r {
        Result::Ok(v) => v,
        Result::Err(_) => Vec::new(),
    }
}

} // verus!
