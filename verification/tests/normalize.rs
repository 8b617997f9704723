use tailwind_bot::algolia::{
    normalize_response, strip_anchor, AlgoliaResponse, AlgoliaSearchResult, Hierarchy, Hierarchy2,
    Hierarchy3, HighlightResult, Hit, Lvl0, Lvl1, Lvl12, SnippetResult,
};

fn mk_hit(lvl1: &str, lvl2: Option<&str>, url: &str) -> Hit {
    Hit {
        content: serde_json::Value::Null,
        hierarchy: Hierarchy {
            lvl0: String::from("Documentation"),
            lvl1: String::from(lvl1),
            lvl2: lvl2.map(String::from),
            lvl3: serde_json::Value::Null,
            lvl4: serde_json::Value::Null,
            lvl5: serde_json::Value::Null,
            lvl6: serde_json::Value::Null,
        },
        type_field: String::from("lvl1"),
        url: String::from(url),
        object_id: String::from("obj"),
        snippet_result: SnippetResult {
            hierarchy: Hierarchy2 {
                lvl1: Lvl1 { value: String::from(lvl1), match_level: String::from("full") },
                lvl2: None,
            },
        },
        highlight_result: HighlightResult {
            hierarchy: Hierarchy3 {
                lvl0: Lvl0 {
                    value: String::from("Documentation"),
                    match_level: String::from("none"),
                    matched_words: vec![],
                },
                lvl1: Lvl12 {
                    value: String::from(lvl1),
                    match_level: String::from("full"),
                    fully_highlighted: None,
                    matched_words: vec![],
                },
                lvl2: None,
            },
            hierarchy_camel: vec![],
        },
    }
}

fn mk_block(hits: Vec<Hit>) -> AlgoliaSearchResult {
    AlgoliaSearchResult {
        hits,
        nb_hits: 0,
        page: 0,
        nb_pages: 1,
        hits_per_page: 5,
        exhaustive_nb_hits: true,
        query: String::from("q"),
        params: String::from("p"),
        index: String::from("tailwindcss"),
        processing_time_ms: 1,
    }
}

#[test]
fn flattens_blocks_then_hits_in_order() {
    let resp = AlgoliaResponse {
        results: vec![
            mk_block(vec![
                mk_hit("Flex", None, "https://tailwindcss.com/docs/flex"),
                mk_hit("Flex Direction", None, "https://tailwindcss.com/docs/flex-direction"),
            ]),
            mk_block(vec![mk_hit("Flex Wrap", None, "https://tailwindcss.com/docs/flex-wrap")]),
        ],
    };
    let recs = normalize_response(&resp);
    assert_eq!(recs.len(), 3);
    assert_eq!(recs[0].label, "Flex");
    assert_eq!(recs[1].label, "Flex Direction");
    assert_eq!(recs[2].label, "Flex Wrap");
}

#[test]
fn empty_response_normalizes_to_nothing() {
    let resp = AlgoliaResponse { results: vec![] };
    assert_eq!(normalize_response(&resp).len(), 0);
    let resp = AlgoliaResponse { results: vec![mk_block(vec![])] };
    assert_eq!(normalize_response(&resp).len(), 0);
}

#[test]
fn anchor_in_middle_is_removed() {
    let resp = AlgoliaResponse {
        results: vec![mk_block(vec![mk_hit(
            "Flex",
            None,
            "https://tailwindcss.com/docs/flex#content-wrapper?x=1",
        )])],
    };
    let recs = normalize_response(&resp);
    assert_eq!(recs[0].url, "https://tailwindcss.com/docs/flex?x=1");
}

#[test]
fn anchor_at_end_is_removed() {
    assert_eq!(
        strip_anchor("https://tailwindcss.com/docs/flex#content-wrapper"),
        "https://tailwindcss.com/docs/flex"
    );
}

#[test]
fn every_anchor_occurrence_is_removed() {
    assert_eq!(strip_anchor("a#content-wrapperb#content-wrapperc"), "abc");
}

#[test]
fn rejoined_anchor_survives_one_pass() {
    // Removing the inner occurrence joins the halves around it into a new
    // occurrence, which a single left-to-right pass does not revisit.
    assert_eq!(strip_anchor("#content-wra#content-wrapperpper"), "#content-wrapper");
}

#[test]
fn url_without_anchor_is_unchanged() {
    assert_eq!(
        strip_anchor("https://tailwindcss.com/docs/flex#quick-reference"),
        "https://tailwindcss.com/docs/flex#quick-reference"
    );
}

#[test]
fn empty_lvl2_normalizes_to_absent_description() {
    let resp = AlgoliaResponse {
        results: vec![mk_block(vec![mk_hit("Flex", Some(""), "https://t.com/docs/flex")])],
    };
    let recs = normalize_response(&resp);
    assert_eq!(recs.len(), 1);
    assert!(recs[0].description.is_none());
}

#[test]
fn missing_lvl2_normalizes_to_absent_description() {
    let resp = AlgoliaResponse {
        results: vec![mk_block(vec![mk_hit("Flex", None, "https://t.com/docs/flex")])],
    };
    let recs = normalize_response(&resp);
    assert!(recs[0].description.is_none());
}

#[test]
fn present_lvl2_is_kept_as_description() {
    let resp = AlgoliaResponse {
        results: vec![mk_block(vec![mk_hit("Flex", Some("Setting flex"), "https://t.com/f")])],
    };
    let recs = normalize_response(&resp);
    assert_eq!(recs[0].description.as_deref(), Some("Setting flex"));
}

#[test]
fn hit_with_empty_label_is_dropped() {
    let resp = AlgoliaResponse {
        results: vec![mk_block(vec![
            mk_hit("", None, "https://t.com/a"),
            mk_hit("Kept", None, "https://t.com/b"),
        ])],
    };
    let recs = normalize_response(&resp);
    assert_eq!(recs.len(), 1);
    assert_eq!(recs[0].label, "Kept");
}

#[test]
fn hit_whose_url_strips_to_empty_is_dropped() {
    let resp = AlgoliaResponse {
        results: vec![mk_block(vec![mk_hit("Label", None, "#content-wrapper")])],
    };
    assert_eq!(normalize_response(&resp).len(), 0);
}
