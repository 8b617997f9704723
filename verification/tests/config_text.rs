use tailwind_bot::algolia::{build_search_body, build_search_url, HITS_PER_PAGE};
use tailwind_bot::config::{Config, ConfigError};
use tailwind_bot::text::{parse_u64, remove_all_str, u64_to_dec};

#[test]
fn decimal_rendering_is_exact() {
    assert_eq!(u64_to_dec(0), "0");
    assert_eq!(u64_to_dec(5), "5");
    assert_eq!(u64_to_dec(60), "60");
    assert_eq!(u64_to_dec(1234567890), "1234567890");
    assert_eq!(u64_to_dec(u64::MAX), "18446744073709551615");
}

#[test]
fn decimal_parsing_accepts_digit_strings() {
    assert_eq!(parse_u64("0"), Some(0));
    assert_eq!(parse_u64("42"), Some(42));
    assert_eq!(parse_u64("007"), Some(7));
    assert_eq!(parse_u64("18446744073709551615"), Some(u64::MAX));
}

#[test]
fn decimal_parsing_rejects_bad_input() {
    assert_eq!(parse_u64(""), None);
    assert_eq!(parse_u64("12a"), None);
    assert_eq!(parse_u64("-1"), None);
    assert_eq!(parse_u64(" 1"), None);
    assert_eq!(parse_u64("18446744073709551616"), None);
}

#[test]
fn substring_removal_scans_left_to_right() {
    assert_eq!(remove_all_str("banana", "an"), "ba");
    assert_eq!(remove_all_str("banana", "xy"), "banana");
    assert_eq!(remove_all_str("", "an"), "");
}

#[test]
fn search_url_names_the_application_host() {
    assert_eq!(build_search_url("APP123"), "https://APP123-dsn.algolia.net/1/indexes/*/queries");
}

#[test]
fn search_body_carries_query_cap_and_version() {
    assert_eq!(HITS_PER_PAGE, 5);
    let body = build_search_body("flex", "3");
    let expected = format!(
        "{}{}{}{}{}{}",
        "{\"requests\":[{\"indexName\":\"tailwindcss\",\"query\":\"",
        "flex",
        "\",\"params\":\"hitsPerPage=5",
        "&highlightPreTag=%2A%2A&highlightPostTag=%2A%2A&attributesToRetrieve=%5B%22hierarchy.lvl0%22%2C%22hierarchy.lvl1%22%2C%22hierarchy.lvl2%22%2C%22hierarchy.lvl3%22%2C%22hierarchy.lvl4%22%2C%22hierarchy.lvl5%22%2C%22hierarchy.lvl6%22%2C%22content%22%2C%22type%22%2C%22url%22%5D&attributesToSnippet=%5B%22hierarchy.lvl1%3A10%22%2C%22hierarchy.lvl2%3A10%22%2C%22hierarchy.lvl3%3A10%22%2C%22hierarchy.lvl4%3A10%22%2C%22hierarchy.lvl5%3A10%22%2C%22hierarchy.lvl6%3A10%22%2C%22content%3A10%22%5D&snippetEllipsisText=%E2%80%A6&facetFilters=version%3Av",
        "3",
        "&distinct=1\"}]}"
    );
    assert_eq!(body, expected);
}

fn full_values() -> (Option<String>, Option<String>, Option<String>, Option<String>, Option<String>)
{
    (
        Some(String::from("key")),
        Some(String::from("APP123")),
        Some(String::from("3")),
        Some(String::from("token")),
        Some(String::from("858059701580070942")),
    )
}

#[test]
fn config_with_all_values_succeeds() {
    let (k, a, v, t, i) = full_values();
    let c = Config::from_values(k, a, v, t, i).expect("all values present");
    assert_eq!(c.algolia_api_key, "key");
    assert_eq!(c.algolia_app_id, "APP123");
    assert_eq!(c.tailwind_version, "3");
    assert_eq!(c.discord_token, "token");
    assert_eq!(c.application_id, 858059701580070942);
}

#[test]
fn config_missing_api_key_is_fatal() {
    let (_, a, v, t, i) = full_values();
    let r = Config::from_values(None, a, v, t, i);
    assert!(matches!(r, Err(ConfigError::MissingApiKey)));
}

#[test]
fn config_missing_app_id_is_fatal() {
    let (k, _, v, t, i) = full_values();
    let r = Config::from_values(k, None, v, t, i);
    assert!(matches!(r, Err(ConfigError::MissingAppId)));
}

#[test]
fn config_missing_version_is_fatal() {
    let (k, a, _, t, i) = full_values();
    let r = Config::from_values(k, a, None, t, i);
    assert!(matches!(r, Err(ConfigError::MissingVersion)));
}

#[test]
fn config_missing_token_is_fatal() {
    let (k, a, v, _, i) = full_values();
    let r = Config::from_values(k, a, v, None, i);
    assert!(matches!(r, Err(ConfigError::MissingToken)));
}

#[test]
fn config_missing_application_id_is_fatal() {
    let (k, a, v, t, _) = full_values();
    let r = Config::from_values(k, a, v, t, None);
    assert!(matches!(r, Err(ConfigError::MissingApplicationId)));
}

#[test]
fn config_malformed_application_id_is_fatal() {
    let (k, a, v, t, _) = full_values();
    let r = Config::from_values(k, a, v, t, Some(String::from("not-a-number")));
    assert!(matches!(r, Err(ConfigError::InvalidApplicationId)));
}
