use pi_coding::json::{Json, JsonNumber};
use pi_coding::tools::web_search::{
    build_url, format_results, offline_disabled_from, parse_ddg_response, plan_search,
    render_search, split_text, url_escape, SearchResult,
};

fn convert(value: &serde_json::Value) -> Json {
    match value {
        serde_json::Value::Null => Json::Null,
        serde_json::Value::Bool(b) => Json::Bool(*b),
        serde_json::Value::Number(n) => {
            Json::Number(JsonNumber { unsigned: n.as_u64(), shown: n.to_string() })
        }
        serde_json::Value::String(s) => Json::Text(s.clone()),
        serde_json::Value::Array(v) => Json::List(v.iter().map(convert).collect()),
        serde_json::Value::Object(m) => {
            Json::Object(m.iter().map(|(k, v)| (k.clone(), convert(v))).collect())
        }
    }
}

fn json(text: &str) -> Json {
    convert(&serde_json::from_str(text).expect("valid JSON"))
}

#[test]
fn offline_disabled_from_parses_truthy_values() {
    for v in ["1", "true", "TRUE", "Yes", " yes "] {
        assert!(offline_disabled_from(Some(v)), "expected {v:?} to be on");
    }
    for v in [None, Some(""), Some("0"), Some("false"), Some("no"), Some("yep"), Some("2")] {
        assert!(!offline_disabled_from(v), "expected {v:?} to be off");
    }
}

#[test]
fn offline_flag_short_circuits_before_network() {
    let err = plan_search(true, "test", None).unwrap_err();
    assert!(
        err.contains("web_search is disabled while PI_OFFLINE is set"),
        "unexpected offline error: {err}"
    );
}

#[test]
fn empty_query_is_rejected_without_network() {
    let err = plan_search(false, "   ", None).unwrap_err();
    assert!(err.contains("query must not be empty"), "{err}");
}

#[test]
fn the_number_of_results_is_clamped() {
    for (given, expected) in [(None, 5), (Some(0), 1), (Some(-3), 1), (Some(7), 7), (Some(11), 10)] {
        let plan = plan_search(false, "q", given).unwrap();
        assert_eq!(plan.max_results, expected, "{given:?}");
        assert_eq!(plan.url, build_url("q"));
    }
}

#[test]
fn build_url_encodes_query_and_pins_params() {
    let url = build_url("rust async await");
    assert_eq!(
        url,
        "https://api.duckduckgo.com/?q=rust%20async%20await&format=json&no_html=1&skip_disambig=1&t=rpi"
    );
    let url2 = build_url("a&b=c");
    assert!(url2.contains("a%26b%3Dc"), "{url2}");
}

#[test]
fn escaping_works_on_bytes() {
    assert_eq!(url_escape("é~-_.Z9"), "%C3%A9~-_.Z9");
    assert_eq!(url_escape("\u{7f}/"), "%7F%2F");
}

#[test]
fn parse_abstract_and_related_topics() {
    let body = json(
        r#"{
            "Heading": "Rust (programming language)",
            "AbstractText": "Rust is a systems programming language.",
            "AbstractURL": "https://www.rust-lang.org/",
            "RelatedTopics": [
                { "Text": "Cargo - Rust's package manager", "FirstURL": "https://doc.rust-lang.org/cargo/" },
                { "Text": "Crates.io - registry", "FirstURL": "https://crates.io/" },
                { "Text": "bad", "FirstURL": "//duckduckgo.com/x" },
                { "Topics": [{ "Text": "Tokio - async runtime", "FirstURL": "https://tokio.rs/" }] }
            ]
        }"#,
    );
    let results = parse_ddg_response(&body, 10);
    assert_eq!(results.len(), 4);
    assert_eq!(results[0].title, "Rust (programming language)");
    assert_eq!(results[0].url, "https://www.rust-lang.org/");
    assert_eq!(results[1].title, "Cargo");
    assert_eq!(results[1].snippet, "Rust's package manager");
    assert_eq!(results[2].title, "Crates.io");
    assert_eq!(results[3].title, "Tokio");
    assert_eq!(results[3].url, "https://tokio.rs/");
}

#[test]
fn parse_falls_back_to_related_topics_when_abstract_empty() {
    let body = json(
        r#"{
            "Heading": "",
            "AbstractText": "",
            "AbstractURL": "",
            "RelatedTopics": [{ "Text": "Only - one result", "FirstURL": "https://example.com/" }]
        }"#,
    );
    let results = parse_ddg_response(&body, 5);
    assert_eq!(results.len(), 1);
    assert_eq!(results[0].title, "Only");
    assert_eq!(results[0].snippet, "one result");
}

#[test]
fn parse_no_results_when_empty() {
    let body = json(r#"{ "Heading": "", "AbstractText": "", "AbstractURL": "", "RelatedTopics": [] }"#);
    let results = parse_ddg_response(&body, 5);
    assert!(results.is_empty());
    assert_eq!(format_results(&results), "No results");
}

#[test]
fn parse_respects_max_results() {
    let body = json(
        r#"{
            "RelatedTopics": [
                { "Text": "a - 1", "FirstURL": "https://a/" },
                { "Text": "b - 2", "FirstURL": "https://b/" },
                { "Text": "c - 3", "FirstURL": "https://c/" }
            ]
        }"#,
    );
    let results = parse_ddg_response(&body, 2);
    assert_eq!(results.len(), 2);
    assert_eq!(results[0].title, "a");
}

#[test]
fn groups_are_entered_once() {
    let body = json(
        r#"{
            "RelatedTopics": [
                { "Topics": [
                    { "Text": "a - 1", "FirstURL": "https://a/" },
                    { "Topics": [{ "Text": "b - 2", "FirstURL": "https://b/" }] }
                ] }
            ]
        }"#,
    );
    let results = parse_ddg_response(&body, 9);
    assert_eq!(results.len(), 1);
    assert_eq!(results[0].title, "a");
}

#[test]
fn format_results_renders_blocks() {
    let results = vec![
        SearchResult { title: "T".into(), url: "https://u/".into(), snippet: "S".into() },
        SearchResult { title: "".into(), url: "https://v/".into(), snippet: "no title".into() },
    ];
    let out = format_results(&results);
    assert_eq!(out, "T\nhttps://u/\nS\n---\nhttps://v/\nno title");
}

#[test]
fn rendered_searches_stay_within_the_budget() {
    let long = "word ".repeat(2000);
    let body = json(&format!(
        r#"{{ "RelatedTopics": [
            {{ "Text": "a - 1", "FirstURL": "https://a/" }},
            {{ "Text": "{long}", "FirstURL": "https://b/" }} ] }}"#
    ));
    let out = render_search(&body, 5);
    assert!(out.len() <= 4096);
    assert_eq!(out, "a\nhttps://a/\n1\n---\nhttps://b/");
}

#[test]
fn topics_split_at_the_first_dash() {
    let split = |s: &str| split_text(s);
    assert_eq!(split(" Rust - A language - fast "), ("Rust".to_owned(), "A language - fast".to_owned()));
    assert_eq!(split("no dash"), (String::new(), "no dash".to_owned()));
    assert_eq!(split(""), (String::new(), String::new()));
}
