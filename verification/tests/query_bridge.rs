use air_browser::doc_state::DocState;
use air_browser::errors::HostError;
use air_browser::json::{JsonValue, ScriptValue};
use air_browser::query::{query_selector, QueryArg};

fn sample_state() -> DocState {
    let html = "<html><head></head><body><h1>Hello, world!</h1>\
                <p>This is a paragraph.</p></body></html>";
    DocState::new(scraper::Html::parse_document(html))
}

fn string_property(entry: &JsonValue) -> &str {
    match entry {
        JsonValue::Property(ScriptValue::Str(s)) => s.as_str(),
        _ => panic!("expected a string property"),
    }
}

#[test]
fn no_match_yields_empty_mapping() {
    let state = sample_state();
    let r = query_selector(&state, &QueryArg::Text("article".to_string())).unwrap();
    assert_eq!(r.entry_count(), 0);
}

#[test]
fn unmatched_class_selector_yields_empty_mapping() {
    let state = sample_state();
    let r = query_selector(&state, &QueryArg::Text("div.missing".to_string())).unwrap();
    assert_eq!(r.entry_count(), 0);
}

#[test]
fn absent_argument_yields_empty_mapping() {
    let state = sample_state();
    let r = query_selector(&state, &QueryArg::Absent).unwrap();
    assert_eq!(r.entry_count(), 0);
}

#[test]
fn non_string_argument_yields_empty_mapping() {
    let state = sample_state();
    let r = query_selector(&state, &QueryArg::NonString).unwrap();
    assert_eq!(r.entry_count(), 0);
}

#[test]
fn h1_snapshot_has_exactly_four_fields() {
    let state = sample_state();
    let r = query_selector(&state, &QueryArg::Text("h1".to_string())).unwrap();
    assert_eq!(r.entry_count(), 4);
    assert_eq!(r.entries[0].0, "textContent");
    assert_eq!(string_property(&r.entries[0].1), "Hello, world!");
    assert_eq!(r.entries[1].0, "innerHTML");
    assert_eq!(string_property(&r.entries[1].1), "Hello, world!");
    assert_eq!(r.entries[2].0, "tagName");
    assert_eq!(string_property(&r.entries[2].1), "h1");
    assert_eq!(r.entries[3].0, "attributes");
    match &r.entries[3].1 {
        JsonValue::Property(ScriptValue::Object(m)) => assert_eq!(m.entries.len(), 0),
        _ => panic!("expected a nested object"),
    }
}

#[test]
fn invalid_selector_is_fatal() {
    let state = sample_state();
    match query_selector(&state, &QueryArg::Text("!!!".to_string())) {
        Err(e) => assert_eq!(e, HostError::InvalidSelector),
        Ok(_) => panic!("expected a fatal selector error"),
    }
}

#[test]
fn invalid_selector_message() {
    assert_eq!(HostError::InvalidSelector.message(), "invalid selector");
    assert_eq!(HostError::Poisoned.message(), "document guard poisoned");
    assert_eq!(HostError::Registration.message(), "global registration failed");
}

#[test]
fn manipulate_is_visible_to_later_queries() {
    let state = sample_state();
    let before = query_selector(&state, &QueryArg::Text("h1".to_string())).unwrap();
    assert_eq!(string_property(&before.entries[0].1), "Hello, world!");
    state
        .manipulate(|doc| {
            *doc = scraper::Html::parse_document(
                "<html><body><h1>Changed heading</h1></body></html>",
            );
        })
        .unwrap();
    let after = query_selector(&state, &QueryArg::Text("h1".to_string())).unwrap();
    assert_eq!(string_property(&after.entries[0].1), "Changed heading");
}

#[test]
fn cloned_reference_shares_the_document() {
    let state = sample_state();
    let other = state.clone_reference();
    state
        .manipulate(|doc| {
            *doc = scraper::Html::parse_document("<html><body><h1>Shared</h1></body></html>");
        })
        .unwrap();
    let seen = query_selector(&other, &QueryArg::Text("h1".to_string())).unwrap();
    assert_eq!(string_property(&seen.entries[0].1), "Shared");
}

#[test]
fn snapshot_is_detached_from_later_mutation() {
    let state = sample_state();
    let snapshot = query_selector(&state, &QueryArg::Text("h1".to_string())).unwrap();
    state
        .manipulate(|doc| {
            *doc = scraper::Html::parse_document("<html><body><h1>Later</h1></body></html>");
        })
        .unwrap();
    assert_eq!(string_property(&snapshot.entries[0].1), "Hello, world!");
}

#[test]
fn read_value_grants_shared_access() {
    let state = sample_state();
    let first = state.read_value().unwrap();
    let second = state.read_value().unwrap();
    drop(first);
    drop(second);
}

#[test]
fn write_value_grants_exclusive_mutation() {
    let state = sample_state();
    {
        let mut guard = state.write_value().unwrap();
        *guard = scraper::Html::parse_document("<html><body><h1>Rewritten</h1></body></html>");
    }
    let seen = query_selector(&state, &QueryArg::Text("h1".to_string())).unwrap();
    assert_eq!(string_property(&seen.entries[0].1), "Rewritten");
}

#[test]
fn projecting_no_match_is_the_empty_mapping() {
    let r = air_browser::query::project_match(None);
    assert_eq!(r.entry_count(), 0);
}

#[test]
fn projecting_a_match_is_the_snapshot_mapping() {
    let snap = air_browser::query::ElementSnapshot {
        text_content: "text".to_string(),
        inner_html: "<b>text</b>".to_string(),
        tag_name: "p".to_string(),
    };
    let r = air_browser::query::project_match(Some(snap));
    assert_eq!(r.entry_count(), 4);
    assert_eq!(r.entries[0].0, "textContent");
    assert_eq!(string_property(&r.entries[0].1), "text");
    assert_eq!(r.entries[1].0, "innerHTML");
    assert_eq!(string_property(&r.entries[1].1), "<b>text</b>");
    assert_eq!(r.entries[2].0, "tagName");
    assert_eq!(string_property(&r.entries[2].1), "p");
    assert_eq!(r.entries[3].0, "attributes");
}
