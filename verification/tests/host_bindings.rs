use air_browser::doc_state::DocState;
use air_browser::host::make_context;
use boa_engine::{Context, Source};

fn sample_context() -> Context {
    let html = "<html><head></head><body><h1>Hello, world!</h1>\
                <p>This is a paragraph.</p></body></html>";
    let state = DocState::new(scraper::Html::parse_document(html));
    make_context(&state).unwrap()
}

fn eval_bool(ctx: &mut Context, src: &str) -> bool {
    ctx.eval(Source::from_bytes(src)).unwrap().as_boolean().unwrap()
}

fn eval_string(ctx: &mut Context, src: &str) -> String {
    ctx.eval(Source::from_bytes(src))
        .unwrap()
        .as_string()
        .unwrap()
        .to_std_string()
        .unwrap()
}

const CONSOLE_METHODS: [&str; 19] = [
    "log",
    "error",
    "table",
    "info",
    "warn",
    "debug",
    "trace",
    "dir",
    "dirxml",
    "group",
    "groupCollapsed",
    "groupEnd",
    "time",
    "timeEnd",
    "count",
    "assert",
    "profile",
    "profileEnd",
    "clear",
];

#[test]
fn console_methods_return_undefined() {
    let mut ctx = sample_context();
    for name in CONSOLE_METHODS {
        let bare = ctx.eval(Source::from_bytes(format!("console.{}()", name).as_str())).unwrap();
        assert!(bare.is_undefined(), "console.{} returned a value", name);
        let with_args = ctx
            .eval(Source::from_bytes(
                format!("console.{}(1, 'a', {{x: 1}}, [2], null, undefined)", name).as_str(),
            ))
            .unwrap();
        assert!(with_args.is_undefined(), "console.{} with args returned a value", name);
    }
}

#[test]
fn query_selector_h1_end_to_end() {
    let mut ctx = sample_context();
    assert_eq!(eval_string(&mut ctx, "document.querySelector('h1').textContent"), "Hello, world!");
    assert_eq!(eval_string(&mut ctx, "document.querySelector('h1').innerHTML"), "Hello, world!");
    assert_eq!(eval_string(&mut ctx, "document.querySelector('h1').tagName"), "h1");
    assert!(eval_bool(
        &mut ctx,
        "Object.keys(document.querySelector('h1').attributes).length === 0",
    ));
    assert!(eval_bool(&mut ctx, "Object.keys(document.querySelector('h1')).length === 4"));
}

#[test]
fn no_match_yields_object_with_no_own_properties() {
    let mut ctx = sample_context();
    assert!(eval_bool(&mut ctx, "Object.keys(document.querySelector('article')).length === 0"));
}

#[test]
fn non_string_argument_yields_empty_object() {
    let mut ctx = sample_context();
    assert!(eval_bool(&mut ctx, "Object.keys(document.querySelector(5)).length === 0"));
    assert!(eval_bool(&mut ctx, "Object.keys(document.querySelector(null)).length === 0"));
    assert!(eval_bool(&mut ctx, "Object.keys(document.querySelector()).length === 0"));
}

#[test]
fn invalid_selector_aborts_evaluation() {
    let mut ctx = sample_context();
    let r = ctx.eval(Source::from_bytes("document.querySelector('!!!')"));
    assert!(r.is_err());
}

#[test]
fn snapshots_are_independent_objects() {
    let mut ctx = sample_context();
    assert!(eval_bool(
        &mut ctx,
        "let a = document.querySelector('h1'); \
         let b = document.querySelector('h1'); \
         a.textContent = 'mutated'; \
         b.textContent === 'Hello, world!'",
    ));
    assert_eq!(eval_string(&mut ctx, "document.querySelector('h1').textContent"), "Hello, world!");
}

#[test]
fn snapshot_mutation_does_not_write_back() {
    let mut ctx = sample_context();
    assert!(eval_bool(
        &mut ctx,
        "let s = document.querySelector('p'); \
         s.textContent = 'rewritten'; \
         document.querySelector('p').textContent === 'This is a paragraph.'",
    ));
}

#[test]
fn snapshot_properties_are_writable_and_enumerable() {
    let mut ctx = sample_context();
    assert!(eval_bool(
        &mut ctx,
        "let d = Object.getOwnPropertyDescriptor(document.querySelector('h1'), 'tagName'); \
         d.writable && d.enumerable && d.configurable",
    ));
}
