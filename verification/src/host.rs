use vstd::prelude::*;
use vstd::string::StringExecFns;
use crate::doc_state::DocState;
use crate::engine::{native_query_selector, new_context, register_global, undefined_native_fn};
use crate::errors::HostError;
use crate::json::{EntryView, Json, JsonValue};
use crate::markup::selector_ok;
use crate::query::{query_selector, QueryArg};

verus! {

/// The verified half of the querySelector callback: runs the query bridge and
/// realizes the resulting mapping as a script value. A missing or non-string
/// argument always succeeds, with the realized empty object and no error; a
/// string the selector grammar rejects is exactly the invalid-selector error.
pub(crate) fn query_selector_value(
    doc: &DocState,
    arg: &QueryArg,
    ctx: &mut boa_engine::Context,
) -> (r: Result<boa_engine::JsValue, HostError>)
    ensures
        (arg matches QueryArg::Absent || arg matches QueryArg::NonString) ==> r matches Ok(_),
        (arg matches QueryArg::Text(s) && !selector_ok(s@)) ==> r == Err::<
            boa_engine::JsValue,
            HostError,
        >(HostError::InvalidSelector),
{
    let m = match query_selector(doc, arg) {
        Ok(m) => m,
        Err(e) => {
            return Err(e);
        },
    };
    m.build(ctx)
}

/// The fixed diagnostic surface: each name is bound to a native function that
/// accepts any arguments, has no observable side effect, and returns
/// undefined.
pub open spec fn console_view() -> Seq<(Seq<char>, EntryView)> {
    seq![
        ("log"@, EntryView::Func),
        ("error"@, EntryView::Func),
        ("table"@, EntryView::Func),
        ("info"@, EntryView::Func),
        ("warn"@, EntryView::Func),
        ("debug"@, EntryView::Func),
        ("trace"@, EntryView::Func),
        ("dir"@, EntryView::Func),
        ("dirxml"@, EntryView::Func),
        ("group"@, EntryView::Func),
        ("groupCollapsed"@, EntryView::Func),
        ("groupEnd"@, EntryView::Func),
        ("time"@, EntryView::Func),
        ("timeEnd"@, EntryView::Func),
        ("count"@, EntryView::Func),
        ("assert"@, EntryView::Func),
        ("profile"@, EntryView::Func),
        ("profileEnd"@, EntryView::Func),
        ("clear"@, EntryView::Func),
    ]
}

/// The console mapping: every diagnostic method name, each bound to the
/// undefined-returning native function, no name omitted or repeated.
#[verifier::rlimit(50)]
pub fn console_mapping() -> (r: Json)
    ensures
        r@ =~= console_view(),
        r.wf(),
{
    proof {
        reveal_strlit("log");
        reveal_strlit("error");
        reveal_strlit("table");
        reveal_strlit("info");
        reveal_strlit("warn");
        reveal_strlit("debug");
        reveal_strlit("trace");
        reveal_strlit("dir");
        reveal_strlit("dirxml");
        reveal_strlit("group");
        reveal_strlit("groupCollapsed");
        reveal_strlit("groupEnd");
        reveal_strlit("time");
        reveal_strlit("timeEnd");
        reveal_strlit("count");
        reveal_strlit("assert");
        reveal_strlit("profile");
        reveal_strlit("profileEnd");
        reveal_strlit("clear");
        assert("log"@.len() == 3 && "log"@[0] == 'l' && "log"@[1] == 'o');
        assert("error"@.len() == 5 && "error"@[0] == 'e' && "error"@[1] == 'r');
        assert("table"@.len() == 5 && "table"@[0] == 't' && "table"@[1] == 'a');
        assert("info"@.len() == 4 && "info"@[0] == 'i' && "info"@[1] == 'n');
        assert("warn"@.len() == 4 && "warn"@[0] == 'w' && "warn"@[1] == 'a');
        assert("debug"@.len() == 5 && "debug"@[0] == 'd' && "debug"@[1] == 'e');
        assert("trace"@.len() == 5 && "trace"@[0] == 't' && "trace"@[1] == 'r');
        assert("dir"@.len() == 3 && "dir"@[0] == 'd' && "dir"@[1] == 'i');
        assert("dirxml"@.len() == 6 && "dirxml"@[0] == 'd' && "dirxml"@[1] == 'i');
        assert("group"@.len() == 5 && "group"@[0] == 'g' && "group"@[1] == 'r');
        assert("groupCollapsed"@.len() == 14 && "groupCollapsed"@[0] == 'g');
        assert("groupEnd"@.len() == 8 && "groupEnd"@[0] == 'g');
        assert("time"@.len() == 4 && "time"@[0] == 't' && "time"@[1] == 'i');
        assert("timeEnd"@.len() == 7 && "timeEnd"@[0] == 't' && "timeEnd"@[1] == 'i');
        assert("count"@.len() == 5 && "count"@[0] == 'c' && "count"@[1] == 'o');
        assert("assert"@.len() == 6 && "assert"@[0] == 'a' && "assert"@[1] == 's');
        assert("profile"@.len() == 7 && "profile"@[0] == 'p' && "profile"@[1] == 'r');
        assert("profileEnd"@.len() == 10 && "profileEnd"@[0] == 'p');
        assert("clear"@.len() == 5 && "clear"@[0] == 'c' && "clear"@[1] == 'l');
    }
    let mut m = Json::empty();
    m.insert(String::from_str("log"), JsonValue::Function(undefined_native_fn()));
    m.insert(String::from_str("error"), JsonValue::Function(undefined_native_fn()));
    m.insert(String::from_str("table"), JsonValue::Function(undefined_native_fn()));
    m.insert(String::from_str("info"), JsonValue::Function(undefined_native_fn()));
    m.insert(String::from_str("warn"), JsonValue::Function(undefined_native_fn()));
    m.insert(String::from_str("debug"), JsonValue::Function(undefined_native_fn()));
    m.insert(String::from_str("trace"), JsonValue::Function(undefined_native_fn()));
    m.insert(String::from_str("dir"), JsonValue::Function(undefined_native_fn()));
    m.insert(String::from_str("dirxml"), JsonValue::Function(undefined_native_fn()));
    m.insert(String::from_str("group"), JsonValue::Function(undefined_native_fn()));
    m.insert(String::from_str("groupCollapsed"), JsonValue::Function(undefined_native_fn()));
    m.insert(String::from_str("groupEnd"), JsonValue::Function(undefined_native_fn()));
    m.insert(String::from_str("time"), JsonValue::Function(undefined_native_fn()));
    m.insert(String::from_str("timeEnd"), JsonValue::Function(undefined_native_fn()));
    m.insert(String::from_str("count"), JsonValue::Function(undefined_native_fn()));
    m.insert(String::from_str("assert"), JsonValue::Function(undefined_native_fn()));
    m.insert(String::from_str("profile"), JsonValue::Function(undefined_native_fn()));
    m.insert(String::from_str("profileEnd"), JsonValue::Function(undefined_native_fn()));
    m.insert(String::from_str("clear"), JsonValue::Function(undefined_native_fn()));
    m
}

/// Binds the diagnostic surface under the global name `console`. Registration
/// failure is fatal to context construction.
pub fn add_console(ctx: &mut boa_engine::Context) -> (r: Result<(), HostError>)
    ensures
        r matches Err(e) ==> e == HostError::Registration,
{
    let m = console_mapping();
    let obj = match m.build(ctx) {
        Ok(o) => o,
        Err(e) => {
            return Err(e);
        },
    };
    register_global(ctx, "console", obj)
}

/// Binds the single-element query surface under the global name `document`:
/// one function, `querySelector`, closing over a callback handle derived from
/// the shared document. Registration failure is fatal to context
/// construction.
pub fn add_document(ctx: &mut boa_engine::Context, doc: &DocState) -> (r: Result<(), HostError>)
    ensures
        r matches Err(e) ==> e == HostError::Registration,
{
    proof {
        reveal_strlit("querySelector");
    }
    let handle = doc.clone_reference();
    let f = native_query_selector(handle);
    let mut m = Json::empty();
    m.insert(String::from_str("querySelector"), JsonValue::Function(f));
    let obj = match m.build(ctx) {
        Ok(o) => o,
        Err(e) => {
            return Err(e);
        },
    };
    register_global(ctx, "document", obj)
}

/// Creates a script execution context with both global bindings installed,
/// once per session. Any registration failure aborts construction.
pub fn make_context(doc: &DocState) -> (r: Result<boa_engine::Context, HostError>)
    ensures
        r matches Err(e) ==> e == HostError::Registration,
{
    let mut ctx = new_context();
    match add_console(&mut ctx) {
        Ok(()) => {},
        Err(e) => {
            return Err(e);
        },
    }
    match add_document(&mut ctx, doc) {
        Ok(()) => {},
        Err(e) => {
            return Err(e);
        },
    }
    Ok(ctx)
}

} // verus!
