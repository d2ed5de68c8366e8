use vstd::prelude::*;
use crate::doc_state::DocState;
use crate::errors::HostError;
use crate::query::QueryArg;

verus! {

#[verifier::external_type_specification]
#[verifier::external_body]
pub struct ExContext(boa_engine::Context);

#[verifier::external_type_specification]
#[verifier::external_body]
pub struct ExJsValue(boa_engine::JsValue);

#[verifier::external_type_specification]
#[verifier::external_body]
pub struct ExNativeFunction(boa_engine::NativeFunction);

#[verifier::external_type_specification]
#[verifier::external_body]
pub struct ExJsError(boa_engine::JsError);

/// Relies on boa_engine::Context::default: a fresh script execution context
/// with the default realm. Panics only if that default context cannot be
/// built at all, which no input of this library influences.
#[verifier::external_body]
pub(crate) fn new_context() -> boa_engine::Context {
    boa_engine::Context::default()
}

/// Relies on boa_engine::JsValue::undefined: the undefined script value.
#[verifier::external_body]
pub(crate) fn js_undefined() -> boa_engine::JsValue {
    boa_engine::JsValue::undefined()
}

/// Relies on boa_engine::JsString::from: a string-typed script value holding
/// the UTF-16 re-encoding of the given text.
#[verifier::external_body]
pub(crate) fn js_string_value(s: &str) -> boa_engine::JsValue {
    boa_engine::JsValue::from(boa_engine::JsString::from(s))
}

/// Relies on boa_engine::object::JsObject::with_object_proto: a freshly
/// created empty script object with the realm's ordinary object prototype,
/// as an object-typed value.
#[verifier::external_body]
pub(crate) fn new_object_value(ctx: &mut boa_engine::Context) -> boa_engine::JsValue {
    boa_engine::JsValue::from(boa_engine::object::JsObject::with_object_proto(ctx.intrinsics()))
}

/// Relies on boa_engine::object::JsObject::create_data_property_or_throw:
/// defines an enumerable, writable, configurable data property on the target
/// object; rejection by the runtime is reported, and a non-object target is
/// reported the same way.
#[verifier::external_body]
pub(crate) fn define_data_property(
    target: &boa_engine::JsValue,
    key: &str,
    value: boa_engine::JsValue,
    ctx: &mut boa_engine::Context,
) -> (r: Result<(), HostError>)
    ensures
        r matches Err(e) ==> e == HostError::Registration,
{
    match target.as_object() {
        Some(obj) => match obj.create_data_property_or_throw(
            boa_engine::JsString::from(key),
            value,
            ctx,
        ) {
            Ok(_) => Ok(()),
            Err(_) => Err(HostError::Registration),
        },
        None => Err(HostError::Registration),
    }
}

/// Relies on boa_engine::object::FunctionObjectBuilder: a function object
/// binding the given native function under the given name, taking zero
/// declared arguments, as an object-typed value.
#[verifier::external_body]
pub(crate) fn function_value(
    name: &str,
    f: &boa_engine::NativeFunction,
    ctx: &mut boa_engine::Context,
) -> boa_engine::JsValue {
    let fun = boa_engine::object::FunctionObjectBuilder::new(ctx.realm(), f.clone())
        .name(boa_engine::JsString::from(name))
        .length(0)
        .build();
    boa_engine::JsValue::from(fun)
}

/// The body behind every diagnostic binding: ignores its arguments, performs
/// no observable side effect, and returns undefined, never an error.
fn return_undefined(
    _this: &boa_engine::JsValue,
    _args: &[boa_engine::JsValue],
    _ctx: &mut boa_engine::Context,
) -> (r: Result<boa_engine::JsValue, boa_engine::JsError>)
    ensures
        r matches Ok(_),
{
    Ok(js_undefined())
}

/// Relies on boa_engine::NativeFunction::from_fn_ptr: a native function that
/// ignores its arguments, performs no observable side effect, and returns
/// undefined.
#[verifier::external_body]
pub(crate) fn undefined_native_fn() -> boa_engine::NativeFunction {
    boa_engine::NativeFunction::from_fn_ptr(return_undefined)
}

/// Relies on boa_engine::Context::register_global_property: binds the value
/// under the given global name with enumerable, writable, configurable
/// attributes; rejection by the runtime is reported.
#[verifier::external_body]
pub(crate) fn register_global(
    ctx: &mut boa_engine::Context,
    name: &str,
    value: boa_engine::JsValue,
) -> (r: Result<(), HostError>)
    ensures
        r matches Err(e) ==> e == HostError::Registration,
{
    match ctx.register_global_property(
        boa_engine::JsString::from(name),
        value,
        boa_engine::property::Attribute::all(),
    ) {
        Ok(()) => Ok(()),
        Err(_) => Err(HostError::Registration),
    }
}

/// Relies on boa_engine::JsValue::as_string and JsString::to_std_string:
/// a missing first argument maps to Absent; a non-string first argument, or
/// one whose UTF-16 content is not valid Unicode (lone surrogates), maps to
/// NonString — a deliberate permissive reading: such an argument takes the
/// empty-object fallback rather than raising an error.
#[verifier::external_body]
pub(crate) fn classify_first_arg(args: &[boa_engine::JsValue]) -> QueryArg {
    match args.first() {
        None => QueryArg::Absent,
        Some(v) => match v.as_string() {
            None => QueryArg::NonString,
            Some(js) => match js.to_std_string() {
                Ok(s) => QueryArg::Text(s),
                Err(_) => QueryArg::NonString,
            },
        },
    }
}

/// Relies on boa_engine::JsNativeError: an evaluation-level error carrying
/// the given human-readable message.
#[verifier::external_body]
pub(crate) fn js_error(msg: &str) -> boa_engine::JsError {
    boa_engine::JsError::from(boa_engine::JsNativeError::error().with_message(String::from(msg)))
}

/// The body behind `document.querySelector`: unmarshals the first argument,
/// dispatches to the verified `query_selector_value`, and maps a fatal bridge
/// error to an evaluation error.
#[verifier::external_body]
fn run_query_selector(
    _this: &boa_engine::JsValue,
    args: &[boa_engine::JsValue],
    captures: &&'static DocState,
    ctx: &mut boa_engine::Context,
) -> Result<boa_engine::JsValue, boa_engine::JsError> {
    let arg = classify_first_arg(args);
    match crate::host::query_selector_value(*captures, &arg, ctx) {
        Ok(v) => Ok(v),
        Err(e) => Err(js_error(e.message().as_str())),
    }
}

/// Relies on boa_engine::NativeFunction::from_copy_closure_with_captures:
/// a native function that closes over a durable document handle and runs the
/// query bridge on each call. The handle is kept alive for the process via
/// Box::leak, since the engine accepts only Copy callables with traceable
/// captures, and a plain reference is the traceable form of this handle.
#[verifier::external_body]
pub(crate) fn native_query_selector(doc: DocState) -> boa_engine::NativeFunction {
    let handle: &'static DocState = Box::leak(Box::new(doc));
    boa_engine::NativeFunction::from_copy_closure_with_captures(run_query_selector, handle)
}

} // verus!
