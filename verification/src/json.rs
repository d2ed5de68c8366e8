use vstd::prelude::*;
use crate::engine::{define_data_property, function_value, js_string_value, js_undefined, new_object_value};
use crate::errors::HostError;

verus! {

/// The shape of one realized property as contracts see it: the script-side
/// content of an entry, with native functions left opaque.
pub enum EntryView {
    Undefined,
    Str(Seq<char>),
    Object(Seq<(Seq<char>, EntryView)>),
    Func,
}

/// A script-visible value this layer produces: undefined, a string, or an
/// object described by a property mapping.
pub enum ScriptValue {
    Undefined,
    Str(String),
    Object(Json),
}

/// One property entry: a static script value, or a zero-argument native
/// function.
pub enum JsonValue {
    Property(ScriptValue),
    Function(boa_engine::NativeFunction),
}

/// A name-to-entry mapping with unique keys, consumed by `build` to realize
/// a fresh script object. Iteration order follows insertion order.
pub struct Json {
    pub entries: Vec<(String, JsonValue)>,
}

pub open spec fn value_view(v: ScriptValue) -> EntryView
    decreases v,
{
    match v {
        ScriptValue::Undefined => EntryView::Undefined,
        ScriptValue::Str(s) => EntryView::Str(s@),
        ScriptValue::Object(m) => EntryView::Object(entries_view(m.entries@)),
    }
}

pub open spec fn entry_view(e: JsonValue) -> EntryView
    decreases e,
{
    match e {
        JsonValue::Property(v) => value_view(v),
        JsonValue::Function(_) => EntryView::Func,
    }
}

pub open spec fn entries_view(s: Seq<(String, JsonValue)>) -> Seq<(Seq<char>, EntryView)>
    decreases s,
{
    if s.len() == 0 {
        Seq::empty()
    } else {
        entries_view(s.drop_last()).push((s.last().0@, entry_view(s.last().1)))
    }
}

impl View for Json {
    type V = Seq<(Seq<char>, EntryView)>;

    open spec fn view(&self) -> Seq<(Seq<char>, EntryView)> {
        entries_view(self.entries@)
    }
}

pub proof fn lemma_entries_view_len(s: Seq<(String, JsonValue)>)
    ensures
        entries_view(s).len() == s.len(),
    decreases s,
{
    if s.len() > 0 {
        lemma_entries_view_len(s.drop_last());
    }
}

/// Whether some entry of the mapping view carries the key.
pub open spec fn view_contains_key(v: Seq<(Seq<char>, EntryView)>, k: Seq<char>) -> bool {
    exists|i: int| 0 <= i < v.len() && (#[trigger] v[i]).0 == k
}

impl Json {
    /// Keys are pairwise distinct.
    pub open spec fn wf(self) -> bool {
        forall|i: int, j: int|
            0 <= i < j < self@.len() ==> (#[trigger] self@[i]).0 != (#[trigger] self@[j]).0
    }

    pub open spec fn spec_contains_key(self, k: Seq<char>) -> bool {
        view_contains_key(self@, k)
    }

    /// The zero-entry mapping: the universal fallback result for the
    /// "no result" cases.
    pub fn empty() -> (r: Json)
        ensures
            r@ =~= Seq::<(Seq<char>, EntryView)>::empty(),
            r.wf(),
            forall|k: Seq<char>| !view_contains_key(r@, k),
    {
        let r = Json { entries: Vec::new() };
        proof {
            assert forall|k: Seq<char>| !view_contains_key(r@, k) by {
                assert(r@.len() == 0);
            }
        }
        r
    }

    /// Appends an entry under a key not yet present, keeping keys unique.
    pub fn insert(&mut self, key: String, e: JsonValue)
        requires
            !old(self).spec_contains_key(key@),
        ensures
            final(self)@ == old(self)@.push((key@, entry_view(e))),
            old(self).wf() ==> final(self).wf(),
            forall|k: Seq<char>|
                #[trigger] view_contains_key(final(self)@, k) <==> (view_contains_key(
                    old(self)@,
                    k,
                ) || k == key@),
    {
        let ghost prior = self.entries@;
        let ghost pushed = (key@, entry_view(e));
        self.entries.push((key, e));
        proof {
            assert(self.entries@.drop_last() =~= prior);
            lemma_entries_view_len(prior);
            let oldv = entries_view(prior);
            let newv = entries_view(self.entries@);
            assert(newv == oldv.push(pushed));
            assert forall|k: Seq<char>|
                #[trigger] view_contains_key(newv, k) <==> (view_contains_key(oldv, k) || k
                    == pushed.0) by {
                if view_contains_key(newv, k) {
                    let i = choose|i: int| 0 <= i < newv.len() && newv[i].0 == k;
                    if i < oldv.len() {
                        assert(newv[i] == oldv[i]);
                        assert(view_contains_key(oldv, k));
                    } else {
                        assert(newv[i] == pushed);
                    }
                }
                if view_contains_key(oldv, k) {
                    let i = choose|i: int| 0 <= i < oldv.len() && oldv[i].0 == k;
                    assert(newv[i] == oldv[i]);
                    assert(view_contains_key(newv, k));
                }
                if k == pushed.0 {
                    assert(newv[oldv.len() as int] == pushed);
                    assert(view_contains_key(newv, k));
                }
            }
        }
    }

    /// The number of entries.
    pub fn entry_count(&self) -> (n: usize)
        ensures
            n == self@.len(),
    {
        proof {
            lemma_entries_view_len(self.entries@);
        }
        self.entries.len()
    }

    /// Wraps this mapping so a built object can stand as a property value
    /// inside another mapping (a nested placeholder object).
    pub fn nested(self) -> (r: JsonValue)
        ensures
            entry_view(r) == EntryView::Object(self@),
    {
        JsonValue::Property(ScriptValue::Object(self))
    }

    /// Realizes every entry, in insertion order, as an enumerable, writable,
    /// configurable property of a freshly created script object; no entry is
    /// omitted or renamed. Building the empty mapping always succeeds: no
    /// fallible engine call runs for it. The mapping itself is never changed
    /// by a build, so later builds from it start from the same entries.
    pub fn build(&self, ctx: &mut boa_engine::Context) -> (r: Result<boa_engine::JsValue, HostError>)
        ensures
            r matches Err(e) ==> e == HostError::Registration,
            self@.len() == 0 ==> r matches Ok(_),
        decreases *self,
    {
        proof {
            lemma_entries_view_len(self.entries@);
        }
        let obj = new_object_value(ctx);
        let n = self.entries.len();
        let mut i: usize = 0;
        while i < n
            invariant
                n == self.entries.len(),
                i <= n,
            decreases n - i,
        {
            let jv = match &self.entries[i].1 {
                JsonValue::Property(v) => {
                    proof {
                        assert(decreases_to!(*self => self.entries));
                    }
                    match realize_value(v, ctx) {
                        Ok(jv) => jv,
                        Err(e) => {
                            return Err(e);
                        },
                    }
                },
                JsonValue::Function(f) => function_value(self.entries[i].0.as_str(), f, ctx),
            };
            match define_data_property(&obj, self.entries[i].0.as_str(), jv, ctx) {
                Ok(()) => {},
                Err(e) => {
                    return Err(e);
                },
            }
            i = i + 1;
        }
        Ok(obj)
    }

    /// The built object as a script value; `build` already yields the
    /// object-typed value, so this is the same realization.
    pub fn object(&self, ctx: &mut boa_engine::Context) -> (r: Result<boa_engine::JsValue, HostError>)
        ensures
            r matches Err(e) ==> e == HostError::Registration,
            self@.len() == 0 ==> r matches Ok(_),
    {
        self.build(ctx)
    }
}

/// Realizes a single script value: undefined and strings directly, an object
/// by building its mapping. Undefined and string values always realize: only
/// property definition on an object can fail.
pub fn realize_value(v: &ScriptValue, ctx: &mut boa_engine::Context) -> (r: Result<
    boa_engine::JsValue,
    HostError,
>)
    ensures
        r matches Err(e) ==> e == HostError::Registration,
        (v matches ScriptValue::Undefined || v matches ScriptValue::Str(_)) ==> r matches Ok(_),
    decreases *v,
{
    match v {
        ScriptValue::Undefined => Ok(js_undefined()),
        ScriptValue::Str(s) => Ok(js_string_value(s.as_str())),
        ScriptValue::Object(m) => m.build(ctx),
    }
}

} // verus!
