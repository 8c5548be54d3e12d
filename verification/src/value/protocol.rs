//! The operations that every value takes, whatever it holds: attribute
//! lookup, enumeration and invocation.
//!
//! A value that holds data answers by itself. A value that holds an object
//! hands the operation to the object; what a loop or a macro answers is
//! stated here as it is there.

use vstd::prelude::*;
use vstd::string::StrSliceExecFns;
use vstd::string::StringExecFns;
use crate::error::{Error, ErrorView};
use crate::text::{bytes_text, decode_lossy, integer_text, push_decimal, push_integer};
use crate::value::map::lookup;
use crate::value::object::{
    call_view, method_view, refusal, refuse_call, static_names, CallOutcome, CallOutcomeView,
    Enumeration, Object, ObjectEq, ObjectRepr,
};
use crate::value::{
    lemma_macro_view, lemma_mapping_view, lemma_sequence_view, option_view, seq_view, StringType,
    Value, ValueRepr, ValueView,
};
use crate::vm::loop_object::{is_loop_call, is_loop_value, loop_keys, loop_render};
use crate::vm::macro_object::{macro_attr, macro_call_outcome, macro_keys};
use crate::vm::state::State;

verus! {

/// The kind of a value.
#[derive(Clone, Copy, Debug, PartialEq, Eq, Structural)]
pub enum ValueKind {
    Undefined,
    Null,
    Bool,
    Number,
    String,
    Bytes,
    Sequence,
    Mapping,
    /// An object that is neither a sequence nor a map.
    Plain,
}

/// The kind that an object of the given representation has.
pub open spec fn repr_kind(repr: ObjectRepr) -> ValueKind {
    match repr {
        ObjectRepr::Plain => ValueKind::Plain,
        ObjectRepr::Mapping => ValueKind::Mapping,
        ObjectRepr::Sequence => ValueKind::Sequence,
    }
}

/// The kind that an object of the given representation has.
pub fn object_kind(repr: ObjectRepr) -> (k: ValueKind)
    ensures
        k == repr_kind(repr),
{
    match repr {
        ObjectRepr::Plain => ValueKind::Plain,
        ObjectRepr::Mapping => ValueKind::Mapping,
        ObjectRepr::Sequence => ValueKind::Sequence,
    }
}

/// Whether an object counts as true in a condition, given what it
/// enumerates: it does unless it can be enumerated and exposes nothing.
pub open spec fn enumeration_truthy<X>(enumeration: Enumeration<X>) -> bool {
    enumeration.spec_len() != Some(0usize)
}

/// Whether an object that enumerates as `enumeration` counts as true in a
/// condition.
pub fn object_is_true<X>(enumeration: &Enumeration<X>) -> (r: bool)
    ensures
        r == enumeration_truthy(*enumeration),
{
    !enumeration.is_empty()
}

/// The kind of a value. Loops and macros count as maps, from attribute
/// names to values; an object of the embedding program has the kind that
/// its representation stands for ([`repr_kind`]), which the view does not
/// show.
pub open spec fn kind_of<X>(v: ValueView<X>) -> ValueKind {
    match v {
        ValueView::Undefined => ValueKind::Undefined,
        ValueView::Null => ValueKind::Null,
        ValueView::Bool(_) => ValueKind::Bool,
        ValueView::Int(_) => ValueKind::Number,
        ValueView::Str(_, _) => ValueKind::String,
        ValueView::Bytes(_) => ValueKind::Bytes,
        ValueView::Sequence(_) => ValueKind::Sequence,
        ValueView::Mapping(_, _) => ValueKind::Mapping,
        ValueView::Loop(_) => ValueKind::Mapping,
        ValueView::Macro(_) => ValueKind::Mapping,
        ValueView::Object(_) => ValueKind::Plain,
    }
}

/// What a lookup finds in a value that holds data: the item of a sequence
/// at an index, the value of a map under a string key, and nothing anywhere
/// else.
pub open spec fn data_get<X>(v: ValueView<X>, key: ValueView<X>) -> Option<ValueView<X>> {
    match v {
        ValueView::Sequence(items) => match key {
            ValueView::Int(i) => if 0 <= i < items.len() {
                Some(items[i])
            } else {
                None
            },
            _ => None,
        },
        ValueView::Mapping(entries, _) => match key {
            ValueView::Str(name, _) => lookup(entries, name),
            _ => None,
        },
        _ => None,
    }
}

/// The keys of a map as the enumeration lists them: ordinary strings, in
/// the order of the entries.
pub open spec fn key_views<X>(entries: Seq<(Seq<char>, ValueView<X>)>) -> Seq<ValueView<X>> {
    Seq::new(entries.len(), |i: int| ValueView::Str(entries[i].0, StringType::Normal))
}

impl<X: Object<X> + ObjectEq> Value<X> {
    /// The kind of the value: see [`kind_of`]. Of an object of the embedding
    /// program [`object_kind`] decides, by the object's representation.
    pub fn kind(&self) -> (k: ValueKind)
        ensures
            !(self@ is Object) ==> k == kind_of(self@),
    {
        match &self.0 {
            ValueRepr::Undefined => ValueKind::Undefined,
            ValueRepr::Null => ValueKind::Null,
            ValueRepr::Bool(_) => ValueKind::Bool,
            ValueRepr::U64(_) => ValueKind::Number,
            ValueRepr::I64(_) => ValueKind::Number,
            ValueRepr::String(_, _) => ValueKind::String,
            ValueRepr::Bytes(_) => ValueKind::Bytes,
            ValueRepr::Sequence(_) => ValueKind::Sequence,
            ValueRepr::Mapping(_, _) => ValueKind::Mapping,
            ValueRepr::Loop(_) => ValueKind::Mapping,
            ValueRepr::Macro(_) => ValueKind::Mapping,
            ValueRepr::Object(x) => object_kind(x.repr()),
        }
    }

    /// Looks up an attribute, a key or an index.
    ///
    /// A sequence is indexed by an integer, a map by a string; a loop and a
    /// macro answer for their attributes. Nothing is found in any other
    /// value that holds data.
    pub fn get_value(&self, key: &Value<X>) -> (r: Option<Value<X>>)
        ensures
            match self@ {
                ValueView::Loop(l) => match key@ {
                    ValueView::Str(name, _) => is_loop_value(l, name, option_view(r)),
                    _ => r is None,
                },
                ValueView::Macro(m) => match key@ {
                    ValueView::Str(name, _) => option_view(r) == macro_attr(m, name),
                    _ => r is None,
                },
                ValueView::Object(_) => true,
                _ => option_view(r) == data_get(self@, key@),
            },
    {
        match &self.0 {
            ValueRepr::Sequence(items) => {
                proof {
                    lemma_sequence_view(*self);
                }
                let index: Option<usize> = match &key.0 {
                    ValueRepr::U64(n) => if *n < items.len() as u64 {
                        Some(*n as usize)
                    } else {
                        None
                    },
                    ValueRepr::I64(n) => if *n >= 0 && (*n as u64) < items.len() as u64 {
                        Some(*n as usize)
                    } else {
                        None
                    },
                    _ => None,
                };
                match index {
                    Some(i) => {
                        Some(items[i].clone())
                    },
                    None => None,
                }
            },
            ValueRepr::Mapping(m, _) => {
                proof {
                    lemma_mapping_view(*self);
                }
                match key.as_str() {
                    Some(name) => match m.get(name) {
                        Some(v) => Some(v.clone()),
                        None => None,
                    },
                    None => None,
                }
            },
            ValueRepr::Loop(l) => l.get_value(key),
            ValueRepr::Macro(m) => {
                proof {
                    lemma_macro_view(*self);
                }
                m.get_value(key)
            },
            ValueRepr::Object(x) => x.get_value(key),
            _ => None,
        }
    }

    /// The attribute, or the value under the key, of the name `name`.
    pub fn get_attr(&self, name: &str) -> (r: Option<Value<X>>)
        ensures
            match self@ {
                ValueView::Loop(l) => is_loop_value(l, name@, option_view(r)),
                ValueView::Macro(m) => option_view(r) == macro_attr(m, name@),
                ValueView::Object(_) => true,
                _ => option_view(r) == data_get(self@, ValueView::Str(name@, StringType::Normal)),
            },
    {
        let key = Value::from_str(name);
        self.get_value(&key)
    }

    /// The keys or indices that the value exposes: the indices of a
    /// sequence, the keys of a map, the attribute names of a loop or a
    /// macro. A scalar cannot be enumerated.
    pub fn enumeration(&self) -> (r: Enumeration<X>)
        ensures
            match self@ {
                ValueView::Sequence(items) => r == Enumeration::<X>::Sequential(
                    items.len() as usize,
                ),
                ValueView::Mapping(entries, _) => (r matches Enumeration::Values(keys) && seq_view(
                    keys@,
                ) == key_views(entries)),
                ValueView::Loop(l) => (r matches Enumeration::Static(names) && static_names(names@)
                    == loop_keys(l.adjacent_items)),
                ValueView::Macro(_) => (r matches Enumeration::Static(names) && static_names(
                    names@,
                ) == macro_keys()),
                ValueView::Object(_) => true,
                _ => r is NonEnumerable,
            },
    {
        match &self.0 {
            ValueRepr::Sequence(items) => {
                proof {
                    lemma_sequence_view(*self);
                }
                Enumeration::Sequential(items.len())
            },
            ValueRepr::Mapping(m, _) => {
                proof {
                    lemma_mapping_view(*self);
                }
                let mut keys: Vec<Value<X>> = Vec::new();
                let mut i: usize = 0;
                while i < m.entries.len()
                    invariant
                        i <= m.entries@.len(),
                        keys@.len() == i,
                        forall|j: int|
                            0 <= j < i ==> (#[trigger] keys@[j])@ == ValueView::<X>::Str(
                                m.entries@[j].0@,
                                StringType::Normal,
                            ),
                    decreases m.entries@.len() - i,
                {
                    keys.push(Value::from_str(m.entries[i].0.as_str()));
                    i += 1;
                }
                Enumeration::Values(keys)
            },
            ValueRepr::Loop(l) => l.enumeration(),
            ValueRepr::Macro(m) => m.enumeration(),
            ValueRepr::Object(x) => x.enumeration(),
            _ => Enumeration::NonEnumerable,
        }
    }

    /// Calls the value itself (`method` is `None`) or one of its methods.
    ///
    /// Only objects take calls. A value that holds data refuses: a call of a
    /// method with `UnknownMethod`, a call of the value itself with
    /// `InvalidOperation`.
    pub fn call(&self, state: &State, method: Option<&str>, args: &[Value<X>]) -> (r: Result<
        CallOutcome<X>,
        Error,
    >)
        ensures
            match self@ {
                ValueView::Loop(_) => is_loop_call(
                    method_view(method),
                    seq_view(args@),
                    call_view(r),
                ),
                ValueView::Macro(m) => call_view(r) == macro_call_outcome(
                    m,
                    *state,
                    method_view(method),
                    seq_view(args@),
                ),
                ValueView::Object(_) => true,
                _ => call_view(r) == Err::<CallOutcomeView<X>, ErrorView>(
                    refusal(method_view(method)),
                ),
            },
    {
        match &self.0 {
            ValueRepr::Loop(l) => l.call(state, method, args),
            ValueRepr::Macro(m) => {
                proof {
                    lemma_macro_view(*self);
                }
                m.call(state, method, args)
            },
            ValueRepr::Object(x) => x.call(state, method, args),
            _ => refuse_call(method),
        }
    }
}

/// Whether a value counts as true in a condition: a boolean that is true, a
/// number that is not zero, a string, a byte string, a sequence or a map
/// that is not empty. Undefined and none count as false.
pub open spec fn truthy<X>(v: ValueView<X>) -> bool {
    match v {
        ValueView::Undefined => false,
        ValueView::Null => false,
        ValueView::Bool(b) => b,
        ValueView::Int(n) => n != 0,
        ValueView::Str(text, _) => text.len() > 0,
        ValueView::Bytes(bytes) => bytes.len() > 0,
        ValueView::Sequence(items) => items.len() > 0,
        ValueView::Mapping(entries, _) => entries.len() > 0,
        ValueView::Loop(_) => true,
        ValueView::Macro(_) => true,
        ValueView::Object(_) => true,
    }
}

/// The length of a value: the number of characters of a string, of bytes
/// of a byte string, of items of a sequence, of entries of a map and of
/// attributes of a loop or a macro. A scalar has no length.
pub open spec fn length<X>(v: ValueView<X>) -> Option<nat> {
    match v {
        ValueView::Str(text, _) => Some(text.len()),
        ValueView::Bytes(bytes) => Some(bytes.len()),
        ValueView::Sequence(items) => Some(items.len()),
        ValueView::Mapping(entries, _) => Some(entries.len()),
        ValueView::Loop(l) => Some(loop_keys(l.adjacent_items).len()),
        ValueView::Macro(_) => Some(macro_keys().len()),
        _ => None,
    }
}

/// The string form of a value, where the value alone decides it.
///
/// Undefined renders as nothing and none as `none`; a boolean as `true` or
/// `false`; an integer in decimal; a string as its text and a byte string
/// as the text it decodes to. A sequence renders as its items between
/// brackets, a map as its entries, each a key, a colon and a value, between
/// braces; items and entries are set apart by a comma and a space. A macro
/// renders as `<macro NAME>`. The form of a loop depends on how far the
/// loop has come, and that of an object of the embedding program on the
/// object: for those, and for whatever holds one of them, there is `None`.
pub open spec fn rendered<X>(v: ValueView<X>) -> Option<Seq<char>>
    decreases v, 0nat,
{
    match v {
        ValueView::Undefined => Some(Seq::empty()),
        ValueView::Null => Some("none"@),
        ValueView::Bool(b) => Some(
            if b {
                "true"@
            } else {
                "false"@
            },
        ),
        ValueView::Int(n) => Some(integer_text(n)),
        ValueView::Str(text, _) => Some(text),
        ValueView::Bytes(bytes) => Some(bytes_text(bytes)),
        ValueView::Sequence(items) => match rendered_items(items, items.len()) {
            Some(inner) => Some("["@ + inner + "]"@),
            None => None,
        },
        ValueView::Mapping(entries, _) => match rendered_entries(entries, entries.len()) {
            Some(inner) => Some("{"@ + inner + "}"@),
            None => None,
        },
        ValueView::Macro(m) => Some("<macro "@ + m.name + ">"@),
        ValueView::Loop(_) => None,
        ValueView::Object(_) => None,
    }
}

/// The string forms of the first `n` items, set apart by a comma and a
/// space.
pub open spec fn rendered_items<X>(items: Seq<ValueView<X>>, n: nat) -> Option<Seq<char>>
    decreases items, n,
{
    if n == 0 || n > items.len() {
        Some(Seq::empty())
    } else {
        match (rendered_items(items, (n - 1) as nat), rendered(items[n - 1])) {
            (Some(before), Some(text)) => Some(
                if n == 1 {
                    text
                } else {
                    before + ", "@ + text
                },
            ),
            _ => None,
        }
    }
}

/// The string forms of the first `n` entries, each a key, a colon, a space
/// and the form of the value, set apart by a comma and a space.
pub open spec fn rendered_entries<X>(entries: Seq<(Seq<char>, ValueView<X>)>, n: nat) -> Option<
    Seq<char>,
>
    decreases entries, n,
{
    if n == 0 || n > entries.len() {
        Some(Seq::empty())
    } else {
        match (rendered_entries(entries, (n - 1) as nat), rendered(entries[n - 1].1)) {
            (Some(before), Some(text)) => Some(
                if n == 1 {
                    entries[n - 1].0 + ": "@ + text
                } else {
                    before + ", "@ + entries[n - 1].0 + ": "@ + text
                },
            ),
            _ => None,
        }
    }
}

impl<X: Object<X> + ObjectEq> Value<X> {
    /// Whether the value counts as true in a condition. Of an object of the
    /// embedding program [`object_is_true`] decides, by what the object
    /// enumerates.
    pub fn is_true(&self) -> (r: bool)
        ensures
            !(self@ is Object) ==> r == truthy(self@),
    {
        match &self.0 {
            ValueRepr::Undefined => false,
            ValueRepr::Null => false,
            ValueRepr::Bool(b) => *b,
            ValueRepr::U64(n) => *n != 0,
            ValueRepr::I64(n) => *n != 0,
            ValueRepr::String(s, _) => !s.is_empty(),
            ValueRepr::Bytes(b) => b.len() > 0,
            ValueRepr::Sequence(items) => {
                proof {
                    lemma_sequence_view(*self);
                }
                items.len() > 0
            },
            ValueRepr::Mapping(m, _) => {
                proof {
                    lemma_mapping_view(*self);
                }
                m.len() > 0
            },
            ValueRepr::Loop(_) => true,
            ValueRepr::Macro(_) => true,
            ValueRepr::Object(x) => {
                let enumeration = x.enumeration();
                object_is_true(&enumeration)
            },
        }
    }

    /// The length of the value, where it has one. An object of the
    /// embedding program has the length of what it enumerates.
    pub fn len(&self) -> (r: Option<usize>)
        ensures
            !(self@ is Object) ==> match r {
                Some(n) => length(self@) == Some(n as nat),
                None => length(self@) is None,
            },
    {
        match &self.0 {
            ValueRepr::String(s, _) => Some(s.unicode_len()),
            ValueRepr::Bytes(b) => Some(b.len()),
            ValueRepr::Sequence(items) => {
                proof {
                    lemma_sequence_view(*self);
                }
                Some(items.len())
            },
            ValueRepr::Mapping(m, _) => {
                proof {
                    lemma_mapping_view(*self);
                }
                Some(m.len())
            },
            ValueRepr::Loop(l) => l.enumeration().len(),
            ValueRepr::Macro(m) => m.enumeration().len(),
            ValueRepr::Object(x) => x.enumeration().len(),
            _ => None,
        }
    }

    /// The string form of the value.
    ///
    /// Where the value alone decides its form, the result is that form
    /// ([`rendered`]). A loop renders as `<loop I/N>` at its current index.
    pub fn render(&self) -> (r: String)
        ensures
            match self@ {
                ValueView::Loop(l) => exists|idx: usize| r@ == #[trigger] loop_render(l.len, idx),
                _ => rendered(self@) matches Some(text) ==> r@ == text,
            },
    {
        match &self.0 {
            ValueRepr::Loop(l) => l.render(),
            _ => {
                let mut out = String::new();
                self.render_into(&mut out);
                out
            },
        }
    }

    /// Appends the string form of the value to `out`.
    pub fn render_into(&self, out: &mut String)
        ensures
            rendered(self@) matches Some(text) ==> final(out)@ == old(out)@ + text,
        decreases self,
    {
        match &self.0 {
            ValueRepr::Undefined => {
            },
            ValueRepr::Null => out.append("none"),
            ValueRepr::Bool(b) => if *b {
                out.append("true")
            } else {
                out.append("false")
            },
            ValueRepr::U64(n) => push_decimal(out, *n),
            ValueRepr::I64(n) => push_integer(out, *n),
            ValueRepr::String(s, _) => out.append(s),
            ValueRepr::Bytes(b) => {
                let text = decode_lossy(b.as_slice());
                out.append(text.as_str());
            },
            ValueRepr::Sequence(items) => {
                proof {
                    lemma_sequence_view(*self);
                }
                let ghost views = seq_view(items@);
                out.append("[");
                let mut i: usize = 0;
                while i < items.len()
                    invariant
                        self.0 == ValueRepr::Sequence(*items),
                        self@ == ValueView::Sequence(views),
                        views == seq_view(items@),
                        i <= items@.len(),
                        rendered_items(views, i as nat) matches Some(inner) ==> out@ == old(out)@
                            + "["@ + inner,
                    decreases items@.len() - i,
                {
                    if i > 0 {
                        out.append(", ");
                    }
                    items[i].render_into(out);
                    i += 1;
                }
                out.append("]");
            },
            ValueRepr::Mapping(m, _) => {
                proof {
                    lemma_mapping_view(*self);
                }
                let ghost views = m@;
                out.append("{");
                let mut i: usize = 0;
                while i < m.entries.len()
                    invariant
                        self.0 == ValueRepr::Mapping(*m, self.0->Mapping_1),
                        self@ == ValueView::Mapping(views, self.0->Mapping_1),
                        views == m@,
                        i <= m.entries@.len(),
                        rendered_entries(views, i as nat) matches Some(inner) ==> out@ == old(
                            out,
                        )@ + "{"@ + inner,
                    decreases m.entries@.len() - i,
                {
                    if i > 0 {
                        out.append(", ");
                    }
                    out.append(m.entries[i].0.as_str());
                    out.append(": ");
                    m.entries[i].1.render_into(out);
                    i += 1;
                }
                out.append("}");
            },
            ValueRepr::Loop(l) => {
                let text = l.render();
                out.append(text.as_str());
            },
            ValueRepr::Macro(m) => {
                let text = m.render();
                out.append(text.as_str());
            },
            ValueRepr::Object(x) => {
                let text = x.render();
                out.append(text.as_str());
            },
        }
    }
}

} // verus!
