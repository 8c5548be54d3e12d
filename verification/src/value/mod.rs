//! The dynamically typed value that flows through template evaluation.
//!
//! A [`Value`] is immutable once built and cheap to clone: every variant
//! that owns heap data holds it behind a shared handle, so a clone copies a
//! handle and never the data. What a value *is* is given by its view,
//! [`ValueView`]; contracts throughout the crate are stated over views.

use vstd::prelude::*;
use vstd::std_specs::cmp::PartialEqSpecImpl;
use vstd::std_specs::convert::FromSpecImpl;
use std::sync::Arc;
use crate::text::{bytes_eq, str_eq};
use crate::vm::loop_object::Loop;
use crate::vm::macro_object::{names_view, Macro};

pub use crate::value::map::ValueMap;
pub use crate::value::object::{
    CallOutcome, Enumeration, NoObject, Object, ObjectEq, ObjectRepr,
};
pub use crate::value::protocol::ValueKind;

pub mod map;
pub mod object;
pub mod protocol;

verus! {

/// Whether a string still has to be escaped before it is written out.
#[derive(Clone, Copy, Debug, PartialEq, Eq, Structural)]
pub enum StringType {
    /// Ordinary text: escaped on output when auto-escaping is on.
    Normal,
    /// Markup that is already safe: never escaped again.
    Safe,
}

/// Whether a map is an ordinary map or the keyword arguments of a call.
#[derive(Clone, Copy, Debug, PartialEq, Eq, Structural)]
pub enum MapType {
    /// An ordinary map.
    Normal,
    /// The keyword arguments of a call, passed as its last argument.
    Kwargs,
}

/// The representation of a [`Value`].
///
/// `X` is the type of the dynamic objects that the embedding program adds to
/// the built-in loop and macro objects.
pub enum ValueRepr<X> {
    Undefined,
    Null,
    Bool(bool),
    U64(u64),
    I64(i64),
    String(Arc<str>, StringType),
    Bytes(Arc<Vec<u8>>),
    Sequence(Arc<Vec<Value<X>>>),
    Mapping(Arc<ValueMap<X>>, MapType),
    Loop(Arc<Loop<X>>),
    Macro(Arc<Macro<X>>),
    Object(Arc<X>),
}

/// Represents a dynamically typed value in the template engine.
pub struct Value<X>(pub ValueRepr<X>);

/// What a macro value is: the fields of the macro, the closure by its view.
pub struct MacroView<X> {
    pub name: Seq<char>,
    pub params: Seq<Seq<char>>,
    pub macro_ref_id: usize,
    pub state_id: isize,
    pub closure: Box<ValueView<X>>,
    pub caller_reference: bool,
}

/// What a loop value is: what never changes about the loop.
pub struct LoopView {
    /// The number of items, where it is known up front.
    pub len: Option<usize>,
    /// How many loops enclose the loop.
    pub depth: usize,
    /// Whether the loop offers the items next to the current one.
    pub adjacent_items: bool,
}

/// The mathematical model of a [`Value`].
///
/// Integers are modelled by their numeric value whatever their width or
/// signedness; sequences and maps by the views of what they hold. A loop
/// object is modelled by what never changes about it; its iteration state
/// is interior and not part of the view.
pub enum ValueView<X> {
    Undefined,
    Null,
    Bool(bool),
    Int(int),
    Str(Seq<char>, StringType),
    Bytes(Seq<u8>),
    Sequence(Seq<ValueView<X>>),
    Mapping(Seq<(Seq<char>, ValueView<X>)>, MapType),
    Loop(LoopView),
    Macro(MacroView<X>),
    Object(X),
}

/// The view of a value, by recursion over its structure.
pub open spec fn value_view<X>(v: Value<X>) -> ValueView<X>
    decreases v,
{
    match v.0 {
        ValueRepr::Undefined => ValueView::Undefined,
        ValueRepr::Null => ValueView::Null,
        ValueRepr::Bool(b) => ValueView::Bool(b),
        ValueRepr::U64(n) => ValueView::Int(n as int),
        ValueRepr::I64(n) => ValueView::Int(n as int),
        ValueRepr::String(s, ty) => ValueView::Str(s@, ty),
        ValueRepr::Bytes(b) => ValueView::Bytes(b@),
        ValueRepr::Sequence(items) => ValueView::Sequence(
            Seq::new(
                items@.len(),
                |i: int|
                    if 0 <= i < items@.len() {
                        value_view(items@[i])
                    } else {
                        ValueView::Undefined
                    },
            ),
        ),
        ValueRepr::Mapping(m, ty) => ValueView::Mapping(
            Seq::new(
                m.entries@.len(),
                |i: int|
                    if 0 <= i < m.entries@.len() {
                        (m.entries@[i].0@, value_view(m.entries@[i].1))
                    } else {
                        (Seq::empty(), ValueView::Undefined)
                    },
            ),
            ty,
        ),
        ValueRepr::Loop(l) => ValueView::Loop(l@),
        ValueRepr::Macro(m) => ValueView::Macro(
            MacroView {
                name: m.name@,
                params: names_view(m.arg_spec@),
                macro_ref_id: m.macro_ref_id,
                state_id: m.state_id,
                closure: Box::new(value_view(m.closure)),
                caller_reference: m.caller_reference,
            },
        ),
        ValueRepr::Object(x) => ValueView::Object(*x),
    }
}

impl<X> View for Value<X> {
    type V = ValueView<X>;

    open spec fn view(&self) -> ValueView<X> {
        value_view(*self)
    }
}

/// The views of a sequence of values, in order.
pub open spec fn seq_view<X>(items: Seq<Value<X>>) -> Seq<ValueView<X>> {
    Seq::new(items.len(), |i: int| items[i]@)
}

/// The view of an optional value.
pub open spec fn option_view<X>(v: Option<Value<X>>) -> Option<ValueView<X>> {
    match v {
        Some(v) => Some(v@),
        None => None,
    }
}

/// A sequence value is viewed as the views of its items.
pub proof fn lemma_sequence_view<X>(v: Value<X>)
    requires
        v.0 is Sequence,
    ensures
        v@ == ValueView::Sequence(seq_view(v.0->Sequence_0@)),
{
    assert(v@->Sequence_0 =~= seq_view(v.0->Sequence_0@));
}

/// A map value is viewed as the view of its map and its map type.
pub proof fn lemma_mapping_view<X>(v: Value<X>)
    requires
        v.0 is Mapping,
    ensures
        v@ == ValueView::Mapping(v.0->Mapping_0@, v.0->Mapping_1),
{
    assert(v@->Mapping_0 =~= v.0->Mapping_0@);
}

/// A macro value is viewed as the view of its macro.
pub proof fn lemma_macro_view<X>(v: Value<X>)
    requires
        v.0 is Macro,
    ensures
        v@ == ValueView::Macro(v.0->Macro_0@),
{
}

/// Whether two values are equal: they have the same view.
///
/// Integers are equal when they are the same number, strings when they
/// have the same text and the same type, sequences and maps when they hold
/// equal items in the same order. A macro equals a macro with the same
/// fields, a loop a loop with the same view, and an object of the embedding
/// program the objects that are the same object.
pub open spec fn equal<X>(a: ValueView<X>, b: ValueView<X>) -> bool {
    a == b
}

/// Equality is an equivalence: every value equals itself, and so its
/// clone; equality is symmetric and transitive.
pub proof fn lemma_equality<X>(a: ValueView<X>, b: ValueView<X>, c: ValueView<X>)
    ensures
        equal(a, a),
        equal(a, b) ==> equal(b, a),
        equal(a, b) && equal(b, c) ==> equal(a, c),
{
}

/// Another handle to the data that `a` points to.
///
/// Calls `Arc::clone`, which hands out a new pointer to the same allocation:
/// what the result points to is what `a` points to.
#[verifier::external_body]
pub(crate) fn share<T: ?Sized>(a: &Arc<T>) -> (r: Arc<T>)
    ensures
        r == *a,
{
    Arc::clone(a)
}

/// Moves a string into a shared string slice.
///
/// Calls `Arc::<str>::from(String)`, which allocates a shared slice and
/// copies the string into it: the result holds the same characters.
#[verifier::external_body]
pub(crate) fn arc_str_from(s: String) -> (r: Arc<str>)
    ensures
        r@ == s@,
{
    Arc::from(s)
}

impl<X> Clone for Value<X> {
    /// A second handle to the same value: scalars are copied, everything
    /// else is shared, so the cost does not depend on the size of the value.
    fn clone(&self) -> (r: Value<X>)
        ensures
            r == *self,
            r@ == self@,
    {
        match &self.0 {
            ValueRepr::Undefined => Value(ValueRepr::Undefined),
            ValueRepr::Null => Value(ValueRepr::Null),
            ValueRepr::Bool(b) => Value(ValueRepr::Bool(*b)),
            ValueRepr::U64(n) => Value(ValueRepr::U64(*n)),
            ValueRepr::I64(n) => Value(ValueRepr::I64(*n)),
            ValueRepr::String(s, ty) => Value(ValueRepr::String(share(s), *ty)),
            ValueRepr::Bytes(b) => Value(ValueRepr::Bytes(share(b))),
            ValueRepr::Sequence(items) => Value(ValueRepr::Sequence(share(items))),
            ValueRepr::Mapping(m, ty) => Value(ValueRepr::Mapping(share(m), *ty)),
            ValueRepr::Loop(l) => Value(ValueRepr::Loop(share(l))),
            ValueRepr::Macro(m) => Value(ValueRepr::Macro(share(m))),
            ValueRepr::Object(x) => Value(ValueRepr::Object(share(x))),
        }
    }
}

impl<X> Value<X> {
    /// The undefined value.
    pub fn undefined() -> (v: Value<X>)
        ensures
            v@ == ValueView::<X>::Undefined,
    {
        Value(ValueRepr::Undefined)
    }

    /// The none value.
    pub fn none() -> (v: Value<X>)
        ensures
            v@ == ValueView::<X>::Null,
    {
        Value(ValueRepr::Null)
    }

    /// A boolean.
    pub fn from_bool(b: bool) -> (v: Value<X>)
        ensures
            v@ == ValueView::<X>::Bool(b),
    {
        Value(ValueRepr::Bool(b))
    }

    /// An unsigned integer.
    pub fn from_u64(n: u64) -> (v: Value<X>)
        ensures
            v@ == ValueView::<X>::Int(n as int),
    {
        Value(ValueRepr::U64(n))
    }

    /// A signed integer.
    pub fn from_i64(n: i64) -> (v: Value<X>)
        ensures
            v@ == ValueView::<X>::Int(n as int),
    {
        Value(ValueRepr::I64(n))
    }

    /// An index or a count.
    pub fn from_usize(n: usize) -> (v: Value<X>)
        ensures
            v@ == ValueView::<X>::Int(n as int),
    {
        Value(ValueRepr::U64(n as u64))
    }

    /// Ordinary text.
    pub fn from_string(s: String) -> (v: Value<X>)
        ensures
            v@ == ValueView::<X>::Str(s@, StringType::Normal),
    {
        Value(ValueRepr::String(arc_str_from(s), StringType::Normal))
    }

    /// Text that is safe to write out as it is.
    pub fn from_safe_string(s: String) -> (v: Value<X>)
        ensures
            v@ == ValueView::<X>::Str(s@, StringType::Safe),
    {
        Value(ValueRepr::String(arc_str_from(s), StringType::Safe))
    }

    /// Ordinary text, copied from a string slice.
    pub fn from_str(s: &str) -> (v: Value<X>)
        ensures
            v@ == ValueView::<X>::Str(s@, StringType::Normal),
    {
        Value(ValueRepr::String(arc_str_from(s.to_owned()), StringType::Normal))
    }

    /// Ordinary text that is already shared.
    pub fn from_arc_str(s: Arc<str>) -> (v: Value<X>)
        ensures
            v@ == ValueView::<X>::Str(s@, StringType::Normal),
    {
        Value(ValueRepr::String(s, StringType::Normal))
    }

    /// A byte string.
    pub fn from_bytes(b: Vec<u8>) -> (v: Value<X>)
        ensures
            v@ == ValueView::<X>::Bytes(b@),
    {
        Value(ValueRepr::Bytes(Arc::new(b)))
    }

    /// A sequence of the given items.
    pub fn from_seq(items: Vec<Value<X>>) -> (v: Value<X>)
        ensures
            v@ == ValueView::Sequence(seq_view(items@)),
    {
        let v = Value(ValueRepr::Sequence(Arc::new(items)));
        proof {
            lemma_sequence_view(v);
        }
        v
    }

    /// An ordinary map.
    pub fn from_map(m: ValueMap<X>) -> (v: Value<X>)
        requires
            m.wf(),
        ensures
            v@ == ValueView::Mapping(m@, MapType::Normal),
    {
        let v = Value(ValueRepr::Mapping(Arc::new(m), MapType::Normal));
        proof {
            lemma_mapping_view(v);
        }
        v
    }

    /// The keyword arguments of a call; a call takes them as its last
    /// argument.
    pub fn from_kwargs(m: ValueMap<X>) -> (v: Value<X>)
        requires
            m.wf(),
        ensures
            v@ == ValueView::Mapping(m@, MapType::Kwargs),
    {
        let v = Value(ValueRepr::Mapping(Arc::new(m), MapType::Kwargs));
        proof {
            lemma_mapping_view(v);
        }
        v
    }

    /// The value of a loop object.
    pub fn from_loop(l: Arc<Loop<X>>) -> (v: Value<X>)
        ensures
            v.0 == ValueRepr::Loop(l),
            v@ == ValueView::<X>::Loop(l@),
    {
        Value(ValueRepr::Loop(l))
    }

    /// The value of a macro object.
    pub fn from_macro(m: Arc<Macro<X>>) -> (v: Value<X>)
        ensures
            v.0 == ValueRepr::Macro(m),
            v@ == ValueView::Macro(m@),
    {
        let v = Value(ValueRepr::Macro(m));
        proof {
            lemma_macro_view(v);
        }
        v
    }

    /// The value of an object of the embedding program.
    pub fn from_object(x: Arc<X>) -> (v: Value<X>)
        ensures
            v.0 == ValueRepr::Object(x),
            v@ == ValueView::Object(*x),
    {
        Value(ValueRepr::Object(x))
    }
}

impl<X> Value<X> {
    /// Whether this is the undefined value.
    pub fn is_undefined(&self) -> (r: bool)
        ensures
            r == (self@ is Undefined),
    {
        matches!(&self.0, ValueRepr::Undefined)
    }

    /// Whether this is the none value.
    pub fn is_none(&self) -> (r: bool)
        ensures
            r == (self@ is Null),
    {
        matches!(&self.0, ValueRepr::Null)
    }

    /// Whether this is a string that is safe to write out as it is.
    pub fn is_safe(&self) -> (r: bool)
        ensures
            r == (self@ matches ValueView::Str(_, StringType::Safe)),
    {
        matches!(&self.0, ValueRepr::String(_, StringType::Safe))
    }

    /// Whether this is the keyword arguments of a call.
    pub fn is_kwargs(&self) -> (r: bool)
        ensures
            r == (self@ matches ValueView::Mapping(_, MapType::Kwargs)),
    {
        matches!(&self.0, ValueRepr::Mapping(_, MapType::Kwargs))
    }

    /// The text of a string value.
    pub fn as_str(&self) -> (r: Option<&str>)
        ensures
            match self@ {
                ValueView::Str(text, _) => (r matches Some(s) && s@ == text),
                _ => r is None,
            },
    {
        match &self.0 {
            ValueRepr::String(s, _) => Some(s),
            _ => None,
        }
    }
}

impl<X: ObjectEq> Value<X> {
    /// Whether two values are equal: see [`equal`]. Two objects of the
    /// embedding program are compared by [`ObjectEq::same`].
    pub fn equals(&self, other: &Value<X>) -> (r: bool)
        ensures
            r == equal(self@, other@),
        decreases self,
    {
        match &self.0 {
            ValueRepr::Undefined => matches!(&other.0, ValueRepr::Undefined),
            ValueRepr::Null => matches!(&other.0, ValueRepr::Null),
            ValueRepr::Bool(a) => match &other.0 {
                ValueRepr::Bool(b) => *a == *b,
                _ => false,
            },
            ValueRepr::U64(a) => match &other.0 {
                ValueRepr::U64(b) => *a == *b,
                ValueRepr::I64(b) => *b >= 0 && *a == *b as u64,
                _ => false,
            },
            ValueRepr::I64(a) => match &other.0 {
                ValueRepr::I64(b) => *a == *b,
                ValueRepr::U64(b) => *a >= 0 && *a as u64 == *b,
                _ => false,
            },
            ValueRepr::String(a, at) => match &other.0 {
                ValueRepr::String(b, bt) => *at == *bt && str_eq(a, b),
                _ => false,
            },
            ValueRepr::Bytes(a) => match &other.0 {
                ValueRepr::Bytes(b) => bytes_eq(a.as_slice(), b.as_slice()),
                _ => false,
            },
            ValueRepr::Sequence(a) => match &other.0 {
                ValueRepr::Sequence(b) => {
                    proof {
                        lemma_sequence_view(*self);
                        lemma_sequence_view(*other);
                    }
                    if a.len() != b.len() {
                        assert(seq_view(a@).len() != seq_view(b@).len());
                        return false;
                    }
                    let mut i: usize = 0;
                    while i < a.len()
                        invariant
                            self.0 == ValueRepr::Sequence(*a),
                            self@ == ValueView::Sequence(seq_view(a@)),
                            other@ == ValueView::Sequence(seq_view(b@)),
                            a@.len() == b@.len(),
                            i <= a@.len(),
                            forall|j: int| 0 <= j < i ==> (#[trigger] a@[j])@ == b@[j]@,
                        decreases a@.len() - i,
                    {
                        if !a[i].equals(&b[i]) {
                            assert(seq_view(a@)[i as int] == a@[i as int]@);
                            assert(seq_view(b@)[i as int] == b@[i as int]@);
                            return false;
                        }
                        i += 1;
                    }
                    assert(seq_view(a@) =~= seq_view(b@));
                    true
                },
                _ => false,
            },
            ValueRepr::Mapping(a, at) => match &other.0 {
                ValueRepr::Mapping(b, bt) => {
                    proof {
                        lemma_mapping_view(*self);
                        lemma_mapping_view(*other);
                    }
                    if *at != *bt || a.entries.len() != b.entries.len() {
                        assert(*at == *bt ==> a@.len() != b@.len());
                        return false;
                    }
                    let mut i: usize = 0;
                    while i < a.entries.len()
                        invariant
                            self.0 == ValueRepr::Mapping(*a, *at),
                            self@ == ValueView::Mapping(a@, *at),
                            other@ == ValueView::Mapping(b@, *bt),
                            a.entries@.len() == b.entries@.len(),
                            i <= a.entries@.len(),
                            forall|j: int| 0 <= j < i ==> (#[trigger] a@[j]) == b@[j],
                        decreases a.entries@.len() - i,
                    {
                        let x = &a.entries[i];
                        let y = &b.entries[i];
                        assert(a@[i as int] == (x.0@, x.1@));
                        assert(b@[i as int] == (y.0@, y.1@));
                        if !str_eq(x.0.as_str(), y.0.as_str()) || !x.1.equals(&y.1) {
                            return false;
                        }
                        i += 1;
                    }
                    assert(a@ =~= b@);
                    true
                },
                _ => false,
            },
            ValueRepr::Loop(a) => match &other.0 {
                ValueRepr::Loop(b) => {
                    let same_len = match (a.len(), b.len()) {
                        (Some(x), Some(y)) => x == y,
                        (None, None) => true,
                        _ => false,
                    };
                    same_len && a.depth() == b.depth() && a.tracks_adjacent_items()
                        == b.tracks_adjacent_items()
                },
                _ => false,
            },
            ValueRepr::Macro(a) => match &other.0 {
                ValueRepr::Macro(b) => {
                    proof {
                        lemma_macro_view(*self);
                        lemma_macro_view(*other);
                    }
                    if !str_eq(&a.name, &b.name) || a.macro_ref_id != b.macro_ref_id || a.state_id
                        != b.state_id || a.caller_reference != b.caller_reference
                        || a.arg_spec.len() != b.arg_spec.len() {
                        assert(a.arg_spec@.len() != b.arg_spec@.len() ==> names_view(
                            a.arg_spec@,
                        ).len() != names_view(b.arg_spec@).len());
                        return false;
                    }
                    let mut i: usize = 0;
                    while i < a.arg_spec.len()
                        invariant
                            self@ == ValueView::Macro(a@),
                            other@ == ValueView::Macro(b@),
                            a.arg_spec@.len() == b.arg_spec@.len(),
                            i <= a.arg_spec@.len(),
                            forall|j: int| 0 <= j < i ==> a.arg_spec@[j]@ == b.arg_spec@[j]@,
                        decreases a.arg_spec@.len() - i,
                    {
                        if !str_eq(&a.arg_spec[i], &b.arg_spec[i]) {
                            assert(names_view(a.arg_spec@)[i as int] == a.arg_spec@[i as int]@);
                            assert(names_view(b.arg_spec@)[i as int] == b.arg_spec@[i as int]@);
                            return false;
                        }
                        i += 1;
                    }
                    assert(names_view(a.arg_spec@) =~= names_view(b.arg_spec@));
                    a.closure.equals(&b.closure)
                },
                _ => false,
            },
            ValueRepr::Object(a) => match &other.0 {
                ValueRepr::Object(b) => a.same(b),
                _ => false,
            },
        }
    }
}

impl<X: ObjectEq> PartialEq for Value<X> {
    /// Equality as [`Value::equals`] decides it.
    fn eq(&self, other: &Value<X>) -> (r: bool) {
        self.equals(other)
    }
}

impl<X: ObjectEq> PartialEqSpecImpl for Value<X> {
    open spec fn obeys_eq_spec() -> bool {
        true
    }

    open spec fn eq_spec(&self, other: &Value<X>) -> bool {
        equal(self@, other@)
    }
}

impl<X> From<bool> for Value<X> {
    fn from(b: bool) -> (v: Value<X>) {
        Value(ValueRepr::Bool(b))
    }
}

impl<X> FromSpecImpl<bool> for Value<X> {
    open spec fn obeys_from_spec() -> bool {
        true
    }

    open spec fn from_spec(b: bool) -> Value<X> {
        Value(ValueRepr::Bool(b))
    }
}

impl<X> From<u64> for Value<X> {
    fn from(n: u64) -> (v: Value<X>) {
        Value(ValueRepr::U64(n))
    }
}

impl<X> FromSpecImpl<u64> for Value<X> {
    open spec fn obeys_from_spec() -> bool {
        true
    }

    open spec fn from_spec(n: u64) -> Value<X> {
        Value(ValueRepr::U64(n))
    }
}

impl<X> From<i64> for Value<X> {
    fn from(n: i64) -> (v: Value<X>) {
        Value(ValueRepr::I64(n))
    }
}

impl<X> FromSpecImpl<i64> for Value<X> {
    open spec fn obeys_from_spec() -> bool {
        true
    }

    open spec fn from_spec(n: i64) -> Value<X> {
        Value(ValueRepr::I64(n))
    }
}

impl<X> From<usize> for Value<X> {
    fn from(n: usize) -> (v: Value<X>) {
        Value(ValueRepr::U64(n as u64))
    }
}

impl<X> FromSpecImpl<usize> for Value<X> {
    open spec fn obeys_from_spec() -> bool {
        true
    }

    open spec fn from_spec(n: usize) -> Value<X> {
        Value(ValueRepr::U64(n as u64))
    }
}

impl<X> From<()> for Value<X> {
    fn from(unit: ()) -> (v: Value<X>) {
        Value(ValueRepr::Null)
    }
}

impl<X> FromSpecImpl<()> for Value<X> {
    open spec fn obeys_from_spec() -> bool {
        true
    }

    open spec fn from_spec(unit: ()) -> Value<X> {
        Value(ValueRepr::Null)
    }
}

impl<X> From<Arc<str>> for Value<X> {
    fn from(s: Arc<str>) -> (v: Value<X>) {
        Value(ValueRepr::String(s, StringType::Normal))
    }
}

impl<X> FromSpecImpl<Arc<str>> for Value<X> {
    open spec fn obeys_from_spec() -> bool {
        true
    }

    open spec fn from_spec(s: Arc<str>) -> Value<X> {
        Value(ValueRepr::String(s, StringType::Normal))
    }
}

/// The guard of value optimizations: they are in force for as long as it
/// lives.
///
/// The one optimization there is, the sharing of equal map keys, needs a
/// cache that outlives single values; this crate keeps none, so the guard
/// records that nothing is shared.
pub struct ValueOptimization {
    key_interning: bool,
}

impl ValueOptimization {
    /// Whether equal keys are shared while the guard lives.
    pub closed spec fn interning(&self) -> bool {
        self.key_interning
    }

    /// Whether equal keys are shared while the guard lives.
    pub fn is_interning(&self) -> (r: bool)
        ensures
            r == self.interning(),
    {
        self.key_interning
    }
}

/// Enables value optimizations for the lifetime of the guard that is
/// returned. Without a key cache this is a no-op: the guard says so.
pub fn value_optimization() -> (guard: ValueOptimization)
    ensures
        !guard.interning(),
{
    ValueOptimization { key_interning: false }
}

/// Intern a string.
///
/// Returns a shared string with the characters of `s`. Whether two calls
/// with equal strings share their storage is not promised.
pub fn intern(s: &str) -> (r: Arc<str>)
    ensures
        r@ == s@,
{
    arc_str_from(s.to_owned())
}

} // verus!
