//! The capability protocol: what a dynamic object implements to take part
//! in attribute access, iteration and invocation, and the few types the
//! protocol speaks in.

use vstd::prelude::*;
use vstd::string::StringExecFns;
use crate::error::{Error, ErrorKind, ErrorView};
use crate::value::{Value, ValueView};
use crate::vm::macro_object::{MacroCall, MacroCallView};
use crate::vm::state::State;

verus! {

/// How an object presents itself: what kind of value it stands for.
#[derive(Clone, Copy, Debug, PartialEq, Eq, Structural)]
pub enum ObjectRepr {
    /// An opaque object: it has no keys and no items.
    Plain,
    /// The object behaves like a map from keys to values.
    Mapping,
    /// The object behaves like a sequence of values.
    Sequence,
}

/// The keys or indices that a value exposes.
pub enum Enumeration<X> {
    /// The value cannot be enumerated.
    NonEnumerable,
    /// The value exposes nothing.
    Empty,
    /// The value exposes a fixed list of attribute names.
    Static(&'static [&'static str]),
    /// The value exposes the indices from zero up to, not including, the
    /// given count.
    Sequential(usize),
    /// The value exposes the given keys.
    Values(Vec<Value<X>>),
}

/// The characters of each name, in order.
pub open spec fn static_names(names: Seq<&'static str>) -> Seq<Seq<char>> {
    Seq::new(names.len(), |i: int| names[i]@)
}

impl<X> Enumeration<X> {
    /// How many keys or indices are exposed, where the value can be
    /// enumerated at all.
    pub fn len(&self) -> (n: Option<usize>)
        ensures
            n == self.spec_len(),
    {
        match self {
            Enumeration::NonEnumerable => None,
            Enumeration::Empty => Some(0),
            Enumeration::Static(names) => Some(names.len()),
            Enumeration::Sequential(count) => Some(*count),
            Enumeration::Values(keys) => Some(keys.len()),
        }
    }

    /// Whether the value can be enumerated and exposes nothing.
    pub fn is_empty(&self) -> (r: bool)
        ensures
            r == (self.spec_len() == Some(0usize)),
    {
        match self.len() {
            Some(n) => n == 0,
            None => false,
        }
    }

    /// The number of keys or indices of an enumeration.
    pub open spec fn spec_len(&self) -> Option<usize> {
        match *self {
            Enumeration::NonEnumerable => None,
            Enumeration::Empty => Some(0usize),
            Enumeration::Static(names) => Some(names@.len() as usize),
            Enumeration::Sequential(count) => Some(count),
            Enumeration::Values(keys) => Some(keys@.len() as usize),
        }
    }
}

/// How a call ended.
///
/// Most calls end in a value. The call of a macro ends in a request: the
/// macro has bound its arguments, and its body is for the evaluator to
/// render.
pub enum CallOutcome<X> {
    /// The call returned this value.
    Return(Value<X>),
    /// The evaluator is to render the body of a macro with these bindings.
    Evaluate(MacroCall<X>),
}

/// What a [`CallOutcome`] holds, by its views.
pub enum CallOutcomeView<X> {
    Return(ValueView<X>),
    Evaluate(MacroCallView<X>),
}

impl<X> View for CallOutcome<X> {
    type V = CallOutcomeView<X>;

    open spec fn view(&self) -> CallOutcomeView<X> {
        match *self {
            CallOutcome::Return(v) => CallOutcomeView::Return(v@),
            CallOutcome::Evaluate(call) => CallOutcomeView::Evaluate(call@),
        }
    }
}

/// The view of the result of a call.
pub open spec fn call_view<X>(r: Result<CallOutcome<X>, Error>) -> Result<
    CallOutcomeView<X>,
    ErrorView,
> {
    match r {
        Ok(outcome) => Ok(outcome@),
        Err(e) => Err(e@),
    }
}

/// The characters of the name of the method that a call names.
pub open spec fn method_view(method: Option<&str>) -> Option<Seq<char>> {
    match method {
        Some(name) => Some(name@),
        None => None,
    }
}

/// The capability protocol of dynamic objects.
///
/// An object that implements these operations takes part in expression
/// evaluation like any built-in value. `X` is the type of the objects of the
/// embedding program, as in [`Value`].
pub trait Object<X> {
    /// What kind of value the object stands for.
    fn repr(&self) -> ObjectRepr;

    /// Looks up an attribute, a key or an index.
    fn get_value(&self, key: &Value<X>) -> Option<Value<X>>;

    /// The keys or indices that the object exposes.
    fn enumeration(&self) -> Enumeration<X>;

    /// Calls the object itself (`method` is `None`) or one of its methods.
    fn call(&self, state: &State, method: Option<&str>, args: &[Value<X>]) -> Result<
        CallOutcome<X>,
        Error,
    >;

    /// The string form of the object.
    fn render(&self) -> String;
}

/// Equality of the objects of the embedding program.
///
/// Values compare by what they hold; what it means for two objects to be
/// the same object is for the type of the objects to decide.
pub trait ObjectEq: Sized {
    /// Whether `self` and `other` are the same object.
    fn same(&self, other: &Self) -> (r: bool)
        ensures
            r == (*self == *other),
    ;
}

/// What a value answers to a call that it does not take: a call of a method
/// finds no such method, a call of the value itself finds nothing to call.
pub open spec fn refusal(method: Option<Seq<char>>) -> ErrorView {
    match method {
        Some(name) => ErrorView {
            kind: ErrorKind::UnknownMethod,
            detail: Some("object has no method named "@ + name),
        },
        None => ErrorView {
            kind: ErrorKind::InvalidOperation,
            detail: Some("value is not callable"@),
        },
    }
}

/// Refuses a call: see [`refusal`].
pub fn refuse_call<X>(method: Option<&str>) -> (r: Result<CallOutcome<X>, Error>)
    ensures
        call_view(r) == Err::<CallOutcomeView<X>, ErrorView>(refusal(method_view(method))),
{
    match method {
        Some(name) => {
            let mut detail = "object has no method named ".to_owned();
            detail.append(name);
            Err(Error::new(ErrorKind::UnknownMethod, detail))
        },
        None => Err(Error::new(ErrorKind::InvalidOperation, "value is not callable".to_owned())),
    }
}

/// An object without attributes and without methods; the object type of a
/// program that adds no objects of its own.
pub struct NoObject;

impl ObjectEq for NoObject {
    /// There is one such object.
    fn same(&self, other: &NoObject) -> (r: bool) {
        true
    }
}

impl Object<NoObject> for NoObject {
    fn repr(&self) -> (r: ObjectRepr)
        ensures
            r == ObjectRepr::Plain,
    {
        ObjectRepr::Plain
    }

    fn get_value(&self, key: &Value<NoObject>) -> (r: Option<Value<NoObject>>)
        ensures
            r is None,
    {
        None
    }

    fn enumeration(&self) -> (r: Enumeration<NoObject>)
        ensures
            r is NonEnumerable,
    {
        Enumeration::NonEnumerable
    }

    fn call(&self, state: &State, method: Option<&str>, args: &[Value<NoObject>]) -> (r: Result<
        CallOutcome<NoObject>,
        Error,
    >)
        ensures
            call_view(r) == Err::<CallOutcomeView<NoObject>, ErrorView>(
                refusal(method_view(method)),
            ),
    {
        refuse_call(method)
    }

    fn render(&self) -> (r: String)
        ensures
            r@ == "<object>"@,
    {
        "<object>".to_owned()
    }
}

} // verus!
