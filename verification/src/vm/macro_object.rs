//! The macro object: a callable closure over a fragment of a template.
//!
//! Calling a macro takes two decisions with the evaluator's work between
//! them. [`Macro::call`] checks the call and binds its arguments; the
//! evaluator then renders the body with those bindings into a buffer of its
//! own; [`Macro::wrap_output`] turns what was rendered into the value of the
//! call.

use vstd::prelude::*;
use vstd::string::StringExecFns;
use std::sync::Arc;
use crate::error::{Error, ErrorKind, ErrorView};
use crate::text::str_eq;
use crate::utils::AutoEscape;
use crate::value::map::{lookup, ValueMap};
use crate::value::object::{
    call_view, method_view, static_names, CallOutcome, CallOutcomeView, Enumeration, Object,
    ObjectRepr,
};
use crate::value::{
    lemma_mapping_view, option_view, seq_view, share, MacroView, MapType, StringType, Value,
    ValueRepr, ValueView,
};
use crate::vm::state::State;

verus! {

/// A macro, as the template that declares it defines it.
pub struct Macro<X> {
    /// The declared name.
    pub name: Arc<str>,
    /// The names of the parameters, in declaration order.
    pub arg_spec: Vec<Arc<str>>,
    /// Where the compiled body lies among the macros of the render pass.
    pub macro_ref_id: usize,
    /// The identity of the render pass that defined the macro.
    pub state_id: isize,
    /// The variables that were in scope at the definition.
    pub closure: Value<X>,
    /// Whether the body uses `caller`.
    pub caller_reference: bool,
}

/// The characters of each name, in order.
pub open spec fn names_view(names: Seq<Arc<str>>) -> Seq<Seq<char>> {
    Seq::new(names.len(), |i: int| names[i]@)
}

impl<X> View for Macro<X> {
    type V = MacroView<X>;

    open spec fn view(&self) -> MacroView<X> {
        MacroView {
            name: self.name@,
            params: names_view(self.arg_spec@),
            macro_ref_id: self.macro_ref_id,
            state_id: self.state_id,
            closure: Box::new(self.closure.view()),
            caller_reference: self.caller_reference,
        }
    }
}

/// The bindings of one macro invocation: what the evaluator needs to render
/// the body.
pub struct MacroCall<X> {
    /// Where the compiled body lies among the macros of the render pass.
    pub macro_ref_id: usize,
    /// The variables that were in scope where the macro was defined.
    pub closure: Value<X>,
    /// The value of `caller` in the body, where the macro uses it.
    pub caller: Option<Value<X>>,
    /// The values of the parameters, in declaration order.
    pub args: Vec<Value<X>>,
}

/// What a [`MacroCall`] holds, by its views.
pub struct MacroCallView<X> {
    pub macro_ref_id: usize,
    pub closure: ValueView<X>,
    pub caller: Option<ValueView<X>>,
    pub args: Seq<ValueView<X>>,
}

impl<X> View for MacroCall<X> {
    type V = MacroCallView<X>;

    open spec fn view(&self) -> MacroCallView<X> {
        MacroCallView {
            macro_ref_id: self.macro_ref_id,
            closure: self.closure@,
            caller: option_view(self.caller),
            args: seq_view(self.args@),
        }
    }
}

/// The keyword arguments of a call: the entries of its last argument, where
/// that is a map marked as keyword arguments.
pub open spec fn call_kwargs<X>(args: Seq<ValueView<X>>) -> Option<Seq<(Seq<char>, ValueView<X>)>> {
    if args.len() > 0 {
        match args.last() {
            ValueView::Mapping(entries, MapType::Kwargs) => Some(entries),
            _ => None,
        }
    } else {
        None
    }
}

/// The positional arguments of a call: all arguments but the keyword
/// arguments.
pub open spec fn call_positional<X>(args: Seq<ValueView<X>>) -> Seq<ValueView<X>> {
    if call_kwargs(args) is Some {
        args.drop_last()
    } else {
        args
    }
}

/// The value passed under the keyword `name`.
pub open spec fn keyword<X>(
    kwargs: Option<Seq<(Seq<char>, ValueView<X>)>>,
    name: Seq<char>,
) -> Option<ValueView<X>> {
    match kwargs {
        Some(entries) => lookup(entries, name),
        None => None,
    }
}

/// Whether the parameter at `i` is passed twice, by position and by
/// keyword.
pub open spec fn is_duplicate<X>(
    params: Seq<Seq<char>>,
    positional: Seq<ValueView<X>>,
    kwargs: Option<Seq<(Seq<char>, ValueView<X>)>>,
    i: int,
) -> bool {
    0 <= i < positional.len() && i < params.len() && keyword(kwargs, params[i]) is Some
}

/// Whether the parameter at `i` is the first that is passed twice.
pub open spec fn is_first_duplicate<X>(
    params: Seq<Seq<char>>,
    positional: Seq<ValueView<X>>,
    kwargs: Option<Seq<(Seq<char>, ValueView<X>)>>,
    i: int,
) -> bool {
    is_duplicate(params, positional, kwargs, i) && forall|j: int|
        0 <= j < i ==> !is_duplicate(params, positional, kwargs, j)
}

/// Whether some parameter is passed twice.
pub open spec fn has_duplicate<X>(
    params: Seq<Seq<char>>,
    positional: Seq<ValueView<X>>,
    kwargs: Option<Seq<(Seq<char>, ValueView<X>)>>,
) -> bool {
    exists|i: int| is_first_duplicate(params, positional, kwargs, i)
}

/// The place of the first parameter that is passed twice.
pub open spec fn first_duplicate<X>(
    params: Seq<Seq<char>>,
    positional: Seq<ValueView<X>>,
    kwargs: Option<Seq<(Seq<char>, ValueView<X>)>>,
) -> int {
    choose|i: int| is_first_duplicate(params, positional, kwargs, i)
}

/// The value that the parameter at `i` is bound to: the positional argument
/// at `i` where there is one, else the keyword argument of the parameter's
/// name, else undefined.
pub open spec fn bound_arg<X>(
    params: Seq<Seq<char>>,
    positional: Seq<ValueView<X>>,
    kwargs: Option<Seq<(Seq<char>, ValueView<X>)>>,
    i: int,
) -> ValueView<X> {
    if i < positional.len() {
        positional[i]
    } else {
        match keyword(kwargs, params[i]) {
            Some(v) => v,
            None => ValueView::Undefined,
        }
    }
}

/// The values that the parameters are bound to, in declaration order.
pub open spec fn bound_args<X>(
    params: Seq<Seq<char>>,
    positional: Seq<ValueView<X>>,
    kwargs: Option<Seq<(Seq<char>, ValueView<X>)>>,
) -> Seq<ValueView<X>> {
    Seq::new(params.len(), |i: int| bound_arg(params, positional, kwargs, i))
}

/// The value of `caller` in the body: for a macro that uses `caller`, the
/// keyword argument of that name or undefined; for any other macro, none.
pub open spec fn caller_value<X>(
    caller_reference: bool,
    kwargs: Option<Seq<(Seq<char>, ValueView<X>)>>,
) -> Option<ValueView<X>> {
    if caller_reference {
        Some(
            match keyword(kwargs, "caller"@) {
                Some(v) => v,
                None => ValueView::Undefined,
            },
        )
    } else {
        None
    }
}

/// Whether the keyword at `j` is consumed by nobody: it names no parameter
/// and is not the `caller` of a macro that uses it.
pub open spec fn is_unknown<X>(
    params: Seq<Seq<char>>,
    caller_reference: bool,
    kwargs: Seq<(Seq<char>, ValueView<X>)>,
    j: int,
) -> bool {
    &&& 0 <= j < kwargs.len()
    &&& !params.contains(kwargs[j].0)
    &&& !(caller_reference && kwargs[j].0 == "caller"@)
}

/// Whether the keyword at `j` is the first that nobody consumes.
pub open spec fn is_first_unknown<X>(
    params: Seq<Seq<char>>,
    caller_reference: bool,
    kwargs: Seq<(Seq<char>, ValueView<X>)>,
    j: int,
) -> bool {
    is_unknown(params, caller_reference, kwargs, j) && forall|k: int|
        0 <= k < j ==> !is_unknown(params, caller_reference, kwargs, k)
}

/// Whether some keyword is consumed by nobody.
pub open spec fn has_unknown<X>(
    params: Seq<Seq<char>>,
    caller_reference: bool,
    kwargs: Option<Seq<(Seq<char>, ValueView<X>)>>,
) -> bool {
    kwargs matches Some(entries) && exists|j: int|
        is_first_unknown(params, caller_reference, entries, j)
}

/// The place of the first keyword that nobody consumes.
pub open spec fn first_unknown<X>(
    params: Seq<Seq<char>>,
    caller_reference: bool,
    kwargs: Seq<(Seq<char>, ValueView<X>)>,
) -> int {
    choose|j: int| is_first_unknown(params, caller_reference, kwargs, j)
}

/// An error of the kind `kind` with the detail `detail`.
pub open spec fn failure(kind: ErrorKind, detail: Option<Seq<char>>) -> ErrorView {
    ErrorView { kind, detail }
}

/// What the call of the macro `m` answers in the render pass of `state`.
///
/// The checks come in this order, and the first that fails decides the
/// error: a macro has no methods; it can be called only in the render pass
/// that defined it; it takes no more positional arguments than it has
/// parameters; no parameter is passed twice; every keyword is consumed.
/// A call that passes them all binds the parameters for the evaluator.
pub open spec fn macro_call<X>(
    m: MacroView<X>,
    state: State,
    method: Option<Seq<char>>,
    args: Seq<ValueView<X>>,
) -> Result<MacroCallView<X>, ErrorView> {
    let positional = call_positional(args);
    let kwargs = call_kwargs(args);
    if method is Some {
        Err(failure(ErrorKind::InvalidOperation, Some("cannot call methods on macro"@)))
    } else if state.id != m.state_id {
        Err(
            failure(
                ErrorKind::InvalidOperation,
                Some("cannot call this macro. template state went away."@),
            ),
        )
    } else if positional.len() > m.params.len() {
        Err(failure(ErrorKind::TooManyArguments, None))
    } else if has_duplicate(m.params, positional, kwargs) {
        Err(
            failure(
                ErrorKind::TooManyArguments,
                Some(
                    "duplicate argument `"@ + m.params[first_duplicate(
                        m.params,
                        positional,
                        kwargs,
                    )] + "`"@,
                ),
            ),
        )
    } else if has_unknown(m.params, m.caller_reference, kwargs) {
        Err(
            failure(
                ErrorKind::TooManyArguments,
                Some(
                    "unknown keyword argument `"@ + kwargs->0[first_unknown(
                        m.params,
                        m.caller_reference,
                        kwargs->0,
                    )].0 + "`"@,
                ),
            ),
        )
    } else {
        Ok(
            MacroCallView {
                macro_ref_id: m.macro_ref_id,
                closure: *m.closure,
                caller: caller_value(m.caller_reference, kwargs),
                args: bound_args(m.params, positional, kwargs),
            },
        )
    }
}

/// The outcome of a macro call as a call of any value reports it: the
/// bindings go to the evaluator.
pub open spec fn macro_call_outcome<X>(
    m: MacroView<X>,
    state: State,
    method: Option<Seq<char>>,
    args: Seq<ValueView<X>>,
) -> Result<CallOutcomeView<X>, ErrorView> {
    match macro_call(m, state, method, args) {
        Ok(call) => Ok(CallOutcomeView::Evaluate(call)),
        Err(e) => Err(e),
    }
}

/// The first parameter that is passed twice is at one place only.
pub proof fn lemma_first_duplicate<X>(
    params: Seq<Seq<char>>,
    positional: Seq<ValueView<X>>,
    kwargs: Option<Seq<(Seq<char>, ValueView<X>)>>,
    i: int,
)
    requires
        is_first_duplicate(params, positional, kwargs, i),
    ensures
        has_duplicate(params, positional, kwargs),
        first_duplicate(params, positional, kwargs) == i,
{
    // Of two first places, neither lies before the other.
    assert(is_first_duplicate(
        params,
        positional,
        kwargs,
        first_duplicate(params, positional, kwargs),
    ));
}

/// The first keyword that nobody consumes is at one place only.
pub proof fn lemma_first_unknown<X>(
    params: Seq<Seq<char>>,
    caller_reference: bool,
    kwargs: Seq<(Seq<char>, ValueView<X>)>,
    j: int,
)
    requires
        is_first_unknown(params, caller_reference, kwargs, j),
    ensures
        has_unknown(params, caller_reference, Some(kwargs)),
        first_unknown(params, caller_reference, kwargs) == j,
{
    assert(is_first_unknown(params, caller_reference, Some(kwargs)->0, j));
    // Of two first places, neither lies before the other.
    assert(is_first_unknown(
        params,
        caller_reference,
        kwargs,
        first_unknown(params, caller_reference, kwargs),
    ));
}

/// Where a parameter is passed twice, some parameter is the first that is.
pub proof fn lemma_some_first_duplicate<X>(
    params: Seq<Seq<char>>,
    positional: Seq<ValueView<X>>,
    kwargs: Option<Seq<(Seq<char>, ValueView<X>)>>,
    i: int,
)
    requires
        is_duplicate(params, positional, kwargs, i),
    ensures
        has_duplicate(params, positional, kwargs),
        first_duplicate(params, positional, kwargs) <= i,
    decreases i,
{
    if exists|j: int| 0 <= j < i && is_duplicate(params, positional, kwargs, j) {
        let j = choose|j: int| 0 <= j < i && is_duplicate(params, positional, kwargs, j);
        lemma_some_first_duplicate(params, positional, kwargs, j);
    } else {
        lemma_first_duplicate(params, positional, kwargs, i);
    }
}

/// Where a keyword is consumed by nobody, some keyword is the first that
/// is.
pub proof fn lemma_some_first_unknown<X>(
    params: Seq<Seq<char>>,
    caller_reference: bool,
    kwargs: Seq<(Seq<char>, ValueView<X>)>,
    j: int,
)
    requires
        is_unknown(params, caller_reference, kwargs, j),
    ensures
        has_unknown(params, caller_reference, Some(kwargs)),
        first_unknown(params, caller_reference, kwargs) <= j,
    decreases j,
{
    if exists|k: int| 0 <= k < j && is_unknown(params, caller_reference, kwargs, k) {
        let k = choose|k: int| 0 <= k < j && is_unknown(params, caller_reference, kwargs, k);
        lemma_some_first_unknown(params, caller_reference, kwargs, k);
    } else {
        lemma_first_unknown(params, caller_reference, kwargs, j);
    }
}

/// The value of the attribute `key` of a macro; `None` where a macro has no
/// such attribute.
pub open spec fn macro_attr<X>(m: MacroView<X>, key: Seq<char>) -> Option<ValueView<X>> {
    if key == "name"@ {
        Some(ValueView::Str(m.name, StringType::Normal))
    } else if key == "arguments"@ {
        Some(
            ValueView::Sequence(
                Seq::new(m.params.len(), |i: int| ValueView::Str(m.params[i], StringType::Normal)),
            ),
        )
    } else if key == "caller"@ {
        Some(ValueView::Bool(m.caller_reference))
    } else {
        None
    }
}

/// The names of the attributes of a macro, in the order in which they are
/// enumerated.
pub open spec fn macro_keys() -> Seq<Seq<char>> {
    seq!["name"@, "arguments"@, "caller"@]
}

impl<X> Macro<X> {
    /// Whether the macro has a parameter of the given name.
    pub fn has_param(&self, name: &str) -> (r: bool)
        ensures
            r == self@.params.contains(name@),
    {
        let mut i: usize = 0;
        while i < self.arg_spec.len()
            invariant
                i <= self.arg_spec@.len(),
                forall|j: int| 0 <= j < i ==> (#[trigger] self.arg_spec@[j])@ != name@,
            decreases self.arg_spec@.len() - i,
        {
            if str_eq(&self.arg_spec[i], name) {
                assert(self@.params[i as int] == name@);
                return true;
            }
            i += 1;
        }
        assert forall|j: int| 0 <= j < self@.params.len() implies self@.params[j] != name@ by {
            assert(self@.params[j] == self.arg_spec@[j]@);
        }
        false
    }

    /// The value of a macro call whose body rendered as `output`: a string
    /// that is exempt from escaping while auto-escaping is on, since what a
    /// macro writes is markup; an ordinary string while it is off.
    pub fn wrap_output(state: &State, output: String) -> (v: Value<X>)
        ensures
            v@ == ValueView::<X>::Str(
                output@,
                if state.auto_escape == AutoEscape::Disabled {
                    StringType::Normal
                } else {
                    StringType::Safe
                },
            ),
    {
        match state.auto_escape() {
            AutoEscape::Disabled => Value::from_string(output),
            _ => Value::from_safe_string(output),
        }
    }

    /// The keyword arguments of a call and the number of its positional
    /// arguments.
    fn split_args<'a>(args: &'a [Value<X>]) -> (r: (usize, Option<&'a ValueMap<X>>))
        ensures
            r.0 <= args@.len(),
            call_positional(seq_view(args@)) == seq_view(args@).subrange(0, r.0 as int),
            match r.1 {
                Some(m) => call_kwargs(seq_view(args@)) == Some(m@),
                None => call_kwargs(seq_view(args@)) is None,
            },
    {
        if args.len() > 0 {
            let last = &args[args.len() - 1];
            match &last.0 {
                ValueRepr::Mapping(m, MapType::Kwargs) => {
                    proof {
                        lemma_mapping_view(*last);
                    }
                    (args.len() - 1, Some(m))
                },
                _ => (args.len(), None),
            }
        } else {
            (0, None)
        }
    }

    /// The value passed under the keyword `name`.
    fn keyword_arg<'a>(kwargs: Option<&'a ValueMap<X>>, name: &str) -> (r: Option<&'a Value<X>>)
        ensures
            option_view(
                match r {
                    Some(v) => Some(*v),
                    None => None,
                },
            ) == keyword(
                match kwargs {
                    Some(m) => Some(m@),
                    None => None,
                },
                name@,
            ),
    {
        match kwargs {
            Some(m) => m.get(name),
            None => None,
        }
    }
}

impl<X> Object<X> for Macro<X> {
    /// A macro behaves like a map from attribute names to values.
    fn repr(&self) -> (r: ObjectRepr)
        ensures
            r == ObjectRepr::Mapping,
    {
        ObjectRepr::Mapping
    }

    /// The attribute names of [`macro_keys`].
    fn enumeration(&self) -> (r: Enumeration<X>)
        ensures
            (r matches Enumeration::Static(names) && static_names(names@) == macro_keys()),
    {
        let names: &'static [&'static str] = &["name", "arguments", "caller"];
        Enumeration::Static(names)
    }

    /// The attribute that a string key names: the `name` of the macro, the
    /// names of its `arguments`, or whether it uses `caller`. Nothing for a
    /// key that is no string.
    fn get_value(&self, key: &Value<X>) -> (r: Option<Value<X>>)
        ensures
            match key@ {
                ValueView::Str(name, _) => option_view(r) == macro_attr(self@, name),
                _ => r is None,
            },
    {
        let name = match key.as_str() {
            Some(name) => name,
            None => {
                return None;
            },
        };
        if str_eq(name, "name") {
            Some(Value::from_arc_str(share(&self.name)))
        } else if str_eq(name, "arguments") {
            let mut names: Vec<Value<X>> = Vec::new();
            let mut i: usize = 0;
            while i < self.arg_spec.len()
                invariant
                    i <= self.arg_spec@.len(),
                    names@.len() == i,
                    forall|j: int|
                        0 <= j < i ==> (#[trigger] names@[j])@ == ValueView::<X>::Str(
                            self.arg_spec@[j]@,
                            StringType::Normal,
                        ),
                decreases self.arg_spec@.len() - i,
            {
                names.push(Value::from_arc_str(share(&self.arg_spec[i])));
                i += 1;
            }
            let v = Value::from_seq(names);
            assert(v@->Sequence_0 =~= Seq::new(
                self@.params.len(),
                |i: int| ValueView::<X>::Str(self@.params[i], StringType::Normal),
            ));
            Some(v)
        } else if str_eq(name, "caller") {
            Some(Value::from_bool(self.caller_reference))
        } else {
            None
        }
    }

    /// Checks a call of the macro and binds its arguments.
    fn call(&self, state: &State, method: Option<&str>, args: &[Value<X>]) -> (r: Result<
        CallOutcome<X>,
        Error,
    >)
        ensures
            call_view(r) == macro_call_outcome(
                self@,
                *state,
                method_view(method),
                seq_view(args@),
            ),
    {
        if method.is_some() {
            return Err(
                Error::new(ErrorKind::InvalidOperation, "cannot call methods on macro".to_owned()),
            );
        }
        // A macro can be called only while the render pass that defined its
        // body is the one that runs.
        if state.id() != self.state_id {
            return Err(
                Error::new(
                    ErrorKind::InvalidOperation,
                    "cannot call this macro. template state went away.".to_owned(),
                ),
            );
        }
        let (positional_len, kwargs) = Self::split_args(args);
        let ghost params = self@.params;
        let ghost positional = call_positional(seq_view(args@));
        let ghost keywords = call_kwargs(seq_view(args@));

        if positional_len > self.arg_spec.len() {
            return Err(Error::from_kind(ErrorKind::TooManyArguments));
        }
        let mut bound: Vec<Value<X>> = Vec::new();
        let mut i: usize = 0;
        while i < self.arg_spec.len()
            invariant
                params == self@.params,
                positional == call_positional(seq_view(args@)),
                positional == seq_view(args@).subrange(0, positional_len as int),
                keywords == call_kwargs(seq_view(args@)),
                keywords == match kwargs {
                    Some(m) => Some(m@),
                    None => None,
                },
                method is None,
                state.id == self.state_id,
                positional_len <= args@.len(),
                positional_len <= self.arg_spec@.len(),
                i <= self.arg_spec@.len(),
                bound@.len() == i,
                forall|j: int| 0 <= j < i ==> !is_duplicate(params, positional, keywords, j),
                forall|j: int|
                    0 <= j < i ==> (#[trigger] bound@[j])@ == bound_arg(
                        params,
                        positional,
                        keywords,
                        j,
                    ),
            decreases self.arg_spec@.len() - i,
        {
            let name: &str = &self.arg_spec[i];
            let kwarg = Self::keyword_arg(kwargs, name);
            if i < positional_len {
                if kwarg.is_some() {
                    proof {
                        lemma_first_duplicate(params, positional, keywords, i as int);
                    }
                    let mut detail = "duplicate argument `".to_owned();
                    detail.append(name);
                    detail.append("`");
                    return Err(Error::new(ErrorKind::TooManyArguments, detail));
                }
                bound.push(args[i].clone());
            } else {
                match kwarg {
                    Some(v) => bound.push(v.clone()),
                    None => bound.push(Value::undefined()),
                }
            }
            i += 1;
        }
        assert(seq_view(bound@) =~= bound_args(params, positional, keywords));

        let caller = if self.caller_reference {
            match Self::keyword_arg(kwargs, "caller") {
                Some(v) => Some(v.clone()),
                None => Some(Value::undefined()),
            }
        } else {
            None
        };

        if let Some(m) = kwargs {
            let mut j: usize = 0;
            while j < m.len()
                invariant
                    params == self@.params,
                    positional == call_positional(seq_view(args@)),
                    keywords == call_kwargs(seq_view(args@)),
                    keywords == Some(m@),
                    method is None,
                    state.id == self.state_id,
                    positional.len() <= params.len(),
                    !has_duplicate(params, positional, keywords),
                    j <= m@.len(),
                    forall|k: int| 0 <= k < j ==> !is_unknown(params, self.caller_reference, m@, k),
                decreases m@.len() - j,
            {
                let key = m.entries[j].0.as_str();
                if !self.has_param(key) && !(self.caller_reference && str_eq(key, "caller")) {
                    proof {
                        lemma_first_unknown(params, self.caller_reference, m@, j as int);
                    }
                    let mut detail = "unknown keyword argument `".to_owned();
                    detail.append(key);
                    detail.append("`");
                    return Err(Error::new(ErrorKind::TooManyArguments, detail));
                }
                j += 1;
            }
        }
        Ok(
            CallOutcome::Evaluate(
                MacroCall {
                    macro_ref_id: self.macro_ref_id,
                    closure: self.closure.clone(),
                    caller,
                    args: bound,
                },
            ),
        )
    }

    /// The string form `<macro NAME>`.
    fn render(&self) -> (r: String)
        ensures
            r@ == "<macro "@ + self.name@ + ">"@,
    {
        let mut out = "<macro ".to_owned();
        out.append(&self.name);
        out.append(">");
        out
    }
}

/// A macro outlives the render pass that defined it only as a value that
/// refuses every call: in any other pass the call fails with
/// `InvalidOperation`, whatever the arguments are.
pub proof fn lemma_stale_macro_refused<X>(
    m: MacroView<X>,
    state: State,
    method: Option<Seq<char>>,
    args: Seq<ValueView<X>>,
)
    requires
        state.id != m.state_id,
    ensures
        macro_call(m, state, method, args) matches Err(e) && e.kind == ErrorKind::InvalidOperation,
{
}

/// A macro has no methods: a call that names one fails with
/// `InvalidOperation`.
pub proof fn lemma_macro_method_refused<X>(
    m: MacroView<X>,
    state: State,
    method: Seq<char>,
    args: Seq<ValueView<X>>,
)
    ensures
        macro_call(m, state, Some(method), args) matches Err(e) && e.kind
            == ErrorKind::InvalidOperation,
{
}

/// A call with more positional arguments than the macro has parameters
/// fails with `TooManyArguments`.
pub proof fn lemma_surplus_arguments_refused<X>(
    m: MacroView<X>,
    state: State,
    args: Seq<ValueView<X>>,
)
    requires
        state.id == m.state_id,
        call_positional(args).len() > m.params.len(),
    ensures
        macro_call(m, state, None, args) == Err::<MacroCallView<X>, ErrorView>(
            failure(ErrorKind::TooManyArguments, None),
        ),
{
}

/// A call that passes the parameter at `i` by position and by keyword
/// fails with `TooManyArguments`; where the positional arguments are not too
/// many and no earlier parameter is passed twice, the error names the
/// parameter.
pub proof fn lemma_duplicate_argument_refused<X>(
    m: MacroView<X>,
    state: State,
    args: Seq<ValueView<X>>,
    i: int,
)
    requires
        state.id == m.state_id,
        is_duplicate(m.params, call_positional(args), call_kwargs(args), i),
    ensures
        macro_call(m, state, None, args) matches Err(e) && e.kind == ErrorKind::TooManyArguments,
        call_positional(args).len() <= m.params.len() && is_first_duplicate(
            m.params,
            call_positional(args),
            call_kwargs(args),
            i,
        ) ==> macro_call(m, state, None, args) == Err::<MacroCallView<X>, ErrorView>(
            failure(ErrorKind::TooManyArguments, Some("duplicate argument `"@ + m.params[i] + "`"@)),
        ),
{
    lemma_some_first_duplicate(m.params, call_positional(args), call_kwargs(args), i);
    if is_first_duplicate(m.params, call_positional(args), call_kwargs(args), i) {
        lemma_first_duplicate(m.params, call_positional(args), call_kwargs(args), i);
    }
}

/// A call with the keyword at `j` that nobody consumes fails with
/// `TooManyArguments`; where the call is in order up to its keywords and no
/// earlier keyword is left over, the error names the keyword.
pub proof fn lemma_unknown_keyword_refused<X>(
    m: MacroView<X>,
    state: State,
    args: Seq<ValueView<X>>,
    j: int,
)
    requires
        state.id == m.state_id,
        call_kwargs(args) matches Some(entries) && is_unknown(
            m.params,
            m.caller_reference,
            entries,
            j,
        ),
    ensures
        macro_call(m, state, None, args) matches Err(e) && e.kind == ErrorKind::TooManyArguments,
        ({
            &&& call_positional(args).len() <= m.params.len()
            &&& !has_duplicate(m.params, call_positional(args), call_kwargs(args))
            &&& is_first_unknown(m.params, m.caller_reference, call_kwargs(args)->0, j)
        }) ==> macro_call(m, state, None, args) == Err::<MacroCallView<X>, ErrorView>(
            failure(
                ErrorKind::TooManyArguments,
                Some("unknown keyword argument `"@ + call_kwargs(args)->0[j].0 + "`"@),
            ),
        ),
{
    let entries = call_kwargs(args)->0;
    lemma_some_first_unknown(m.params, m.caller_reference, entries, j);
    if is_first_unknown(m.params, m.caller_reference, entries, j) {
        lemma_first_unknown(m.params, m.caller_reference, entries, j);
    }
}

/// A call in order binds every parameter: to its positional argument, else
/// to its keyword argument, else to undefined.
pub proof fn lemma_call_in_order_binds<X>(
    m: MacroView<X>,
    state: State,
    args: Seq<ValueView<X>>,
)
    requires
        state.id == m.state_id,
        call_positional(args).len() <= m.params.len(),
        !has_duplicate(m.params, call_positional(args), call_kwargs(args)),
        !has_unknown(m.params, m.caller_reference, call_kwargs(args)),
    ensures
        macro_call(m, state, None, args) matches Ok(call) && call.args.len() == m.params.len()
            && forall|i: int|
            0 <= i < call.args.len() ==> #[trigger] call.args[i] == bound_arg(
                m.params,
                call_positional(args),
                call_kwargs(args),
                i,
            ),
{
}

} // verus!
