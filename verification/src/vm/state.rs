//! The state of a render pass, as far as calls of values need it.

use vstd::prelude::*;
use crate::error::{Error, ErrorKind, ErrorView};
use crate::utils::AutoEscape;

verus! {

/// What a call learns of the render pass that makes it.
#[derive(Clone, Copy, Debug, PartialEq, Eq, Structural)]
pub struct State {
    /// The identity of the render pass.
    pub id: isize,
    /// The escaping that is in force.
    pub auto_escape: AutoEscape,
    /// How many evaluations enclose the one that runs.
    pub depth: usize,
    /// How many nested evaluations the render pass allows.
    pub recursion_limit: usize,
}

/// The state of an evaluation nested in the one of `state` or, where the
/// render pass allows no deeper nesting, the error that says so.
pub open spec fn entered(state: State) -> Result<State, ErrorView> {
    if state.depth < state.recursion_limit {
        Ok(
            State {
                id: state.id,
                auto_escape: state.auto_escape,
                depth: (state.depth + 1) as usize,
                recursion_limit: state.recursion_limit,
            },
        )
    } else {
        Err(
            ErrorView {
                kind: ErrorKind::InvalidOperation,
                detail: Some("recursion limit exceeded"@),
            },
        )
    }
}

impl State {
    /// The state at the start of the render pass `id`, with the given
    /// escaping; the pass allows `recursion_limit` nested evaluations.
    pub fn new(id: isize, auto_escape: AutoEscape, recursion_limit: usize) -> (s: State)
        ensures
            s == (State { id, auto_escape, depth: 0, recursion_limit }),
    {
        State { id, auto_escape, depth: 0, recursion_limit }
    }

    /// The identity of the render pass.
    pub fn id(&self) -> (id: isize)
        ensures
            id == self.id,
    {
        self.id
    }

    /// The escaping that is in force.
    pub fn auto_escape(&self) -> (mode: AutoEscape)
        ensures
            mode == self.auto_escape,
    {
        self.auto_escape
    }

    /// The state of an evaluation nested in this one, as the evaluator needs
    /// it to render the body of a macro. Nesting deeper than the render pass
    /// allows is an error, not a crash: see [`entered`].
    pub fn enter(&self) -> (r: Result<State, Error>)
        ensures
            match r {
                Ok(nested) => entered(*self) == Ok::<State, ErrorView>(nested),
                Err(e) => entered(*self) == Err::<State, ErrorView>(e@),
            },
    {
        if self.depth < self.recursion_limit {
            Ok(
                State {
                    id: self.id,
                    auto_escape: self.auto_escape,
                    depth: self.depth + 1,
                    recursion_limit: self.recursion_limit,
                },
            )
        } else {
            Err(Error::new(ErrorKind::InvalidOperation, "recursion limit exceeded".to_owned()))
        }
    }
}

/// Nested evaluations never get deeper than the render pass allows: a
/// state within the limit enters only states within the limit, of the same
/// render pass.
pub proof fn lemma_entered_within_limit(state: State)
    requires
        state.depth <= state.recursion_limit,
    ensures
        entered(state) matches Ok(nested) ==> nested.depth == state.depth + 1 && nested.depth
            <= nested.recursion_limit && nested.id == state.id && nested.recursion_limit
            == state.recursion_limit,
        entered(state) is Err <==> state.depth == state.recursion_limit,
{
}

} // verus!
