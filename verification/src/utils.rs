//! Settings that the whole engine shares.

use vstd::prelude::*;

verus! {

/// How output is escaped while a template renders.
#[derive(Clone, Copy, Debug, PartialEq, Eq, Structural)]
pub enum AutoEscape {
    /// Nothing is escaped.
    Disabled,
    /// Output is escaped for HTML.
    Html,
    /// Output is escaped for JSON.
    Json,
}

} // verus!
