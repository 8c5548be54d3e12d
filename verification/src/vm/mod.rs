//! The objects that the evaluator creates while a template renders, and
//! the state that it hands to calls.

pub mod loop_object;
pub mod macro_object;
pub mod state;
