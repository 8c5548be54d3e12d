//! The runtime value core of a template engine: the dynamically typed
//! [`value::Value`], the capability protocol that dynamic objects implement,
//! and the two stateful objects every template can meet, the loop context
//! and the macro closure.

pub mod error;
pub mod text;
pub mod utils;
pub mod value;
pub mod vm;
