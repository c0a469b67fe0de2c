//! Core of a binding generator: it models the declarations of a source
//! package, discovers the items marked for cross-language exposure, builds
//! the package's module tree, and dispatches every referenced type
//! expression to the behavior that knows how to name and convert it.

pub mod ast;
pub mod error;
pub mod module;
pub mod strutil;
pub mod types;
