//! Renders the Swift side of a bridged function signature: the declared
//! parameter list, the argument list used to forward a call back into Rust,
//! and the return clause.
pub mod builtin;
pub mod signature;
pub mod render;
pub mod laws;

pub use builtin::{BuiltInTypes, Classification};
pub use signature::{Param, ParsedExternFn, RefKind, TypeRef};
