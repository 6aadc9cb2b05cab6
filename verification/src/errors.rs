use vstd::prelude::*;

verus! {

/// Why an operation stopped before reaching the native engine, or why the
/// engine's answer was rejected.
#[derive(Clone, Copy, Debug, PartialEq, Eq, Structural)]
pub enum Error {
    /// The given text cannot be represented as a nul-terminated string.
    MarshalError,
    /// The engine reported failure: a null or malformed handle came back.
    LoadError,
    /// A caller-supplied argument failed validation before the boundary.
    InvalidArgument,
}

} // verus!
