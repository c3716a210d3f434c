use vstd::prelude::*;

verus! {

/// Why a decode did not produce a value.
#[derive(Debug, Clone, Copy, PartialEq, Eq, Structural)]
pub enum Error {
    /// Fewer bytes remain than the encoding of the type takes.
    InsufficientBytes,
    /// The bytes form no value of the type.
    InvalidEncoding,
    /// A magic or version field matches no known constant.
    InvalidVersion,
}

} // verus!
