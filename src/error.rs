use vstd::prelude::*;

verus! {

/// A register block could not be decoded.
#[derive(Clone, Copy, Debug, PartialEq, Eq, Structural)]
pub enum DecodeError {
    /// The block held `actual` words where `expected` were needed.
    Length { expected: usize, actual: usize },
    /// A scaled field's divisor is zero: the model is not known.
    ZeroMultiplier,
}

/// A register exchange could not be made or failed on the link.
#[derive(Clone, Debug, PartialEq, Eq)]
pub enum TransportError {
    /// The connection reported a failure (timeout, malformed frame, exception response).
    Link { message: String },
    /// The number of registers is zero or above the protocol's limit for one request.
    Quantity { count: usize },
    /// The registers would run past the end of the address space.
    Range { address: u16, count: usize },
}

/// Why a fetch failed.
#[derive(Clone, Debug, PartialEq, Eq)]
pub enum FetchError {
    Transport(TransportError),
    Decode(DecodeError),
}

} // verus!
