use vstd::prelude::*;

pub mod codec;
pub mod error;
pub mod model;
pub mod register;
pub mod serialize;
pub mod snapshot;
pub mod transport;

verus! {

/// One 16-bit holding register value.
pub type Word = u16;

/// A run of consecutive register words.
pub type Words = Vec<Word>;

/// Two consecutive register words, high word first.
pub type WordPair = [Word; 2];

} // verus!
