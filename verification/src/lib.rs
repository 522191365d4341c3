//! Locates one named article inside a block-compressed encyclopedia dump and
//! converts its wiki markup body into a simplified hypertext rendering.
//!
//! The pipeline has four stages: a sparse secondary index over compressed
//! block boundaries ([`index`]), random-access extraction of one compressed
//! block ([`extract`]), a streaming structural parser that rebuilds typed
//! article records from nested tags ([`records`]), and a recursive
//! markup-to-hypertext transducer ([`render`]).

use vstd::prelude::*;

pub mod extract;
pub mod index;
pub mod records;
pub mod render;
pub mod strutil;

verus! {

/// The error kinds that the pipeline surfaces to its caller.
#[derive(Clone, Copy, Debug, PartialEq, Eq, Structural)]
pub enum WikiError {
    /// A malformed line or integer field in the index source.
    IndexParse,
    /// Malformed nested-tag content, or an unparseable numeric field in it.
    StructuralParse,
    /// A corrupt or truncated compressed frame.
    Codec,
    /// Decompressed bytes that are not valid text.
    Decode,
}

} // verus!
