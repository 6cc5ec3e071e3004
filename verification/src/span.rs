//! Source locations with provenance.

use vstd::prelude::*;

verus! {

/// Where the text under a span comes from.
#[derive(Clone, Copy, Debug, PartialEq, Eq, Structural)]
pub enum Provenance {
    /// The user wrote the text at this location.
    Authored,
    /// A macro produced the code; no text of the user stands behind it.
    Synthesized,
}

/// A half-open byte range `lo..hi` into one source file, with its provenance.
///
/// Two spans are the same span when file, offsets and provenance agree.
#[derive(Clone, Copy, Debug, PartialEq, Eq, Structural)]
pub struct Span {
    /// Index of the file in the source map.
    pub file: usize,
    /// First byte of the range.
    pub lo: usize,
    /// One past the last byte of the range.
    pub hi: usize,
    pub provenance: Provenance,
}

impl Span {
    /// Whether the user wrote the text under this span.
    pub open spec fn spec_is_authored(&self) -> bool {
        self.provenance == Provenance::Authored
    }

    /// A span over text that the user wrote.
    pub fn authored(file: usize, lo: usize, hi: usize) -> (span: Span)
        ensures
            span == (Span { file, lo, hi, provenance: Provenance::Authored }),
    {
        Span { file, lo, hi, provenance: Provenance::Authored }
    }

    /// A span over code that a macro produced.
    pub fn synthesized(file: usize, lo: usize, hi: usize) -> (span: Span)
        ensures
            span == (Span { file, lo, hi, provenance: Provenance::Synthesized }),
    {
        Span { file, lo, hi, provenance: Provenance::Synthesized }
    }

    /// Whether the user wrote the text under this span.
    #[verifier::when_used_as_spec(spec_is_authored)]
    pub fn is_authored(&self) -> (authored: bool)
        ensures
            authored == self.spec_is_authored(),
    {
        self.provenance == Provenance::Authored
    }
}

} // verus!
