//! The polymorphic extraction capability.
//!
//! An extractor recognizes mentions in a text under some grammar and
//! yields results in appearance order, duplicates allowed; deduplication
//! is a downstream responsibility.  Each implementation fixes its exact
//! behaviour through `spec_extract`.

use vstd::prelude::*;

verus! {

/// The extraction contract: `extract(text, context)` yields a sequence of
/// results, pinned down by the implementation's `spec_extract` over the
/// context's mathematical view.
pub trait Extractor<C: View, R> {
    /// The results this extractor yields on `text` under a context.
    spec fn spec_extract(&self, text: Seq<char>, ctx: C::V) -> Seq<R>;

    fn extract(&self, text: &str, ctx: &C) -> (r: Vec<R>)
        ensures
            r@ == self.spec_extract(text@, ctx@),
    ;
}

/// A fatal extractor construction error: the process should not start
/// with a misconfigured extractor.
#[derive(Debug, Clone, Copy, PartialEq, Eq, Structural)]
pub enum ExtractorConfigError {
    /// The pattern does not compile.
    InvalidPattern,
    /// The pattern lacks one of the required named capture groups.
    MissingRequiredCaptureGroup,
    /// The pattern names a capture group outside the allow-list.
    DisallowedCaptureGroup,
}

} // verus!
