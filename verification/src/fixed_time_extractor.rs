//! Fixed-phrase extractor: a pattern plus one constant clock value.
//! When the pattern matches anywhere in the text the constant is emitted
//! exactly once per call, however many times the pattern occurs.

use vstd::prelude::*;
use crate::extractor::Extractor;
use crate::extractor::ExtractorConfigError;
use crate::pattern_match::regex_accepts;
use crate::pattern_match::regex_found;
use crate::pattern_match::regex_is_match;
use crate::pattern_match::regex_compiles;
use crate::time_components::TimeComponents;
use crate::time_extractor_context::TimeExtractorContext;
use crate::time_extractor_context::TimeExtractorContextView;

verus! {

pub struct FixedTimeExtractor {
    pattern: String,
    fixed_time: TimeComponents,
}

impl FixedTimeExtractor {
    #[verifier::type_invariant]
    spec fn wf(self) -> bool {
        regex_accepts(self.pattern@)
    }

    pub closed spec fn spec_pattern(&self) -> Seq<char> {
        self.pattern@
    }

    pub closed spec fn spec_fixed_time(&self) -> TimeComponents {
        self.fixed_time
    }

    /// Build the extractor; fails exactly when the pattern does not
    /// compile.
    pub fn new(regex: &str, value: TimeComponents) -> (r: Result<Self, ExtractorConfigError>)
        ensures
            regex_accepts(regex@) ==> (r matches Ok(e) && e.spec_pattern() == regex@
                && e.spec_fixed_time() == value),
            !regex_accepts(regex@) ==> r == Err::<Self, ExtractorConfigError>(
                ExtractorConfigError::InvalidPattern,
            ),
    {
        if regex_compiles(regex) {
            Ok(FixedTimeExtractor { pattern: regex.to_owned(), fixed_time: value })
        } else {
            Err(ExtractorConfigError::InvalidPattern)
        }
    }
}

impl Extractor<TimeExtractorContext, TimeComponents> for FixedTimeExtractor {
    open spec fn spec_extract(&self, text: Seq<char>, ctx: TimeExtractorContextView) -> Seq<
        TimeComponents,
    > {
        if regex_found(self.spec_pattern(), text) {
            seq![self.spec_fixed_time()]
        } else {
            Seq::empty()
        }
    }

    fn extract(&self, text: &str, ctx: &TimeExtractorContext) -> (r: Vec<TimeComponents>) {
        proof {
            use_type_invariant(&*self);
        }
        let mut result: Vec<TimeComponents> = Vec::new();
        if regex_is_match(self.pattern.as_str(), text) {
            result.push(self.fixed_time);
        }
        proof {
            assert(result@ =~= self.spec_extract(text@, ctx@));
        }
        result
    }
}

} // verus!
