//! Current-time extractor: when its pattern matches, it emits the time
//! the triggering message was sent, read in the author's local timezone
//! from the context — never a value derived from the matched text.

use vstd::prelude::*;
use crate::extractor::Extractor;
use crate::extractor::ExtractorConfigError;
use crate::pattern_match::regex_accepts;
use crate::pattern_match::regex_found;
use crate::pattern_match::regex_is_match;
use crate::pattern_match::regex_compiles;
use crate::time_components::TimeComponents;
use crate::time_extractor_context::TimeExtractorContext;
use crate::time_extractor_context::TimeExtractorContextView;

verus! {

pub struct CurrentTimeExtractor {
    pattern: String,
}

impl CurrentTimeExtractor {
    #[verifier::type_invariant]
    spec fn wf(self) -> bool {
        regex_accepts(self.pattern@)
    }

    pub closed spec fn spec_pattern(&self) -> Seq<char> {
        self.pattern@
    }

    /// Build the extractor; fails exactly when the pattern does not
    /// compile.
    pub fn new(regex: &str) -> (r: Result<Self, ExtractorConfigError>)
        ensures
            regex_accepts(regex@) ==> (r matches Ok(e) && e.spec_pattern() == regex@),
            !regex_accepts(regex@) ==> r == Err::<Self, ExtractorConfigError>(
                ExtractorConfigError::InvalidPattern,
            ),
    {
        if regex_compiles(regex) {
            Ok(CurrentTimeExtractor { pattern: regex.to_owned() })
        } else {
            Err(ExtractorConfigError::InvalidPattern)
        }
    }
}

impl Extractor<TimeExtractorContext, TimeComponents> for CurrentTimeExtractor {
    open spec fn spec_extract(&self, text: Seq<char>, ctx: TimeExtractorContextView) -> Seq<
        TimeComponents,
    > {
        if regex_found(self.spec_pattern(), text) {
            seq![ctx.msg_time]
        } else {
            Seq::empty()
        }
    }

    fn extract(&self, text: &str, ctx: &TimeExtractorContext) -> (r: Vec<TimeComponents>) {
        proof {
            use_type_invariant(&*self);
        }
        let mut result: Vec<TimeComponents> = Vec::new();
        if regex_is_match(self.pattern.as_str(), text) {
            result.push(ctx.message_time());
        }
        proof {
            assert(result@ =~= self.spec_extract(text@, ctx@));
        }
        result
    }
}

} // verus!
