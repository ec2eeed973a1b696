//! Dynamic-pattern extractor: a user-supplied pattern with named capture
//! groups `hours`, `minutes` and `time_kind`.  Construction fails when a
//! required group is missing or a group outside the allow-list appears.
//! At runtime every non-overlapping match is parsed into a clock time;
//! matches with unparsable fields or out-of-bounds values are silently
//! skipped, and the result sequence is deduplicated by value.

use vstd::prelude::*;
use crate::extractor::Extractor;
use crate::extractor::ExtractorConfigError;
use crate::pattern_match::fancy_accepts;
use crate::pattern_match::fancy_captures;
use crate::pattern_match::fancy_capture_group_names;
use crate::pattern_match::fancy_compiles;
use crate::pattern_match::fancy_find_captures;
use crate::pattern_match::fancy_group_names;
use crate::text::dedup_first;
use crate::text::dedup_times;
use crate::text::spec_kind_of;
use crate::text::spec_parse_u32;
use crate::text::kind_of_str;
use crate::text::parse_u32;
use crate::time_components::TimeComponents;
use crate::time_components::valid_time;
use crate::time_extractor_context::TimeExtractorContext;
use crate::time_extractor_context::TimeExtractorContextView;

verus! {

/// The required (and only allowed) named capture groups hold: `hours`,
/// `minutes` and `time_kind` are all present and nothing else is.
pub open spec fn spec_groups_ok(names: Seq<Seq<char>>) -> bool {
    &&& names.contains("hours"@)
    &&& names.contains("minutes"@)
    &&& names.contains("time_kind"@)
    &&& forall|i: int|
        0 <= i < names.len() ==> (#[trigger] names[i] == "hours"@ || names[i] == "minutes"@
            || names[i] == "time_kind"@)
}

/// The clock time one match denotes: `hours` parsed as an integer,
/// `minutes` parsed with a default of 0 when absent or unparsable,
/// `time_kind` read case-insensitively as AM or PM; `None` when a
/// required field is missing, unparsable, or out of bounds.
pub open spec fn spec_process_match(
    m: (Option<Seq<char>>, Option<Seq<char>>, Option<Seq<char>>),
) -> Option<TimeComponents> {
    match m.0 {
        None => None,
        Some(hs) => match spec_parse_u32(hs) {
            None => None,
            Some(hour) => {
                let minute = match m.1 {
                    Some(ms) => match spec_parse_u32(ms) {
                        Some(v) => v,
                        None => 0u32,
                    },
                    None => 0u32,
                };
                match m.2 {
                    None => None,
                    Some(ks) => match spec_kind_of(ks) {
                        None => None,
                        Some(kind) => if valid_time(hour as int, minute as int, kind) {
                            Some(TimeComponents::spec_new(hour, minute, kind))
                        } else {
                            None
                        },
                    },
                }
            },
        },
    }
}

/// The clock times a sequence of matches denotes, skipped matches
/// dropped, in match order.
pub open spec fn spec_matches_to_times(
    ms: Seq<(Option<Seq<char>>, Option<Seq<char>>, Option<Seq<char>>)>,
) -> Seq<TimeComponents>
    decreases ms.len(),
{
    if ms.len() == 0 {
        Seq::empty()
    } else {
        let rest = spec_matches_to_times(ms.drop_last());
        match spec_process_match(ms.last()) {
            Some(t) => rest.push(t),
            None => rest,
        }
    }
}

pub struct DynamicTimeExtractor {
    pattern: String,
}

impl DynamicTimeExtractor {
    #[verifier::type_invariant]
    spec fn wf(self) -> bool {
        fancy_accepts(self.pattern@) && spec_groups_ok(fancy_group_names(self.pattern@))
    }

    pub closed spec fn spec_pattern(&self) -> Seq<char> {
        self.pattern@
    }

    /// Build the extractor.  Construction fails exactly when the pattern
    /// does not compile, lacks one of the three required named capture
    /// groups, or names a group outside the allow-list.
    pub fn new(regex: &str) -> (r: Result<Self, ExtractorConfigError>)
        ensures
            !fancy_accepts(regex@) ==> r == Err::<Self, ExtractorConfigError>(
                ExtractorConfigError::InvalidPattern,
            ),
            fancy_accepts(regex@) ==> {
                let names = fancy_group_names(regex@);
                if !(names.contains("hours"@) && names.contains("minutes"@) && names.contains(
                    "time_kind"@,
                )) {
                    r == Err::<Self, ExtractorConfigError>(
                        ExtractorConfigError::MissingRequiredCaptureGroup,
                    )
                } else if !spec_groups_ok(names) {
                    r == Err::<Self, ExtractorConfigError>(
                        ExtractorConfigError::DisallowedCaptureGroup,
                    )
                } else {
                    r matches Ok(e) && e.spec_pattern() == regex@
                }
            },
    {
        if !fancy_compiles(regex) {
            return Err(ExtractorConfigError::InvalidPattern);
        }
        let names = fancy_capture_group_names(regex);
        let hours_name: String = String::from_str("hours");
        let minutes_name: String = String::from_str("minutes");
        let kind_name: String = String::from_str("time_kind");
        if !(names_contain(&names, &hours_name) && names_contain(&names, &minutes_name)
            && names_contain(&names, &kind_name)) {
            return Err(ExtractorConfigError::MissingRequiredCaptureGroup);
        }
        if !names_all_allowed(&names, &hours_name, &minutes_name, &kind_name) {
            return Err(ExtractorConfigError::DisallowedCaptureGroup);
        }
        Ok(DynamicTimeExtractor { pattern: regex.to_owned() })
    }
}

fn names_contain(names: &Vec<String>, target: &String) -> (b: bool)
    ensures
        b == names.deep_view().contains(target@),
{
    let mut i: usize = 0;
    while i < names.len()
        invariant
            0 <= i <= names@.len(),
            forall|j: int| 0 <= j < i ==> names.deep_view()[j] != target@,
        decreases names@.len() - i,
    {
        proof {
            assert(names.deep_view()[i as int] == names@[i as int]@);
        }
        if names[i].eq(target) {
            return true;
        }
        i = i + 1;
    }
    false
}

fn names_all_allowed(names: &Vec<String>, a: &String, b: &String, c: &String) -> (ok: bool)
    ensures
        ok == (forall|i: int|
            0 <= i < names.deep_view().len() ==> (#[trigger] names.deep_view()[i] == a@
                || names.deep_view()[i] == b@ || names.deep_view()[i] == c@)),
{
    let mut i: usize = 0;
    while i < names.len()
        invariant
            0 <= i <= names@.len(),
            forall|j: int|
                0 <= j < i ==> (#[trigger] names.deep_view()[j] == a@ || names.deep_view()[j] == b@
                    || names.deep_view()[j] == c@),
        decreases names@.len() - i,
    {
        proof {
            assert(names.deep_view()[i as int] == names@[i as int]@);
        }
        let n = &names[i];
        if !(n.eq(a) || n.eq(b) || n.eq(c)) {
            return false;
        }
        i = i + 1;
    }
    true
}

/// Parse one match's captured groups into a clock time.
fn process_match(m: &(Option<String>, Option<String>, Option<String>)) -> (r: Option<
    TimeComponents,
>)
    ensures
        r == spec_process_match(m.deep_view()),
{
    let hour = match &m.0 {
        Some(hs) => match parse_u32(hs.as_str()) {
            Some(h) => h,
            None => return None,
        },
        None => return None,
    };
    let minute = match &m.1 {
        Some(ms) => match parse_u32(ms.as_str()) {
            Some(v) => v,
            None => 0,
        },
        None => 0,
    };
    let kind = match &m.2 {
        Some(ks) => match kind_of_str(ks.as_str()) {
            Some(k) => k,
            None => return None,
        },
        None => return None,
    };
    match TimeComponents::new(hour, minute, kind) {
        Ok(t) => Some(t),
        Err(_) => None,
    }
}

impl Extractor<TimeExtractorContext, TimeComponents> for DynamicTimeExtractor {
    open spec fn spec_extract(&self, text: Seq<char>, ctx: TimeExtractorContextView) -> Seq<
        TimeComponents,
    > {
        dedup_first(
            spec_matches_to_times(
                fancy_captures(self.spec_pattern(), text, "hours"@, "minutes"@, "time_kind"@),
            ),
        )
    }

    fn extract(&self, text: &str, ctx: &TimeExtractorContext) -> (r: Vec<TimeComponents>) {
        proof {
            use_type_invariant(&*self);
        }
        let raw = fancy_find_captures(self.pattern.as_str(), text, "hours", "minutes", "time_kind");
        let mut times: Vec<TimeComponents> = Vec::new();
        let mut i: usize = 0;
        while i < raw.len()
            invariant
                0 <= i <= raw@.len(),
                raw.deep_view() == fancy_captures(
                    self.spec_pattern(),
                    text@,
                    "hours"@,
                    "minutes"@,
                    "time_kind"@,
                ),
                times@ == spec_matches_to_times(raw.deep_view().take(i as int)),
            decreases raw@.len() - i,
        {
            proof {
                assert(raw.deep_view().take(i + 1).drop_last() =~= raw.deep_view().take(i as int));
                assert(raw.deep_view().take(i + 1).last() == raw@[i as int].deep_view());
            }
            if let Some(t) = process_match(&raw[i]) {
                times.push(t);
            }
            i = i + 1;
        }
        proof {
            assert(raw.deep_view().take(raw@.len() as int) =~= raw.deep_view());
        }
        dedup_times(&times)
    }
}

} // verus!
