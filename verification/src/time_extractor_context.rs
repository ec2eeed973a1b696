//! Per-message extraction context: the author's local timezone and the
//! moment the message was sent, read as a clock time in that timezone.
//! Built fresh per message and never mutated.

use vstd::prelude::*;
use crate::time_components::TimeComponents;

verus! {

/// The mathematical reading of a context: the zone name and the
/// message's clock time.
pub ghost struct TimeExtractorContextView {
    pub local_tz: Seq<char>,
    pub msg_time: TimeComponents,
}

/// The context every time extractor runs under.
pub struct TimeExtractorContext {
    local_tz: String,
    msg_time: TimeComponents,
}

impl View for TimeExtractorContext {
    type V = TimeExtractorContextView;

    closed spec fn view(&self) -> TimeExtractorContextView {
        TimeExtractorContextView { local_tz: self.local_tz@, msg_time: self.msg_time }
    }
}

impl TimeExtractorContext {
    pub open spec fn spec_local_tz(&self) -> Seq<char> {
        self@.local_tz
    }

    pub open spec fn spec_msg_time(&self) -> TimeComponents {
        self@.msg_time
    }

    pub fn new(local_tz: String, msg_time: TimeComponents) -> (r: Self)
        ensures
            r@ == (TimeExtractorContextView { local_tz: local_tz@, msg_time }),
    {
        TimeExtractorContext { local_tz, msg_time }
    }

    pub fn local_tz(&self) -> (r: &String)
        ensures
            r@ == self.spec_local_tz(),
    {
        &self.local_tz
    }

    pub fn message_time(&self) -> (r: TimeComponents)
        ensures
            r == self.spec_msg_time(),
    {
        self.msg_time
    }
}

} // verus!
