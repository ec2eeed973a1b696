//! Per-message pipeline: resolve the author's local timezone from their
//! roles, build the extraction context, run every configured extractor
//! through the full lift, deduplicate the instants, and render one reply
//! block per instant in the fixed destination timezones.  Every failure
//! mode resolves to silence: no reply is ever an error message.

use vstd::prelude::*;
use std::collections::HashMap;
use crate::config::Config;
use crate::config::LocationRole;
use crate::current_time_extractor::CurrentTimeExtractor;
use crate::dynamic_time_extractor::DynamicTimeExtractor;
use crate::dynamic_time_extractor::spec_groups_ok;
use crate::extractor::Extractor;
use crate::fixed_time_extractor::FixedTimeExtractor;
use crate::pattern_match::fancy_accepts;
use crate::pattern_match::fancy_group_names;
use crate::pattern_match::regex_accepts;
use crate::text::dedup_first;
use crate::text::dedup_instants;
use crate::text::lemma_dedup_first_contains;
use crate::text::spec_padded_hour;
use crate::text::spec_two_digits;
use crate::text::push_padded_hour;
use crate::text::push_two_digits;
use crate::time_components::TimeComponents;
use crate::time_components::TimeKind;
use crate::time_components::spec_kind_label;
use crate::time_components::spec_to_12h;
use crate::time_extractor_context::TimeExtractorContext;
use crate::time_extractor_context::TimeExtractorContextView;
use crate::time_lift::lemma_dedup_instants_view;
use crate::time_lift::lift_times_to_instants;
use crate::time_lift::spec_instants_view;
use crate::time_lift::spec_lift_times;
use crate::zones::utc_representable;
use crate::zones::zone_abbrev;
use crate::zones::zone_abbrev_at;
use crate::zones::zone_clock;
use crate::zones::zone_clock_at;
use crate::zones::zone_is_known;
use crate::zones::zone_known;
use crate::zones::zone_today;

verus! {

broadcast use vstd::std_specs::hash::group_hash_axioms;

/// A destination timezone and its display label.
pub struct TimeZoneInfo {
    name: String,
    tz: String,
}

impl TimeZoneInfo {
    #[verifier::type_invariant]
    spec fn wf(self) -> bool {
        zone_known(self.tz@)
    }

    pub closed spec fn spec_name(&self) -> Seq<char> {
        self.name@
    }

    pub closed spec fn spec_tz(&self) -> Seq<char> {
        self.tz@
    }

    /// Build a destination entry; fails exactly when the zone name is
    /// unknown.
    pub fn new(name: &str, tz: &str) -> (r: Option<TimeZoneInfo>)
        ensures
            r is Some <==> zone_known(tz@),
            r matches Some(z) ==> z.spec_name() == name@ && z.spec_tz() == tz@,
    {
        if zone_is_known(tz) {
            Some(TimeZoneInfo { name: name.to_owned(), tz: tz.to_owned() })
        } else {
            None
        }
    }
}

/// The closed set of configured extractor shapes.
pub enum TimeExtractor {
    Fixed(FixedTimeExtractor),
    Current(CurrentTimeExtractor),
    Dynamic(DynamicTimeExtractor),
}

impl Extractor<TimeExtractorContext, TimeComponents> for TimeExtractor {
    open spec fn spec_extract(&self, text: Seq<char>, ctx: TimeExtractorContextView) -> Seq<
        TimeComponents,
    > {
        match self {
            TimeExtractor::Fixed(e) => e.spec_extract(text, ctx),
            TimeExtractor::Current(e) => e.spec_extract(text, ctx),
            TimeExtractor::Dynamic(e) => e.spec_extract(text, ctx),
        }
    }

    fn extract(&self, text: &str, ctx: &TimeExtractorContext) -> (r: Vec<TimeComponents>) {
        match self {
            TimeExtractor::Fixed(e) => e.extract(text, ctx),
            TimeExtractor::Current(e) => e.extract(text, ctx),
            TimeExtractor::Dynamic(e) => e.extract(text, ctx),
        }
    }
}

/// The role-to-timezone map a location-role list denotes, later entries
/// overwriting earlier ones of the same role id.
pub open spec fn spec_role_map(roles: Seq<(u64, Seq<char>)>) -> Map<u64, Seq<char>>
    decreases roles.len(),
{
    if roles.len() == 0 {
        Map::empty()
    } else {
        spec_role_map(roles.drop_last()).insert(roles.last().0, roles.last().1)
    }
}

/// The timezones of the author's roles that are configured location
/// roles, in role order.
pub open spec fn spec_matching_timezones(map: Map<u64, Seq<char>>, roles: Seq<u64>) -> Seq<
    Seq<char>,
>
    decreases roles.len(),
{
    if roles.len() == 0 {
        Seq::empty()
    } else {
        let rest = spec_matching_timezones(map, roles.drop_last());
        if map.contains_key(roles.last()) {
            rest.push(map[roles.last()])
        } else {
            rest
        }
    }
}

/// The instants all extractors together yield on a text, each through
/// the full lift, concatenated in extractor order.
pub open spec fn spec_all_instants(
    es: Seq<TimeExtractor>,
    text: Seq<char>,
    cv: TimeExtractorContextView,
    zone: Seq<char>,
    today: int,
) -> Seq<int>
    decreases es.len(),
{
    if es.len() == 0 {
        Seq::empty()
    } else {
        spec_all_instants(es.drop_last(), text, cv, zone, today) + spec_lift_times(
            es.last().spec_extract(text, cv),
            zone,
            today,
        )
    }
}

/// The fixed-phrase pattern recognizing a midnight mention.
pub open spec fn spec_midnight_pattern() -> Seq<char> {
    "(?i:midnight)"@
}

/// The fixed-phrase pattern recognizing a noon mention.
pub open spec fn spec_noon_pattern() -> Seq<char> {
    "(?i:noon|midday)"@
}

/// The pattern recognizing a current-time question.
pub open spec fn spec_current_time_pattern() -> Seq<char> {
    "(?i:what\\s+time\\s+is\\s+it\\s+now|(?:current\\s+time))"@
}

/// The dynamic pattern recognizing explicit clock mentions such as
/// `5pm` or `11:30 am`.
pub open spec fn spec_dynamic_pattern() -> Seq<char> {
    "(?i:(?<!\\w)(?P<hours>(?:1[012])|(?:0?[123456789]))\\s*(?::\\s*(?P<minutes>(?:[12345]\\d)|(?:0\\d)))?\\s*(?P<time_kind>[ap]m)(?!\\w))"@
}

/// The fixed destination list: label and zone, in output order.
pub open spec fn spec_default_outputs() -> Seq<(Seq<char>, Seq<char>)> {
    seq![
        ("UK"@, "Europe/London"@),
        ("US East"@, "America/New_York"@),
        ("US West"@, "America/Los_Angeles"@),
    ]
}

/// The default extractor set: midnight, noon/midday, the current-time
/// question, and the dynamic clock pattern, in that order.
pub open spec fn spec_default_extractors(es: Seq<TimeExtractor>) -> bool {
    &&& es.len() == 4
    &&& es[0] matches TimeExtractor::Fixed(e) && e.spec_pattern() == spec_midnight_pattern()
        && e.spec_fixed_time() == TimeComponents::spec_new(0, 0, TimeKind::Military)
    &&& es[1] matches TimeExtractor::Fixed(e) && e.spec_pattern() == spec_noon_pattern()
        && e.spec_fixed_time() == TimeComponents::spec_new(12, 0, TimeKind::Military)
    &&& es[2] matches TimeExtractor::Current(e) && e.spec_pattern() == spec_current_time_pattern()
    &&& es[3] matches TimeExtractor::Dynamic(e) && e.spec_pattern() == spec_dynamic_pattern()
}

/// Whether all the fixed constants of the pipeline are accepted by their
/// engines and databases; construction succeeds exactly then.
pub open spec fn spec_defaults_available() -> bool {
    &&& regex_accepts(spec_midnight_pattern())
    &&& regex_accepts(spec_noon_pattern())
    &&& regex_accepts(spec_current_time_pattern())
    &&& fancy_accepts(spec_dynamic_pattern())
    &&& spec_groups_ok(fancy_group_names(spec_dynamic_pattern()))
    &&& zone_known("Europe/London"@)
    &&& zone_known("America/New_York"@)
    &&& zone_known("America/Los_Angeles"@)
}

/// The spaces needed to left-justify a short label.
pub open spec fn spec_spaces(n: int) -> Seq<char>
    decreases n,
{
    if n <= 0 {
        Seq::empty()
    } else {
        spec_spaces(n - 1).push(' ')
    }
}

/// A label left-justified to eight characters.
pub open spec fn spec_pad_label(l: Seq<char>) -> Seq<char> {
    if l.len() >= 8 {
        l
    } else {
        l + spec_spaces(8 - l.len())
    }
}

/// One reply line: the padded label, then the instant in that zone as a
/// space-padded 12-hour clock with meridiem and zone abbreviation.
pub open spec fn spec_format_line(label: Seq<char>, zone: Seq<char>, secs: int) -> Seq<char> {
    let hm = zone_clock_at(zone, secs);
    let h12 = spec_to_12h(hm.0, TimeKind::Military).0;
    let kind = spec_to_12h(hm.0, TimeKind::Military).1;
    spec_pad_label(label) + ": "@ + spec_padded_hour(h12) + ":"@ + spec_two_digits(hm.1) + " "@
        + spec_kind_label(kind) + " "@ + zone_abbrev_at(zone, secs)
}

/// One reply block: the lines for every destination zone, joined with
/// newlines.
pub open spec fn spec_block(outputs: Seq<(Seq<char>, Seq<char>)>, t: int) -> Seq<char>
    decreases outputs.len(),
{
    if outputs.len() == 0 {
        Seq::empty()
    } else if outputs.len() == 1 {
        spec_format_line(outputs[0].0, outputs[0].1, t)
    } else {
        spec_block(outputs.drop_last(), t) + "\n"@ + spec_format_line(
            outputs.last().0,
            outputs.last().1,
            t,
        )
    }
}

/// The whole reply: one code block per retained instant, in extraction
/// order.
pub open spec fn spec_response_text(outputs: Seq<(Seq<char>, Seq<char>)>, ts: Seq<int>) -> Seq<
    char,
>
    decreases ts.len(),
{
    if ts.len() == 0 {
        Seq::empty()
    } else {
        spec_response_text(outputs, ts.drop_last()) + "```\n"@ + spec_block(outputs, ts.last())
            + "\n```"@
    }
}

/// The per-message pipeline and its fixed configuration.
pub struct MessageHandler {
    time_extractors: Vec<TimeExtractor>,
    input_timezones: HashMap<u64, LocationRole>,
    output_timezones: Vec<TimeZoneInfo>,
}

impl MessageHandler {
    pub closed spec fn spec_extractors(&self) -> Seq<TimeExtractor> {
        self.time_extractors@
    }

    pub closed spec fn spec_input_timezones(&self) -> Map<u64, Seq<char>> {
        self.input_timezones@.map_values(|lr: LocationRole| lr.spec_timezone())
    }

    pub closed spec fn spec_outputs(&self) -> Seq<(Seq<char>, Seq<char>)> {
        Seq::new(
            self.output_timezones@.len(),
            |i: int|
                (self.output_timezones@[i].spec_name(), self.output_timezones@[i].spec_tz()),
        )
    }

    /// Build the pipeline from the configuration: the four default
    /// extractors, the role-to-timezone map, and the fixed destination
    /// list.  Fails exactly when one of the fixed patterns or zones is
    /// not accepted by its engine.
    pub fn new(config: &Config) -> (r: Option<MessageHandler>)
        ensures
            r is Some <==> spec_defaults_available(),
            r matches Some(h) ==> spec_default_extractors(h.spec_extractors())
                && h.spec_input_timezones() == spec_role_map(config.spec_location_roles())
                && h.spec_outputs() == spec_default_outputs(),
    {
        let midnight = match TimeComponents::new(0, 0, TimeKind::Military) {
            Ok(t) => t,
            Err(_) => {
                return None;
            },
        };
        let noon = match TimeComponents::new(12, 0, TimeKind::Military) {
            Ok(t) => t,
            Err(_) => {
                return None;
            },
        };
        let mut time_extractors: Vec<TimeExtractor> = Vec::new();
        match FixedTimeExtractor::new("(?i:midnight)", midnight) {
            Ok(e) => time_extractors.push(TimeExtractor::Fixed(e)),
            Err(_) => {
                return None;
            },
        }
        match FixedTimeExtractor::new("(?i:noon|midday)", noon) {
            Ok(e) => time_extractors.push(TimeExtractor::Fixed(e)),
            Err(_) => {
                return None;
            },
        }
        match CurrentTimeExtractor::new("(?i:what\\s+time\\s+is\\s+it\\s+now|(?:current\\s+time))") {
            Ok(e) => time_extractors.push(TimeExtractor::Current(e)),
            Err(_) => {
                return None;
            },
        }
        match DynamicTimeExtractor::new(
            "(?i:(?<!\\w)(?P<hours>(?:1[012])|(?:0?[123456789]))\\s*(?::\\s*(?P<minutes>(?:[12345]\\d)|(?:0\\d)))?\\s*(?P<time_kind>[ap]m)(?!\\w))",
        ) {
            Ok(e) => time_extractors.push(TimeExtractor::Dynamic(e)),
            Err(_) => {
                return None;
            },
        }
        let mut output_timezones: Vec<TimeZoneInfo> = Vec::new();
        match TimeZoneInfo::new("UK", "Europe/London") {
            Some(z) => output_timezones.push(z),
            None => {
                return None;
            },
        }
        match TimeZoneInfo::new("US East", "America/New_York") {
            Some(z) => output_timezones.push(z),
            None => {
                return None;
            },
        }
        match TimeZoneInfo::new("US West", "America/Los_Angeles") {
            Some(z) => output_timezones.push(z),
            None => {
                return None;
            },
        }
        let roles = config.location_roles();
        let mut input_timezones: HashMap<u64, LocationRole> = HashMap::new();
        let mut i: usize = 0;
        proof {
            assert(input_timezones@.map_values(|lr: LocationRole| lr.spec_timezone())
                =~= spec_role_map(crate::config::spec_roles_view(roles@).take(0)));
        }
        while i < roles.len()
            invariant
                0 <= i <= roles@.len(),
                crate::config::spec_roles_view(roles@) == config.spec_location_roles(),
                input_timezones@.map_values(|lr: LocationRole| lr.spec_timezone())
                    == spec_role_map(config.spec_location_roles().take(i as int)),
            decreases roles@.len() - i,
        {
            let ghost rv = config.spec_location_roles();
            proof {
                assert(rv.take(i + 1).drop_last() =~= rv.take(i as int));
                assert(rv.take(i + 1).last() == rv[i as int]);
                assert(rv[i as int] == (roles@[i as int].spec_role_id(), roles@[
                    i as int
                ].spec_timezone()));
            }
            let role = &roles[i];
            let copy = role.clone_role();
            input_timezones.insert(role.role_id(), copy);
            proof {
                assert(input_timezones@.map_values(|lr: LocationRole| lr.spec_timezone())
                    =~= spec_role_map(rv.take(i as int)).insert(
                    rv[i as int].0,
                    rv[i as int].1,
                ));
            }
            i = i + 1;
        }
        proof {
            assert(config.spec_location_roles().take(roles@.len() as int)
                =~= config.spec_location_roles());
        }
        let h = MessageHandler { time_extractors, input_timezones, output_timezones };
        proof {
            assert(h.spec_outputs() =~= spec_default_outputs());
        }
        Some(h)
    }

    /// Resolve the author's local timezone: exactly one of their roles
    /// must be a configured location role.  Zero or several matches is
    /// unresolved ambiguity and yields the silent-drop error.
    pub fn resolve_local_tz(&self, roles: &Vec<u64>) -> (r: Result<String, ()>)
        ensures
            ({
                let tzs = spec_matching_timezones(self.spec_input_timezones(), roles@);
                if tzs.len() == 1 {
                    r matches Ok(s) && s@ == tzs[0] && zone_known(s@)
                } else {
                    r == Err::<String, ()>(())
                }
            }),
    {
        let ghost map = self.spec_input_timezones();
        let mut found: Vec<String> = Vec::new();
        let mut i: usize = 0;
        while i < roles.len()
            invariant
                0 <= i <= roles@.len(),
                map == self.spec_input_timezones(),
                found.deep_view() == spec_matching_timezones(map, roles@.take(i as int)),
                forall|j: int| 0 <= j < found@.len() ==> zone_known(#[trigger] found.deep_view()[j]),
            decreases roles@.len() - i,
        {
            let ghost prev = found.deep_view();
            proof {
                assert(roles@.take(i + 1).drop_last() =~= roles@.take(i as int));
                assert(roles@.take(i + 1).last() == roles@[i as int]);
            }
            match self.input_timezones.get(&roles[i]) {
                Some(lr) => {
                    let tz = lr.timezone().clone();
                    found.push(tz);
                    proof {
                        assert(map.contains_key(roles@[i as int]));
                        assert(map[roles@[i as int]] == lr.spec_timezone());
                        assert(found.deep_view() =~= prev.push(lr.spec_timezone()));
                    }
                },
                None => {
                    proof {
                        assert(!map.contains_key(roles@[i as int]));
                    }
                },
            }
            i = i + 1;
        }
        proof {
            assert(roles@.take(roles@.len() as int) =~= roles@);
        }
        if found.len() == 1 {
            let tz = found[0].clone();
            proof {
                assert(found.deep_view()[0] == found@[0]@);
            }
            Ok(tz)
        } else {
            Err(())
        }
    }

    /// Render one reply line for an instant in one destination zone;
    /// absent exactly when the instant is outside the representable
    /// range.
    pub fn format_time(&self, time: i64, tz_info: &TimeZoneInfo) -> (r: Option<String>)
        ensures
            r is Some <==> utc_representable(time as int),
            r matches Some(s) ==> s@ == spec_format_line(
                tz_info.spec_name(),
                tz_info.spec_tz(),
                time as int,
            ),
    {
        proof {
            use_type_invariant(tz_info);
            reveal_strlit(": ");
            reveal_strlit(":");
            reveal_strlit(" ");
        }
        let (h, m) = match zone_clock(tz_info.tz.as_str(), time) {
            Some(hm) => hm,
            None => {
                return None;
            },
        };
        let abbrev = match zone_abbrev(tz_info.tz.as_str(), time) {
            Some(a) => a,
            None => {
                return None;
            },
        };
        let clock = match TimeComponents::new(h, m, TimeKind::Military) {
            Ok(t) => t,
            Err(_) => {
                return None;
            },
        };
        let twelve = clock.to_12h();
        let mut out = String::new();
        out.append(tz_info.name.as_str());
        let label_len = tz_info.name.as_str().unicode_len();
        let mut n = label_len;
        while n < 8
            invariant
                label_len <= n,
                n <= 8 || n == label_len,
                out@ == tz_info.spec_name() + spec_spaces(n - label_len),
            decreases 8 - n,
        {
            out.append(" ");
            proof {
                reveal_strlit(" ");
                assert(out@ =~= tz_info.spec_name() + spec_spaces(n - label_len + 1));
            }
            n = n + 1;
        }
        proof {
            assert(out@ =~= spec_pad_label(tz_info.spec_name()));
        }
        out.append(": ");
        push_padded_hour(&mut out, twelve.hour());
        out.append(":");
        push_two_digits(&mut out, m);
        out.append(" ");
        out.append(twelve.kind().label());
        out.append(" ");
        out.append(abbrev.as_str());
        proof {
            assert(out@ =~= spec_format_line(
                tz_info.spec_name(),
                tz_info.spec_tz(),
                time as int,
            ));
        }
        Some(out)
    }

    /// Render the block for one instant: a line per destination zone,
    /// joined with newlines.
    fn build_block(&self, time: i64) -> (r: Option<String>)
        ensures
            r is Some <==> (self.spec_outputs().len() == 0 || utc_representable(time as int)),
            r matches Some(s) ==> s@ == spec_block(self.spec_outputs(), time as int),
    {
        proof {
            reveal_strlit("\n");
        }
        let ghost outs = self.spec_outputs();
        let mut out = String::new();
        let mut j: usize = 0;
        while j < self.output_timezones.len()
            invariant
                0 <= j <= self.output_timezones@.len(),
                outs == self.spec_outputs(),
                outs.len() == self.output_timezones@.len(),
                out@ == spec_block(outs.take(j as int), time as int),
                j > 0 ==> utc_representable(time as int),
            decreases self.output_timezones@.len() - j,
        {
            let ghost prev = out@;
            proof {
                assert(outs.take(j + 1).drop_last() =~= outs.take(j as int));
                assert(outs.take(j + 1).last() == outs[j as int]);
                assert(outs[j as int] == (self.output_timezones@[j as int].spec_name(), self
                    .output_timezones@[j as int].spec_tz()));
            }
            let line = match self.format_time(time, &self.output_timezones[j]) {
                Some(l) => l,
                None => {
                    return None;
                },
            };
            if j > 0 {
                out.append("\n");
            }
            out.append(line.as_str());
            proof {
                if j == 0 {
                    assert(outs.take(1).len() == 1);
                    assert(prev =~= Seq::<char>::empty());
                    assert(out@ =~= spec_block(outs.take(1), time as int));
                } else {
                    assert(out@ =~= spec_block(outs.take(j + 1), time as int));
                }
            }
            j = j + 1;
        }
        proof {
            assert(outs.take(outs.len() as int) =~= outs);
        }
        Some(out)
    }

    /// Compose the reply from the retained instants: nothing for an
    /// empty sequence, otherwise one code block per instant.
    pub fn construct_response(&self, times: &Vec<i64>) -> (r: Option<String>)
        ensures
            times@.len() == 0 ==> r is None,
            r is Some ==> times@.len() > 0,
            (times@.len() > 0 && (forall|i: int|
                0 <= i < times@.len() ==> utc_representable(#[trigger] times@[i] as int)))
                ==> (r matches Some(s) && s@ == spec_response_text(
                self.spec_outputs(),
                spec_instants_view(times@),
            )),
    {
        proof {
            reveal_strlit("```\n");
            reveal_strlit("\n```");
        }
        if times.len() == 0 {
            return None;
        }
        let ghost ts = spec_instants_view(times@);
        let ghost all_ok = forall|i: int|
            0 <= i < times@.len() ==> utc_representable(#[trigger] times@[i] as int);
        let mut out = String::new();
        let mut i: usize = 0;
        while i < times.len()
            invariant
                0 <= i <= times@.len(),
                ts == spec_instants_view(times@),
                all_ok == (forall|k: int|
                    0 <= k < times@.len() ==> utc_representable(#[trigger] times@[k] as int)),
                all_ok ==> out@ == spec_response_text(self.spec_outputs(), ts.take(i as int)),
            decreases times@.len() - i,
        {
            let ghost prev = out@;
            proof {
                assert(ts.take(i + 1).drop_last() =~= ts.take(i as int));
                assert(ts.take(i + 1).last() == ts[i as int]);
                assert(ts[i as int] == times@[i as int] as int);
            }
            match self.build_block(times[i]) {
                Some(block) => {
                    out.append("```\n");
                    out.append(block.as_str());
                    out.append("\n```");
                    proof {
                        if all_ok {
                            assert(out@ =~= spec_response_text(
                                self.spec_outputs(),
                                ts.take(i + 1),
                            ));
                        }
                    }
                },
                None => {
                    proof {
                        if all_ok {
                            assert(utc_representable(times@[i as int] as int));
                            assert(false);
                        }
                    }
                },
            }
            i = i + 1;
        }
        proof {
            assert(ts.take(ts.len() as int) =~= ts);
        }
        Some(out)
    }

    /// What the pipeline replies for a message, given the author's
    /// resolved roles, the message text, its send instant, and the
    /// calendar date (in the author's zone) the clock values anchor to:
    /// `None` is silence.
    pub open spec fn spec_process(
        &self,
        roles: Seq<u64>,
        text: Seq<char>,
        msg_secs: int,
        today: int,
    ) -> Option<Seq<char>> {
        let tzs = spec_matching_timezones(self.spec_input_timezones(), roles);
        if tzs.len() != 1 {
            None
        } else {
            let zone = tzs[0];
            if !utc_representable(msg_secs) {
                None
            } else {
                let hm = zone_clock_at(zone, msg_secs);
                let cv = TimeExtractorContextView {
                    local_tz: zone,
                    msg_time: TimeComponents::spec_new(
                        hm.0 as u32,
                        hm.1 as u32,
                        TimeKind::Military,
                    ),
                };
                let instants = dedup_first(
                    spec_all_instants(self.spec_extractors(), text, cv, zone, today),
                );
                if instants.len() == 0 {
                    None
                } else {
                    Some(spec_response_text(self.spec_outputs(), instants))
                }
            }
        }
    }

    /// Run the pipeline for a message whose clock values anchor to the
    /// given calendar date.
    pub fn process_message_on_date(
        &self,
        roles: &Vec<u64>,
        content: &str,
        msg_utc_secs: i64,
        today: i64,
    ) -> (r: Option<String>)
        ensures
            (match r {
                Some(s) => Some(s@),
                None => None,
            }) == self.spec_process(roles@, content@, msg_utc_secs as int, today as int),
    {
        let tz = match self.resolve_local_tz(roles) {
            Ok(tz) => tz,
            Err(()) => {
                return None;
            },
        };
        let (h, m) = match zone_clock(tz.as_str(), msg_utc_secs) {
            Some(hm) => hm,
            None => {
                return None;
            },
        };
        let msg_time = match TimeComponents::new(h, m, TimeKind::Military) {
            Ok(t) => t,
            Err(_) => {
                return None;
            },
        };
        let ctx = TimeExtractorContext::new(tz.clone(), msg_time);
        let ghost cv = ctx@;
        let ghost zone = tz@;
        let ghost es = self.spec_extractors();
        let mut all: Vec<i64> = Vec::new();
        let mut i: usize = 0;
        while i < self.time_extractors.len()
            invariant
                0 <= i <= self.time_extractors@.len(),
                es == self.spec_extractors(),
                zone == tz@,
                zone_known(zone),
                cv == ctx@,
                ctx@.local_tz == zone,
                spec_instants_view(all@) == spec_all_instants(
                    es.take(i as int),
                    content@,
                    cv,
                    zone,
                    today as int,
                ),
                forall|k: int| 0 <= k < all@.len() ==> utc_representable(#[trigger] all@[k] as int),
            decreases self.time_extractors@.len() - i,
        {
            proof {
                assert(es.take(i + 1).drop_last() =~= es.take(i as int));
                assert(es.take(i + 1).last() == es[i as int]);
                assert(es[i as int] == self.time_extractors@[i as int]);
            }
            let times = self.time_extractors[i].extract(content, &ctx);
            let instants = lift_times_to_instants(&times, tz.as_str(), today);
            let ghost prev = all@;
            let mut k: usize = 0;
            while k < instants.len()
                invariant
                    0 <= k <= instants@.len(),
                    all@ == prev + instants@.take(k as int),
                    forall|q: int|
                        0 <= q < instants@.len() ==> utc_representable(
                            #[trigger] instants@[q] as int,
                        ),
                    forall|q: int|
                        0 <= q < prev.len() ==> utc_representable(#[trigger] prev[q] as int),
                decreases instants@.len() - k,
            {
                all.push(instants[k]);
                proof {
                    assert(all@ =~= prev + instants@.take(k + 1));
                }
                k = k + 1;
            }
            proof {
                assert(instants@.take(instants@.len() as int) =~= instants@);
                assert(spec_instants_view(all@) =~= spec_instants_view(prev) + spec_instants_view(
                    instants@,
                ));
                assert(spec_instants_view(all@) =~= spec_all_instants(
                    es.take(i + 1),
                    content@,
                    cv,
                    zone,
                    today as int,
                ));
            }
            i = i + 1;
        }
        proof {
            assert(es.take(es.len() as int) =~= es);
        }
        let deduped = dedup_instants(&all);
        proof {
            lemma_dedup_instants_view(all@);
            assert(spec_instants_view(deduped@) == dedup_first(spec_instants_view(all@)));
            assert forall|q: int| 0 <= q < deduped@.len() implies utc_representable(
                #[trigger] deduped@[q] as int,
            ) by {
                assert(deduped@.contains(deduped@[q]));
                lemma_dedup_first_contains(all@, deduped@[q]);
                let w = choose|w: int| 0 <= w < all@.len() && all@[w] == deduped@[q];
                assert(utc_representable(all@[w] as int));
            }
        }
        self.construct_response(&deduped)
    }

    /// Run the pipeline for a message, anchoring clock values to today's
    /// date in the author's zone.  The date is read from the wall
    /// clock, so the reply is pinned for some anchoring date.
    pub fn process_message(&self, roles: &Vec<u64>, content: &str, msg_utc_secs: i64) -> (r:
        Option<String>)
        ensures
            exists|today: int|
                (match r {
                    Some(s) => Some(s@),
                    None => None,
                }) == self.spec_process(roles@, content@, msg_utc_secs as int, today),
    {
        let tz = match self.resolve_local_tz(roles) {
            Ok(tz) => tz,
            Err(()) => {
                proof {
                    assert((match None::<String> {
                        Some(s) => Some(s@),
                        None => None,
                    }) == self.spec_process(roles@, content@, msg_utc_secs as int, 0));
                }
                return None;
            },
        };
        let today = zone_today(tz.as_str());
        let r = self.process_message_on_date(roles, content, msg_utc_secs, today);
        proof {
            assert((match r {
                Some(s) => Some(s@),
                None => None,
            }) == self.spec_process(roles@, content@, msg_utc_secs as int, today as int));
        }
        r
    }
}

/// Gatekeeping for an inbound message: bot authors are ignored, and a
/// message outside a guild has no role context, so no timezone can be
/// resolved.  Yields the guild to process under, or nothing.
pub fn should_process(author_is_bot: bool, guild_id: Option<u64>) -> (r: Option<u64>)
    ensures
        r == (if author_is_bot {
            None
        } else {
            guild_id
        }),
{
    if author_is_bot {
        None
    } else {
        guild_id
    }
}

} // verus!
