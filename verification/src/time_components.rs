//! Canonical time-of-day representation.
//!
//! A [`TimeComponents`] value is an hour/minute pair tagged with a
//! [`TimeKind`]: a 12-hour AM or PM reading, or a 24-hour ("military")
//! reading.  Values are built only through the validating factory
//! [`TimeComponents::new`], and every constructed value satisfies the
//! bounds invariant from then on.

use vstd::prelude::*;

verus! {

/// Whether a clock time is expressed as AM, PM, or 24-hour notation.
#[derive(Debug, Clone, Copy, PartialEq, Eq, Hash, Structural)]
pub enum TimeKind {
    AM,
    PM,
    Military,
}

/// The only error the clock-time model produces: the hour/minute pair does
/// not satisfy the bounds required by its kind.
#[derive(Debug, Clone, Copy, PartialEq, Eq, Structural)]
pub enum TimeRepresentationError {
    OutOfBounds { hour: u32, minute: u32, kind: TimeKind },
}

/// The bounds invariant: 1..=12 hours for AM/PM, 0..=23 for military,
/// minutes 0..=59 in every kind.
pub open spec fn valid_time(hour: int, minute: int, kind: TimeKind) -> bool {
    &&& 0 <= minute <= 59
    &&& match kind {
        TimeKind::AM => 1 <= hour <= 12,
        TimeKind::PM => 1 <= hour <= 12,
        TimeKind::Military => 0 <= hour <= 23,
    }
}

/// The hour of the 24-hour reading of a valid clock time.
pub open spec fn spec_to_24h_hour(hour: int, kind: TimeKind) -> int {
    match kind {
        TimeKind::AM => if hour == 12 { 0int } else { hour },
        TimeKind::PM => if hour == 12 { 12int } else { hour + 12 },
        TimeKind::Military => hour,
    }
}

/// The hour and kind of the 12-hour reading of a valid clock time.
pub open spec fn spec_to_12h(hour: int, kind: TimeKind) -> (int, TimeKind) {
    match kind {
        TimeKind::Military => if hour == 0 {
            (12int, TimeKind::AM)
        } else if hour == 12 {
            (12int, TimeKind::PM)
        } else if hour > 12 {
            (hour - 12, TimeKind::PM)
        } else {
            (hour, TimeKind::AM)
        },
        _ => (hour, kind),
    }
}

/// A time of day without an associated calendar date.
#[derive(Debug, Clone, Copy, PartialEq, Eq, Hash, Structural)]
pub struct TimeComponents {
    hour: u32,
    minute: u32,
    kind: TimeKind,
}

impl TimeComponents {
    /// The invariant every constructed value satisfies.
    #[verifier::type_invariant]
    spec fn wf(self) -> bool {
        valid_time(self.hour as int, self.minute as int, self.kind)
    }

    pub closed spec fn spec_hour(self) -> u32 {
        self.hour
    }

    pub closed spec fn spec_minute(self) -> u32 {
        self.minute
    }

    pub closed spec fn spec_kind(self) -> TimeKind {
        self.kind
    }

    /// The clock time a valid hour/minute/kind triple denotes.
    pub closed spec fn spec_new(hour: u32, minute: u32, kind: TimeKind) -> TimeComponents {
        TimeComponents { hour, minute, kind }
    }

    /// Validating factory: the only way to build a clock time.
    pub fn new(hour: u32, minute: u32, kind: TimeKind) -> (r: Result<Self, TimeRepresentationError>)
        ensures
            valid_time(hour as int, minute as int, kind) ==> (r matches Ok(t)
                && t == TimeComponents::spec_new(hour, minute, kind)
                && t.spec_hour() == hour && t.spec_minute() == minute && t.spec_kind() == kind),
            !valid_time(hour as int, minute as int, kind) ==> r == Err::<Self, TimeRepresentationError>(
                (TimeRepresentationError::OutOfBounds { hour, minute, kind }),
            ),
    {
        let bounds_ok = match kind {
            TimeKind::AM => 1 <= hour && hour <= 12,
            TimeKind::PM => 1 <= hour && hour <= 12,
            TimeKind::Military => hour <= 23,
        };
        if bounds_ok && minute <= 59 {
            Ok(TimeComponents { hour, minute, kind })
        } else {
            Err(TimeRepresentationError::OutOfBounds { hour, minute, kind })
        }
    }

    pub fn hour(&self) -> (h: u32)
        ensures
            h == self.spec_hour(),
    {
        self.hour
    }

    pub fn minute(&self) -> (m: u32)
        ensures
            m == self.spec_minute(),
    {
        self.minute
    }

    pub fn kind(&self) -> (k: TimeKind)
        ensures
            k == self.spec_kind(),
    {
        self.kind
    }

    /// Normalize to the 12-hour representation: military hours become an
    /// AM/PM reading, AM/PM values pass through unchanged.
    pub fn to_12h(self) -> (r: Self)
        ensures
            ({
                let (h, k) = spec_to_12h(self.spec_hour() as int, self.spec_kind());
                r.spec_hour() == h && r.spec_kind() == k
            }),
            r.spec_minute() == self.spec_minute(),
            1 <= r.spec_hour() <= 12,
            r.spec_minute() < 60,
            valid_time(self.spec_hour() as int, self.spec_minute() as int, self.spec_kind()),
    {
        proof {
            use_type_invariant(self);
        }
        let TimeComponents { hour, minute, kind } = self;
        let (updated_hour, updated_kind) = match kind {
            TimeKind::Military => {
                if hour == 0 {
                    (12, TimeKind::AM)
                } else if hour == 12 {
                    (12, TimeKind::PM)
                } else if hour > 12 {
                    (hour - 12, TimeKind::PM)
                } else {
                    (hour, TimeKind::AM)
                }
            },
            _ => (hour, kind),
        };
        TimeComponents { hour: updated_hour, minute, kind: updated_kind }
    }

    /// Normalize to the 24-hour representation.
    pub fn to_24h(self) -> (r: Self)
        ensures
            r.spec_hour() == spec_to_24h_hour(self.spec_hour() as int, self.spec_kind()),
            r.spec_minute() == self.spec_minute(),
            r.spec_kind() == TimeKind::Military,
            r.spec_hour() < 24,
            r.spec_minute() < 60,
            valid_time(self.spec_hour() as int, self.spec_minute() as int, self.spec_kind()),
    {
        proof {
            use_type_invariant(self);
        }
        let TimeComponents { hour, minute, kind } = self;
        let updated_hour = match kind {
            TimeKind::AM => if hour == 12 { 0 } else { hour },
            TimeKind::PM => if hour == 12 { 12 } else { hour + 12 },
            TimeKind::Military => hour,
        };
        TimeComponents { hour: updated_hour, minute, kind: TimeKind::Military }
    }
}

/// The display tag of a meridiem kind.
pub open spec fn spec_kind_label(kind: TimeKind) -> Seq<char> {
    match kind {
        TimeKind::AM => "AM"@,
        TimeKind::PM => "PM"@,
        TimeKind::Military => "Military"@,
    }
}

impl TimeKind {
    /// Render the kind as text.
    pub fn label(&self) -> (r: &'static str)
        ensures
            r@ == spec_kind_label(*self),
    {
        proof {
            reveal_strlit("AM");
            reveal_strlit("PM");
            reveal_strlit("Military");
        }
        match self {
            TimeKind::AM => "AM",
            TimeKind::PM => "PM",
            TimeKind::Military => "Military",
        }
    }
}

/// Round-trip law for the two normalizations.
///
/// For an AM or PM value, normalizing to the 24-hour form and reading the
/// bare hour back as a military value, then normalizing to the 12-hour
/// form, recovers the original hour and kind.  For a military value the
/// round trip runs the other way: its 12-hour reading, normalized back to
/// 24-hour form, recovers the original hour.  In particular military 0 and
/// military 12 pass through (12, AM) and (12, PM) and re-map to 0 and 12.
pub proof fn lemma_normalize_round_trip(hour: int, minute: int, kind: TimeKind)
    requires
        valid_time(hour, minute, kind),
    ensures
        kind != TimeKind::Military ==> spec_to_12h(spec_to_24h_hour(hour, kind), TimeKind::Military)
            == (hour, kind),
        kind == TimeKind::Military ==> spec_to_24h_hour(
            spec_to_12h(hour, kind).0,
            spec_to_12h(hour, kind).1,
        ) == hour,
{
}

} // verus!
