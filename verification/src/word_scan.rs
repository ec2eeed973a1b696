//! Word-scanner helpers: stepping a text forward one word at a time and
//! the bare AM/PM-to-military hour conversion they parse with.

use vstd::prelude::*;

verus! {

/// A character a word is made of: letters, digits, or the colon that
/// clock readings carry.
pub open spec fn is_word_char(c: char) -> bool {
    ||| 97 <= c as u32 <= 122
    ||| 65 <= c as u32 <= 90
    ||| 48 <= c as u32 <= 57
    ||| c == ':'
}

fn word_char(c: char) -> (b: bool)
    ensures
        b == is_word_char(c),
{
    let v = c as u32;
    (97 <= v && v <= 122) || (65 <= v && v <= 90) || (48 <= v && v <= 57) || c == ':'
}

/// The index of the first separator (non-word) character.
pub open spec fn spec_first_sep(t: Seq<char>) -> Option<int>
    decreases t.len(),
{
    if t.len() == 0 {
        None
    } else if !is_word_char(t[0]) {
        Some(0int)
    } else {
        match spec_first_sep(t.drop_first()) {
            Some(i) => Some(i + 1),
            None => None,
        }
    }
}

proof fn lemma_first_sep_at(t: Seq<char>, k: int)
    requires
        0 <= k < t.len(),
        !is_word_char(t[k]),
        forall|j: int| 0 <= j < k ==> is_word_char(#[trigger] t[j]),
    ensures
        spec_first_sep(t) == Some(k),
    decreases k,
{
    if k > 0 {
        lemma_first_sep_at(t.drop_first(), k - 1);
    }
}

proof fn lemma_first_sep_none(t: Seq<char>)
    requires
        forall|j: int| 0 <= j < t.len() ==> is_word_char(#[trigger] t[j]),
    ensures
        spec_first_sep(t) is None,
    decreases t.len(),
{
    if t.len() > 0 {
        lemma_first_sep_none(t.drop_first());
    }
}

/// The first position at or after `i` where a word resumes (or the end
/// of the text): the end of the separator run starting at `i`.
pub open spec fn spec_sep_run_end(t: Seq<char>, i: int) -> int
    decreases t.len() - i,
{
    if i < 0 || i >= t.len() {
        t.len() as int
    } else if is_word_char(t[i]) {
        i
    } else {
        spec_sep_run_end(t, i + 1)
    }
}

proof fn lemma_sep_run_end_at(t: Seq<char>, i: int, j: int)
    requires
        0 <= i <= j <= t.len(),
        forall|k: int| i <= k < j ==> !is_word_char(#[trigger] t[k]),
        j == t.len() || is_word_char(t[j]),
    ensures
        spec_sep_run_end(t, i) == j,
    decreases j - i,
{
    if i < j {
        lemma_sep_run_end_at(t, i + 1, j);
    }
}

/// The rest of the text after the first run of separator characters:
/// what splitting once on a separator run and keeping the tail yields.
/// Nothing when the text is one unbroken word.
pub open spec fn spec_skip_word(t: Seq<char>) -> Option<Seq<char>> {
    match spec_first_sep(t) {
        None => None,
        Some(i) => Some(t.skip(spec_sep_run_end(t, i))),
    }
}

/// Step past the first word and the separator run after it.
pub fn skip_word(text: &str) -> (r: Option<&str>)
    ensures
        (match r {
            Some(s) => Some(s@),
            None => None,
        }) == spec_skip_word(text@),
{
    let len = text.unicode_len();
    let mut i: usize = 0;
    while i < len
        invariant
            0 <= i <= len,
            len == text@.len(),
            forall|j: int| 0 <= j < i ==> is_word_char(#[trigger] text@[j]),
        ensures
            0 <= i <= len,
            forall|j: int| 0 <= j < i ==> is_word_char(#[trigger] text@[j]),
            i < len ==> !is_word_char(text@[i as int]),
        decreases len - i,
    {
        if !word_char(text.get_char(i)) {
            break ;
        }
        i = i + 1;
    }
    if i >= len {
        proof {
            lemma_first_sep_none(text@);
        }
        return None;
    }
    proof {
        lemma_first_sep_at(text@, i as int);
    }
    let ghost sep = i as int;
    let mut j: usize = i;
    while j < len
        invariant
            sep <= j <= len,
            0 <= sep,
            len == text@.len(),
            forall|k: int| sep <= k < j ==> !is_word_char(#[trigger] text@[k]),
        ensures
            sep <= j <= len,
            forall|k: int| sep <= k < j ==> !is_word_char(#[trigger] text@[k]),
            j < len ==> is_word_char(text@[j as int]),
        decreases len - j,
    {
        if word_char(text.get_char(j)) {
            break ;
        }
        j = j + 1;
    }
    proof {
        lemma_sep_run_end_at(text@, sep, j as int);
    }
    Some(text.substring_char(j, len))
}

/// A bare meridiem tag, as the scanner parses it.
#[derive(Debug, Clone, Copy, PartialEq, Eq, Hash, Structural)]
pub enum AmOrPm {
    AM,
    PM,
}

/// The military hour a 12-hour reading denotes: hours 1 to 11 pass
/// through (plus 12 for PM), 12 wraps to 0 or stays 12, anything else is
/// rejected.
pub open spec fn spec_to_hour_in_mility_time(tag: AmOrPm, hour: u32) -> Option<u32> {
    if 1 <= hour <= 11 {
        match tag {
            AmOrPm::AM => Some(hour),
            AmOrPm::PM => Some((hour + 12) as u32),
        }
    } else if hour == 12 {
        match tag {
            AmOrPm::AM => Some(0u32),
            AmOrPm::PM => Some(12u32),
        }
    } else {
        None
    }
}

impl AmOrPm {
    /// Convert a 12-hour reading under this tag to a military hour.
    pub fn to_hour_in_mility_time(&self, hour: u32) -> (r: Option<u32>)
        ensures
            r == spec_to_hour_in_mility_time(*self, hour),
    {
        match (hour, self) {
            (1..=11, AmOrPm::AM) => Some(hour),
            (1..=11, AmOrPm::PM) => Some(hour + 12),
            (12, AmOrPm::AM) => Some(0),
            (12, AmOrPm::PM) => Some(12),
            _ => None,
        }
    }
}

} // verus!
