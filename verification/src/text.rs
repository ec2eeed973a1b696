//! Verified text utilities: decimal parsing, AM/PM tag recognition,
//! order-preserving deduplication, and fixed-width digit rendering.

use vstd::prelude::*;
use crate::time_components::TimeComponents;
use crate::time_components::TimeKind;

verus! {

/// An ASCII decimal digit.
pub open spec fn is_digit(c: char) -> bool {
    48 <= c as u32 <= 57
}

pub open spec fn spec_all_digits(s: Seq<char>) -> bool {
    forall|i: int| 0 <= i < s.len() ==> is_digit(#[trigger] s[i])
}

/// Numeric value of a digit string, most significant digit first.
pub open spec fn spec_digits_value(s: Seq<char>) -> int
    decreases s.len(),
{
    if s.len() == 0 {
        0
    } else {
        10 * spec_digits_value(s.drop_last()) + (s.last() as u32 - 48)
    }
}

/// The value `str::parse::<u32>` accepts: an optional leading `+`,
/// then one or more ASCII digits whose value fits in a `u32`.
pub open spec fn spec_parse_u32(s: Seq<char>) -> Option<u32> {
    let ds = if s.len() > 0 && s[0] == '+' {
        s.drop_first()
    } else {
        s
    };
    if ds.len() == 0 || !spec_all_digits(ds) {
        None
    } else if spec_digits_value(ds) > u32::MAX {
        None
    } else {
        Some(spec_digits_value(ds) as u32)
    }
}

proof fn lemma_digits_value_nonneg(s: Seq<char>)
    requires
        spec_all_digits(s),
    ensures
        spec_digits_value(s) >= 0,
    decreases s.len(),
{
    if s.len() > 0 {
        assert(spec_all_digits(s.drop_last()));
        lemma_digits_value_nonneg(s.drop_last());
    }
}

/// A digit string's value never decreases as the string is extended.
proof fn lemma_digits_value_monotone(s: Seq<char>, i: int, j: int)
    requires
        spec_all_digits(s),
        0 <= i <= j <= s.len(),
    ensures
        spec_digits_value(s.take(i)) <= spec_digits_value(s.take(j)),
    decreases j - i,
{
    if i < j {
        lemma_digits_value_monotone(s, i, j - 1);
        let t = s.take(j);
        assert(t.drop_last() =~= s.take(j - 1));
        assert(spec_all_digits(t.drop_last()));
        lemma_digits_value_nonneg(t.drop_last());
        assert(is_digit(t.last()));
    }
}

/// Parse a decimal `u32` exactly as `str::parse::<u32>` does.
#[verifier::rlimit(80)]
pub fn parse_u32(s: &str) -> (r: Option<u32>)
    ensures
        r == spec_parse_u32(s@),
{
    let len = s.unicode_len();
    let start: usize = if len > 0 && s.get_char(0) == '+' {
        1
    } else {
        0
    };
    let ghost ds = if s@.len() > 0 && s@[0] == '+' {
        s@.drop_first()
    } else {
        s@
    };
    proof {
        assert(ds =~= s@.skip(start as int));
    }
    if start >= len {
        return None;
    }
    let mut acc: u64 = 0;
    let mut p: usize = start;
    while p < len
        invariant
            start <= p <= len,
            len == s@.len(),
            start <= 1,
            ds == (if s@.len() > 0 && s@[0] == '+' {
                s@.drop_first()
            } else {
                s@
            }),
            ds == s@.skip(start as int),
            ds.len() == len - start,
            spec_all_digits(ds.take(p - start)),
            acc == spec_digits_value(ds.take(p - start)),
            acc <= u32::MAX,
        decreases len - p,
    {
        let c = s.get_char(p);
        let cv = c as u32;
        proof {
            assert(ds[p - start] == s@[p as int]);
        }
        if cv < 48 || cv > 57 {
            proof {
                assert(!is_digit(ds[p - start]));
                assert(!spec_all_digits(ds));
            }
            return None;
        }
        let d = (cv - 48) as u64;
        let next = acc * 10 + d;
        proof {
            let k = p - start;
            assert(ds.take(k + 1).drop_last() =~= ds.take(k));
            assert(ds.take(k + 1).last() == ds[k]);
            assert(spec_digits_value(ds.take(k + 1)) == 10 * spec_digits_value(ds.take(k)) + (
            ds[k] as u32 - 48));
        }
        if next > u32::MAX as u64 {
            proof {
                let k = p - start;
                if spec_all_digits(ds) {
                    lemma_digits_value_monotone(ds, k + 1, ds.len() as int);
                    assert(ds.take(ds.len() as int) =~= ds);
                }
            }
            return None;
        }
        acc = next;
        p = p + 1;
    }
    proof {
        assert(ds.take(ds.len() as int) =~= ds);
    }
    Some(acc as u32)
}

/// The value `str::parse::<u64>` accepts: an optional leading `+`,
/// then one or more ASCII digits whose value fits in a `u64`.
pub open spec fn spec_parse_u64(s: Seq<char>) -> Option<u64> {
    let ds = if s.len() > 0 && s[0] == '+' {
        s.drop_first()
    } else {
        s
    };
    if ds.len() == 0 || !spec_all_digits(ds) {
        None
    } else if spec_digits_value(ds) > u64::MAX {
        None
    } else {
        Some(spec_digits_value(ds) as u64)
    }
}

/// Parse a decimal `u64` exactly as `str::parse::<u64>` does.
#[verifier::rlimit(80)]
pub fn parse_u64(s: &str) -> (r: Option<u64>)
    ensures
        r == spec_parse_u64(s@),
{
    let len = s.unicode_len();
    let start: usize = if len > 0 && s.get_char(0) == '+' {
        1
    } else {
        0
    };
    let ghost ds = if s@.len() > 0 && s@[0] == '+' {
        s@.drop_first()
    } else {
        s@
    };
    proof {
        assert(ds =~= s@.skip(start as int));
    }
    if start >= len {
        return None;
    }
    let mut acc: u128 = 0;
    let mut p: usize = start;
    while p < len
        invariant
            start <= p <= len,
            len == s@.len(),
            start <= 1,
            ds == (if s@.len() > 0 && s@[0] == '+' {
                s@.drop_first()
            } else {
                s@
            }),
            ds == s@.skip(start as int),
            ds.len() == len - start,
            spec_all_digits(ds.take(p - start)),
            acc == spec_digits_value(ds.take(p - start)),
            acc <= u64::MAX,
        decreases len - p,
    {
        let c = s.get_char(p);
        let cv = c as u32;
        proof {
            assert(ds[p - start] == s@[p as int]);
        }
        if cv < 48 || cv > 57 {
            proof {
                assert(!is_digit(ds[p - start]));
                assert(!spec_all_digits(ds));
            }
            return None;
        }
        let d = (cv - 48) as u128;
        let next = acc * 10 + d;
        proof {
            let k = p - start;
            assert(ds.take(k + 1).drop_last() =~= ds.take(k));
            assert(ds.take(k + 1).last() == ds[k]);
            assert(spec_digits_value(ds.take(k + 1)) == 10 * spec_digits_value(ds.take(k)) + (
            ds[k] as u32 - 48));
        }
        if next > u64::MAX as u128 {
            proof {
                let k = p - start;
                if spec_all_digits(ds) {
                    lemma_digits_value_monotone(ds, k + 1, ds.len() as int);
                    assert(ds.take(ds.len() as int) =~= ds);
                }
            }
            return None;
        }
        acc = next;
        p = p + 1;
    }
    proof {
        assert(ds.take(ds.len() as int) =~= ds);
    }
    Some(acc as u64)
}

/// The index of the first occurrence of `c` in `s`.
pub open spec fn spec_find(s: Seq<char>, c: char) -> Option<int>
    decreases s.len(),
{
    if s.len() == 0 {
        None
    } else if s[0] == c {
        Some(0int)
    } else {
        match spec_find(s.drop_first(), c) {
            Some(i) => Some(i + 1),
            None => None,
        }
    }
}

/// A witness for the first occurrence pins `spec_find` down.
proof fn lemma_find_first(s: Seq<char>, c: char, k: int)
    requires
        0 <= k < s.len(),
        s[k] == c,
        forall|j: int| 0 <= j < k ==> s[j] != c,
    ensures
        spec_find(s, c) == Some(k),
    decreases k,
{
    if k > 0 {
        assert(s[0] != c);
        lemma_find_first(s.drop_first(), c, k - 1);
    }
}

/// Absence of `c` pins `spec_find` down.
proof fn lemma_find_none(s: Seq<char>, c: char)
    requires
        forall|j: int| 0 <= j < s.len() ==> s[j] != c,
    ensures
        spec_find(s, c) is None,
    decreases s.len(),
{
    if s.len() > 0 {
        lemma_find_none(s.drop_first(), c);
    }
}

/// Find the first occurrence of `c` in `s`.
pub fn find_char(s: &str, c: char) -> (r: Option<usize>)
    ensures
        (match r {
            Some(i) => Some(i as int),
            None => None,
        }) == spec_find(s@, c),
        r matches Some(i) ==> i < s@.len(),
{
    let len = s.unicode_len();
    let mut i: usize = 0;
    while i < len
        invariant
            0 <= i <= len,
            len == s@.len(),
            forall|j: int| 0 <= j < i ==> s@[j] != c,
        decreases len - i,
    {
        if s.get_char(i) == c {
            proof {
                lemma_find_first(s@, c, i as int);
            }
            return Some(i);
        }
        i = i + 1;
    }
    proof {
        lemma_find_none(s@, c);
    }
    None
}

/// The pieces of `s` between occurrences of the separator `c`, in order:
/// what `str::split` yields.
pub open spec fn spec_split(s: Seq<char>, c: char) -> Seq<Seq<char>>
    decreases s.len(),
    via spec_split_decreases
{
    match spec_find(s, c) {
        None => seq![s],
        Some(i) => seq![s.take(i)] + spec_split(s.skip(i + 1), c),
    }
}

/// A found separator lies inside the sequence.
proof fn lemma_find_bounds(s: Seq<char>, c: char)
    ensures
        spec_find(s, c) matches Some(i) ==> 0 <= i < s.len(),
    decreases s.len(),
{
    if s.len() > 0 && s[0] != c {
        lemma_find_bounds(s.drop_first(), c);
    }
}

#[via_fn]
proof fn spec_split_decreases(s: Seq<char>, c: char) {
    lemma_find_bounds(s, c);
}

/// Split `s` on every occurrence of `c`.
pub fn split_char(s: &str, c: char) -> (r: Vec<String>)
    ensures
        r.deep_view() == spec_split(s@, c),
{
    let len = s.unicode_len();
    let mut r: Vec<String> = Vec::new();
    let mut start: usize = 0;
    let mut i: usize = 0;
    proof {
        assert(s@.skip(0) =~= s@);
        assert(r.deep_view() + spec_split(s@, c) =~= spec_split(s@, c));
    }
    while i < len
        invariant
            0 <= start <= i <= len,
            len == s@.len(),
            forall|j: int| start <= j < i ==> s@[j] != c,
            spec_split(s@, c) == r.deep_view() + spec_split(s@.skip(start as int), c),
        decreases len - i,
    {
        if s.get_char(i) == c {
            let ghost tail = s@.skip(start as int);
            let ghost prev = r.deep_view();
            proof {
                assert forall|j: int| 0 <= j < i - start implies tail[j] != c by {
                    assert(tail[j] == s@[start + j]);
                }
                assert(tail[i - start] == s@[i as int]);
                lemma_find_first(tail, c, i - start);
            }
            let piece = s.substring_char(start, i).to_owned();
            r.push(piece);
            proof {
                assert(piece@ == s@.subrange(start as int, i as int));
                assert(tail.take(i - start) =~= s@.subrange(start as int, i as int));
                assert(tail.skip(i - start + 1) =~= s@.skip(i + 1));
                assert(spec_split(tail, c) == seq![tail.take(i - start)] + spec_split(
                    s@.skip(i + 1),
                    c,
                ));
                assert(r.deep_view() =~= prev.push(piece@));
                assert(prev + spec_split(tail, c) =~= r.deep_view() + spec_split(
                    s@.skip(i + 1),
                    c,
                ));
            }
            start = i + 1;
        }
        i = i + 1;
    }
    let ghost tail = s@.skip(start as int);
    let ghost prev = r.deep_view();
    proof {
        assert forall|j: int| 0 <= j < tail.len() implies tail[j] != c by {
            assert(tail[j] == s@[start + j]);
        }
        lemma_find_none(tail, c);
    }
    let piece = s.substring_char(start, len).to_owned();
    r.push(piece);
    proof {
        assert(piece@ == s@.subrange(start as int, len as int));
        assert(tail =~= s@.subrange(start as int, len as int));
        assert(spec_split(tail, c) == seq![tail]);
        assert(r.deep_view() =~= prev.push(piece@));
        assert(prev + spec_split(tail, c) =~= r.deep_view());
    }
    r
}

/// The meridiem tag a captured `time_kind` group denotes: `am`/`pm` in any
/// ASCII case mix.
pub open spec fn spec_kind_of(s: Seq<char>) -> Option<TimeKind> {
    if s.len() == 2 && (s[0] == 'a' || s[0] == 'A') && (s[1] == 'm' || s[1] == 'M') {
        Some(TimeKind::AM)
    } else if s.len() == 2 && (s[0] == 'p' || s[0] == 'P') && (s[1] == 'm' || s[1] == 'M') {
        Some(TimeKind::PM)
    } else {
        None
    }
}

/// Recognize a case-normalized AM/PM tag.
pub fn kind_of_str(s: &str) -> (r: Option<TimeKind>)
    ensures
        r == spec_kind_of(s@),
{
    if s.unicode_len() != 2 {
        return None;
    }
    let c0 = s.get_char(0);
    let c1 = s.get_char(1);
    if (c0 == 'a' || c0 == 'A') && (c1 == 'm' || c1 == 'M') {
        Some(TimeKind::AM)
    } else if (c0 == 'p' || c0 == 'P') && (c1 == 'm' || c1 == 'M') {
        Some(TimeKind::PM)
    } else {
        None
    }
}

/// The subsequence keeping only the first occurrence of each value, in
/// appearance order.
pub open spec fn dedup_first<T>(s: Seq<T>) -> Seq<T>
    decreases s.len(),
{
    if s.len() == 0 {
        Seq::empty()
    } else {
        let rest = dedup_first(s.drop_last());
        if s.drop_last().contains(s.last()) {
            rest
        } else {
            rest.push(s.last())
        }
    }
}

/// Membership in a pushed sequence.
proof fn lemma_push_contains<T>(s: Seq<T>, v: T, x: T)
    ensures
        s.push(v).contains(x) <==> (s.contains(x) || x == v),
{
    if s.push(v).contains(x) {
        let i = choose|i: int| 0 <= i < s.push(v).len() && s.push(v)[i] == x;
        if i < s.len() {
            assert(s[i] == x);
        }
    }
    if s.contains(x) {
        let i = choose|i: int| 0 <= i < s.len() && s[i] == x;
        assert(s.push(v)[i] == x);
    }
    if x == v {
        assert(s.push(v)[s.len() as int] == x);
    }
}

/// Deduplication keeps exactly the values of the input.
pub proof fn lemma_dedup_first_contains<T>(s: Seq<T>, x: T)
    ensures
        dedup_first(s).contains(x) == s.contains(x),
    decreases s.len(),
{
    if s.len() > 0 {
        let d = s.drop_last();
        let l = s.last();
        lemma_dedup_first_contains(d, x);
        assert(s =~= d.push(l));
        lemma_push_contains(d, l, x);
        if d.contains(l) {
            if x == l {
                assert(d.contains(x));
            }
        } else {
            lemma_push_contains(dedup_first(d), l, x);
        }
    }
}

fn times_contain(v: &Vec<TimeComponents>, x: TimeComponents) -> (b: bool)
    ensures
        b == v@.contains(x),
{
    let mut i: usize = 0;
    while i < v.len()
        invariant
            0 <= i <= v@.len(),
            forall|j: int| 0 <= j < i ==> v@[j] != x,
        decreases v@.len() - i,
    {
        if v[i] == x {
            return true;
        }
        i = i + 1;
    }
    false
}

/// Drop repeated clock times, keeping first occurrences in order.
pub fn dedup_times(v: &Vec<TimeComponents>) -> (r: Vec<TimeComponents>)
    ensures
        r@ == dedup_first(v@),
{
    let mut r: Vec<TimeComponents> = Vec::new();
    let mut i: usize = 0;
    while i < v.len()
        invariant
            0 <= i <= v@.len(),
            r@ == dedup_first(v@.take(i as int)),
        decreases v@.len() - i,
    {
        proof {
            assert(v@.take(i + 1).drop_last() =~= v@.take(i as int));
            lemma_dedup_first_contains(v@.take(i as int), v@[i as int]);
        }
        if !times_contain(&r, v[i]) {
            r.push(v[i]);
        }
        i = i + 1;
    }
    proof {
        assert(v@.take(v@.len() as int) =~= v@);
    }
    r
}

fn instants_contain(v: &Vec<i64>, x: i64) -> (b: bool)
    ensures
        b == v@.contains(x),
{
    let mut i: usize = 0;
    while i < v.len()
        invariant
            0 <= i <= v@.len(),
            forall|j: int| 0 <= j < i ==> v@[j] != x,
        decreases v@.len() - i,
    {
        if v[i] == x {
            return true;
        }
        i = i + 1;
    }
    false
}

/// Drop repeated instants, keeping first occurrences in order.
pub fn dedup_instants(v: &Vec<i64>) -> (r: Vec<i64>)
    ensures
        r@ == dedup_first(v@),
{
    let mut r: Vec<i64> = Vec::new();
    let mut i: usize = 0;
    while i < v.len()
        invariant
            0 <= i <= v@.len(),
            r@ == dedup_first(v@.take(i as int)),
        decreases v@.len() - i,
    {
        proof {
            assert(v@.take(i + 1).drop_last() =~= v@.take(i as int));
            lemma_dedup_first_contains(v@.take(i as int), v@[i as int]);
        }
        if !instants_contain(&r, v[i]) {
            r.push(v[i]);
        }
        i = i + 1;
    }
    proof {
        assert(v@.take(v@.len() as int) =~= v@);
    }
    r
}

/// The character for a single decimal digit.
pub open spec fn digit_char(d: int) -> char {
    if d == 0 {
        '0'
    } else if d == 1 {
        '1'
    } else if d == 2 {
        '2'
    } else if d == 3 {
        '3'
    } else if d == 4 {
        '4'
    } else if d == 5 {
        '5'
    } else if d == 6 {
        '6'
    } else if d == 7 {
        '7'
    } else if d == 8 {
        '8'
    } else {
        '9'
    }
}

fn digit_str(d: u32) -> (r: &'static str)
    requires
        d < 10,
    ensures
        r@ =~= seq![digit_char(d as int)],
{
    proof {
        reveal_strlit("0");
        reveal_strlit("1");
        reveal_strlit("2");
        reveal_strlit("3");
        reveal_strlit("4");
        reveal_strlit("5");
        reveal_strlit("6");
        reveal_strlit("7");
        reveal_strlit("8");
        reveal_strlit("9");
    }
    match d {
        0 => "0",
        1 => "1",
        2 => "2",
        3 => "3",
        4 => "4",
        5 => "5",
        6 => "6",
        7 => "7",
        8 => "8",
        _ => "9",
    }
}

/// Two-digit rendering, zero-padded: `07`, `59`.
pub open spec fn spec_two_digits(n: int) -> Seq<char> {
    seq![digit_char(n / 10), digit_char(n % 10)]
}

/// Append the zero-padded two-digit rendering of `n`.
pub fn push_two_digits(out: &mut String, n: u32)
    requires
        n < 100,
    ensures
        final(out)@ == old(out)@ + spec_two_digits(n as int),
{
    out.append(digit_str(n / 10));
    out.append(digit_str(n % 10));
}

/// Space-padded hour rendering without a leading zero: ` 7`, `12`.
pub open spec fn spec_padded_hour(n: int) -> Seq<char> {
    if n < 10 {
        seq![' ', digit_char(n)]
    } else {
        seq![digit_char(n / 10), digit_char(n % 10)]
    }
}

/// Append the space-padded rendering of an hour below 100.
pub fn push_padded_hour(out: &mut String, n: u32)
    requires
        n < 100,
    ensures
        final(out)@ == old(out)@ + spec_padded_hour(n as int),
{
    if n < 10 {
        proof {
            reveal_strlit(" ");
        }
        out.append(" ");
        out.append(digit_str(n));
    } else {
        out.append(digit_str(n / 10));
        out.append(digit_str(n % 10));
    }
}

} // verus!
