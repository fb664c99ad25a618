//! ISO 8601 durations (`PnYnMnWnDTnHnMnS`), read as a number of seconds.
//!
//! The accepted text is an optional sign, `P`, then optional date fields
//! `Y`, `M`, `W`, `D`, then optionally `T` and time fields `H`, `M`, `S`.
//! Each field is an optional sign followed by digits, commas and dots; it
//! must read as an `i64`. A year counts 365 days and a month 30 days. The
//! leading sign is accepted and does not change the result.

use vstd::prelude::*;
use vstd::string::*;
use crate::text::str_chars;

verus! {

/// Why a field did not read as an `i64` (the kinds of `std::num::IntErrorKind`
/// that decimal parsing produces).
#[derive(Debug, Clone, Copy, PartialEq, Eq, Structural)]
pub enum IntErrorKind {
    Empty,
    InvalidDigit,
    PosOverflow,
    NegOverflow,
}

/// Why a duration was refused.
#[derive(Debug, Clone, PartialEq, Eq)]
pub enum ParseError {
    /// A field's number did not read as an `i64`.
    ParseIntError(IntErrorKind),
    /// The text is not an ISO 8601 duration.
    InvalidDuration(String),
}

/// A signed number of whole seconds, within the range that a duration of
/// milliseconds in an `i64` can hold.
#[derive(Debug, Clone, Copy, PartialEq, Eq)]
pub struct Duration {
    secs: i64,
}

/// The largest number of seconds a duration holds (`i64::MAX / 1000`).
pub const MAX_DURATION_SECONDS: i64 = 9223372036854775i64;

/// The seconds lie in the range of a duration.
pub open spec fn in_duration_range(t: int) -> bool {
    -MAX_DURATION_SECONDS <= t <= MAX_DURATION_SECONDS
}

impl Duration {
    pub closed spec fn spec_seconds(&self) -> i64 {
        self.secs
    }

    #[verifier::type_invariant]
    closed spec fn inv(self) -> bool {
        in_duration_range(self.secs as int)
    }

    /// The duration of the given number of seconds.
    pub fn seconds(secs: i64) -> (d: Duration)
        requires
            in_duration_range(secs as int),
        ensures
            d.spec_seconds() == secs,
    {
        Duration { secs }
    }

    /// The number of whole seconds.
    pub fn num_seconds(&self) -> (r: i64)
        ensures
            r == self.spec_seconds(),
            in_duration_range(r as int),
    {
        proof {
            use_type_invariant(self);
        }
        self.secs
    }
}

// ---------------------------------------------------------------------------
// Reading an i64 (the rules of `str::parse::<i64>`)
// ---------------------------------------------------------------------------

pub open spec fn is_digit(c: char) -> bool {
    '0' <= c <= '9'
}

pub open spec fn digit_value(c: char) -> int {
    c as int - '0' as int
}

/// Reads the digits `d[k..]` after the magnitude `acc` read so far; a
/// character that is not a digit, or a magnitude beyond the `i64` range,
/// stops the reading at the first position where it occurs.
pub open spec fn read_digits(d: Seq<char>, neg: bool, k: int, acc: int) -> Result<int, IntErrorKind>
    decreases d.len() - k,
{
    if k < 0 || k >= d.len() {
        Ok(if neg { -acc } else { acc })
    } else if !is_digit(d[k]) {
        Err(IntErrorKind::InvalidDigit)
    } else {
        let next = acc * 10 + digit_value(d[k]);
        if !neg && next > i64::MAX {
            Err(IntErrorKind::PosOverflow)
        } else if neg && -next < i64::MIN {
            Err(IntErrorKind::NegOverflow)
        } else {
            read_digits(d, neg, k + 1, next)
        }
    }
}

pub open spec fn is_sign(c: char) -> bool {
    c == '+' || c == '-'
}

/// What `str::parse::<i64>` gives for the characters `s`: an optional sign,
/// then at least one decimal digit, within the `i64` range.
pub open spec fn parse_i64_spec(s: Seq<char>) -> Result<int, IntErrorKind> {
    if s.len() == 0 {
        Err(IntErrorKind::Empty)
    } else if is_sign(s[0]) && s.len() == 1 {
        Err(IntErrorKind::InvalidDigit)
    } else if is_sign(s[0]) {
        read_digits(s.drop_first(), s[0] == '-', 0, 0)
    } else {
        read_digits(s, false, 0, 0)
    }
}

proof fn lemma_read_digits_range(d: Seq<char>, neg: bool, k: int, acc: int)
    requires
        0 <= acc,
        !neg ==> acc <= i64::MAX,
        neg ==> -acc >= i64::MIN,
    ensures
        read_digits(d, neg, k, acc) matches Ok(v) ==> i64::MIN <= v <= i64::MAX,
    decreases d.len() - k,
{
    if 0 <= k < d.len() && is_digit(d[k]) {
        let next = acc * 10 + digit_value(d[k]);
        if !(!neg && next > i64::MAX) && !(neg && -next < i64::MIN) {
            lemma_read_digits_range(d, neg, k + 1, next);
        }
    }
}

/// Reads the characters `v[from..to]` as `str::parse::<i64>` does.
pub fn parse_i64(v: &Vec<char>, from: usize, to: usize) -> (r: Result<i64, IntErrorKind>)
    requires
        from <= to <= v@.len(),
    ensures
        match parse_i64_spec(v@.subrange(from as int, to as int)) {
            Ok(x) => r matches Ok(y) && y as int == x,
            Err(e) => r == Err::<i64, IntErrorKind>(e),
        },
{
    let ghost s = v@.subrange(from as int, to as int);
    if from == to {
        return Err(IntErrorKind::Empty);
    }
    let first = v[from];
    let signed = first == '+' || first == '-';
    if signed && to - from == 1 {
        return Err(IntErrorKind::InvalidDigit);
    }
    let neg = first == '-';
    let start = if signed { from + 1 } else { from };
    let ghost d = v@.subrange(start as int, to as int);
    proof {
        if signed {
            assert(d =~= s.drop_first());
        } else {
            assert(d =~= s);
        }
        assert(parse_i64_spec(s) == read_digits(d, neg, 0, 0));
    }
    let limit: u128 = if neg { 9223372036854775808u128 } else { 9223372036854775807u128 };
    let mut mag: u128 = 0;
    let mut i = start;
    while i < to
        invariant
            start <= i <= to <= v@.len(),
            d == v@.subrange(start as int, to as int),
            s == v@.subrange(from as int, to as int),
            parse_i64_spec(s) == read_digits(d, neg, 0, 0),
            mag <= limit,
            limit == (if neg { 9223372036854775808u128 } else { 9223372036854775807u128 }),
            read_digits(d, neg, 0, 0) == read_digits(d, neg, i - start, mag as int),
        decreases to - i,
    {
        let c = v[i];
        assert(d[i - start] == c);
        if !('0' <= c && c <= '9') {
            return Err(IntErrorKind::InvalidDigit);
        }
        let dv = (c as u32 - '0' as u32) as u128;
        assert(dv as int == digit_value(c));
        let next = mag * 10 + dv;
        if next > limit {
            if neg {
                return Err(IntErrorKind::NegOverflow);
            } else {
                return Err(IntErrorKind::PosOverflow);
            }
        }
        mag = next;
        i = i + 1;
    }
    proof {
        lemma_read_digits_range(d, neg, 0, 0);
    }
    if neg {
        if mag == 9223372036854775808u128 {
            Ok(i64::MIN)
        } else {
            Ok(-(mag as i64))
        }
    } else {
        Ok(mag as i64)
    }
}

// ---------------------------------------------------------------------------
// The grammar
// ---------------------------------------------------------------------------

/// A character that a field's number may hold: `[0-9,.]`.
pub open spec fn is_number_char(c: char) -> bool {
    is_digit(c) || c == ',' || c == '.'
}

/// The end of the longest run of number characters from `k`.
pub open spec fn number_run_end(s: Seq<char>, k: int) -> int
    decreases s.len() - k,
{
    if 0 <= k < s.len() && is_number_char(s[k]) {
        number_run_end(s, k + 1)
    } else {
        k
    }
}

/// The end of a field `[-+]?[0-9,.]*` that starts at `k`.
pub open spec fn field_end(s: Seq<char>, k: int) -> int {
    if 0 <= k < s.len() && is_sign(s[k]) {
        number_run_end(s, k + 1)
    } else {
        number_run_end(s, k)
    }
}

/// The optional part `(field)letter` at `k`: the field's text when the part
/// is there, and the position after it.
pub open spec fn designated(s: Seq<char>, k: int, letter: char) -> (Option<Seq<char>>, int) {
    let e = field_end(s, k);
    if e < s.len() && s[e] == letter {
        (Some(s.subrange(k, e)), e + 1)
    } else {
        (None, k)
    }
}

/// The seven fields (years, months, weeks, days, hours, minutes, seconds)
/// of a duration, each present or not; `None` when the text is not a
/// duration.
pub open spec fn duration_fields(s: Seq<char>) -> Option<Seq<Option<Seq<char>>>> {
    let p: int = if s.len() > 0 && is_sign(s[0]) { 1 } else { 0 };
    if !(p < s.len() && s[p] == 'P') {
        None
    } else {
        let (y, k1) = designated(s, p + 1, 'Y');
        let (mo, k2) = designated(s, k1, 'M');
        let (w, k3) = designated(s, k2, 'W');
        let (d, k4) = designated(s, k3, 'D');
        let has_time = k4 < s.len() && s[k4] == 'T';
        let (h, k5) = if has_time { designated(s, k4 + 1, 'H') } else { (None, k4) };
        let (mi, k6) = if has_time { designated(s, k5, 'M') } else { (None, k5) };
        let (se, k7) = if has_time { designated(s, k6, 'S') } else { (None, k6) };
        if k7 == s.len() {
            Some(seq![y, mo, w, d, h, mi, se])
        } else {
            None
        }
    }
}

/// Seconds per unit of each field: a year of 365 days, a month of 30 days,
/// a week, a day, an hour, a minute, a second.
pub open spec fn multiplier(k: int) -> int {
    if k == 0 {
        31536000
    } else if k == 1 {
        2592000
    } else if k == 2 {
        604800
    } else if k == 3 {
        86400
    } else if k == 4 {
        3600
    } else if k == 5 {
        60
    } else {
        1
    }
}

pub open spec fn fits_i64(x: int) -> bool {
    i64::MIN <= x <= i64::MAX
}

/// What a duration text comes to.
#[derive(Debug, Clone, Copy, PartialEq, Eq, Structural)]
pub enum DurationOutcome {
    /// The duration, in seconds.
    Seconds(i64),
    /// The text is not an ISO 8601 duration.
    Invalid,
    /// A field's number did not read as an `i64`.
    BadNumber(IntErrorKind),
    /// The seconds leave the `i64` range on the way, or the range of a
    /// duration at the end.
    Overflow,
}

/// Adds up the fields from `k` on, in order, onto `acc`: a field that does
/// not read as a number stops the sum, and so does a product or a partial
/// sum outside the `i64` range.
pub open spec fn sum_fields(fields: Seq<Option<Seq<char>>>, k: int, acc: int) -> DurationOutcome
    decreases 7 - k,
{
    if k < 0 || k >= 7 || k >= fields.len() {
        if in_duration_range(acc) {
            DurationOutcome::Seconds(acc as i64)
        } else {
            DurationOutcome::Overflow
        }
    } else {
        match fields[k] {
            None => sum_fields(fields, k + 1, acc),
            Some(t) => match parse_i64_spec(t) {
                Err(e) => DurationOutcome::BadNumber(e),
                Ok(x) => {
                    let product = x * multiplier(k);
                    if !fits_i64(product) || !fits_i64(acc + product) {
                        DurationOutcome::Overflow
                    } else {
                        sum_fields(fields, k + 1, acc + product)
                    }
                },
            },
        }
    }
}

/// What the duration text `s` comes to.
pub open spec fn duration_outcome(s: Seq<char>) -> DurationOutcome {
    match duration_fields(s) {
        None => DurationOutcome::Invalid,
        Some(fields) => sum_fields(fields, 0, 0),
    }
}


// ---------------------------------------------------------------------------
// Reading a duration
// ---------------------------------------------------------------------------

fn number_run_end_exec(v: &Vec<char>, k: usize) -> (e: usize)
    requires
        k <= v@.len(),
    ensures
        e as int == number_run_end(v@, k as int),
        k <= e <= v@.len(),
{
    let mut e = k;
    while e < v.len() && (('0' <= v[e] && v[e] <= '9') || v[e] == ',' || v[e] == '.')
        invariant
            k <= e <= v@.len(),
            number_run_end(v@, k as int) == number_run_end(v@, e as int),
        decreases v.len() - e,
    {
        e = e + 1;
    }
    e
}

/// The part `(field)letter` at `k`: whether it is there, where the field
/// ends, and the position after the part.
fn designated_exec(v: &Vec<char>, k: usize, letter: char) -> (r: (bool, usize, usize))
    requires
        k <= v@.len(),
    ensures
        k <= r.1 <= v@.len(),
        r.2 <= v@.len(),
        r.0 ==> designated(v@, k as int, letter) == (Some(v@.subrange(k as int, r.1 as int)), r.2 as int),
        !r.0 ==> designated(v@, k as int, letter) == (None::<Seq<char>>, k as int) && r.2 == k,
{
    let e = if k < v.len() && (v[k] == '+' || v[k] == '-') {
        number_run_end_exec(v, k + 1)
    } else {
        number_run_end_exec(v, k)
    };
    if e < v.len() && v[e] == letter {
        (true, e, e + 1)
    } else {
        (false, e, k)
    }
}

/// Multipliers of the seven fields, in seconds.
fn multiplier_exec(k: usize) -> (m: i64)
    requires
        k < 7,
    ensures
        m as int == multiplier(k as int),
{
    if k == 0 {
        31536000
    } else if k == 1 {
        2592000
    } else if k == 2 {
        604800
    } else if k == 3 {
        86400
    } else if k == 4 {
        3600
    } else if k == 5 {
        60
    } else {
        1
    }
}

/// The range `r` of `s` holds the field `f`.
pub open spec fn range_holds(s: Seq<char>, f: Option<Seq<char>>, r: Option<(usize, usize)>) -> bool {
    match r {
        None => f is None,
        Some((a, b)) => a <= b <= s.len() && f == Some(s.subrange(a as int, b as int)),
    }
}

fn field_range(v: &Vec<char>, k: usize, letter: char) -> (r: (Option<(usize, usize)>, usize))
    requires
        k <= v@.len(),
    ensures
        r.1 <= v@.len(),
        range_holds(v@, designated(v@, k as int, letter).0, r.0),
        designated(v@, k as int, letter).1 == r.1 as int,
{
    let (found, e, next) = designated_exec(v, k, letter);
    if found {
        (Some((k, e)), next)
    } else {
        (None, next)
    }
}

/// The seven fields of the duration in `v`, as ranges of `v`, or `None`
/// when `v` is not a duration.
fn duration_fields_exec(v: &Vec<char>) -> (r: Option<Vec<Option<(usize, usize)>>>)
    ensures
        match duration_fields(v@) {
            None => r is None,
            Some(fields) => r matches Some(ranges) && ranges@.len() == 7 && fields.len() == 7
                && forall|i: int| 0 <= i < 7 ==> range_holds(v@, #[trigger] fields[i], ranges@[i]),
        },
{
    let p: usize = if v.len() > 0 && (v[0] == '+' || v[0] == '-') { 1 } else { 0 };
    if !(p < v.len() && v[p] == 'P') {
        return None;
    }
    let (ry, k1) = field_range(v, p + 1, 'Y');
    let (rmo, k2) = field_range(v, k1, 'M');
    let (rw, k3) = field_range(v, k2, 'W');
    let (rd, k4) = field_range(v, k3, 'D');
    let has_time = k4 < v.len() && v[k4] == 'T';
    let (rh, k5) = if has_time { field_range(v, k4 + 1, 'H') } else { (None, k4) };
    let (rmi, k6) = if has_time { field_range(v, k5, 'M') } else { (None, k5) };
    let (rs, k7) = if has_time { field_range(v, k6, 'S') } else { (None, k6) };
    if k7 != v.len() {
        return None;
    }
    let mut ranges: Vec<Option<(usize, usize)>> = Vec::new();
    ranges.push(ry);
    ranges.push(rmo);
    ranges.push(rw);
    ranges.push(rd);
    ranges.push(rh);
    ranges.push(rmi);
    ranges.push(rs);
    proof {
        let fields = duration_fields(v@).unwrap();
        assert(range_holds(v@, fields[0], ranges@[0]));
        assert(range_holds(v@, fields[1], ranges@[1]));
        assert(range_holds(v@, fields[2], ranges@[2]));
        assert(range_holds(v@, fields[3], ranges@[3]));
        assert(range_holds(v@, fields[4], ranges@[4]));
        assert(range_holds(v@, fields[5], ranges@[5]));
        assert(range_holds(v@, fields[6], ranges@[6]));
    }
    Some(ranges)
}

proof fn lemma_sum_fields_range(fields: Seq<Option<Seq<char>>>, k: int, acc: int)
    ensures
        sum_fields(fields, k, acc) matches DurationOutcome::Seconds(t) ==> in_duration_range(t as int),
    decreases 7 - k,
{
    if !(k < 0 || k >= 7 || k >= fields.len()) {
        match fields[k] {
            None => lemma_sum_fields_range(fields, k + 1, acc),
            Some(t) => match parse_i64_spec(t) {
                Err(e) => {},
                Ok(x) => {
                    let product = x * multiplier(k);
                    if !(!fits_i64(product) || !fits_i64(acc + product)) {
                        lemma_sum_fields_range(fields, k + 1, acc + product);
                    }
                },
            },
        }
    }
}

/// What the duration text comes to, for every text: the seconds are in the
/// range of a duration.
pub proof fn lemma_outcome_seconds_in_range(s: Seq<char>)
    ensures
        duration_outcome(s) matches DurationOutcome::Seconds(t) ==> in_duration_range(t as int),
{
    if let Some(fields) = duration_fields(s) {
        lemma_sum_fields_range(fields, 0, 0);
    }
}

/// What the duration text comes to, computed.
pub fn duration_outcome_of(period: &str) -> (r: DurationOutcome)
    ensures
        r == duration_outcome(period@),
{
    let v = str_chars(period);
    let ranges = match duration_fields_exec(&v) {
        None => return DurationOutcome::Invalid,
        Some(ranges) => ranges,
    };
    let ghost fields = duration_fields(v@).unwrap();
    let mut acc: i64 = 0;
    let mut k: usize = 0;
    while k < 7
        invariant
            k <= 7,
            ranges@.len() == 7,
            fields.len() == 7,
            duration_fields(v@) == Some(fields),
            v@ == period@,
            forall|i: int| 0 <= i < 7 ==> range_holds(v@, #[trigger] fields[i], ranges@[i]),
            duration_outcome(period@) == sum_fields(fields, k as int, acc as int),
        decreases 7 - k,
    {
        assert(range_holds(v@, fields[k as int], ranges@[k as int]));
        match ranges[k] {
            None => {},
            Some((a, b)) => {
                match parse_i64(&v, a, b) {
                    Err(e) => return DurationOutcome::BadNumber(e),
                    Ok(x) => {
                        let m = multiplier_exec(k);
                        assert(-85070591730234615865843651857942052864 <= (x as int) * (m as int)
                            <= 85070591730234615865843651857942052864) by (nonlinear_arith)
                            requires
                                i64::MIN <= x <= i64::MAX,
                                1 <= m <= 31536000,
                        ;
                        let product: i128 = (x as i128) * (m as i128);
                        let sum: i128 = (acc as i128) + product;
                        if product < (i64::MIN as i128) || product > (i64::MAX as i128)
                            || sum < (i64::MIN as i128) || sum > (i64::MAX as i128) {
                            return DurationOutcome::Overflow;
                        }
                        proof {
                            let t = v@.subrange(a as int, b as int);
                            assert(fields[k as int] == Some(t));
                            assert(parse_i64_spec(t) == Ok::<int, IntErrorKind>(x as int));
                            assert(sum_fields(fields, k as int, acc as int) == sum_fields(fields, k + 1, sum as int));
                        }
                        acc = sum as i64;
                    },
                }
            },
        }
        k = k + 1;
    }
    if acc < -MAX_DURATION_SECONDS || acc > MAX_DURATION_SECONDS {
        DurationOutcome::Overflow
    } else {
        DurationOutcome::Seconds(acc)
    }
}

/// The text that a refused duration carries.
pub open spec fn invalid_duration_message() -> Seq<char> {
    "Could not find a valid ISO 8601 duration"@
}

/// The result `parse_duration` gives for an outcome other than overflow.
pub open spec fn parse_result_matches(r: Result<Duration, ParseError>, o: DurationOutcome) -> bool {
    match o {
        DurationOutcome::Seconds(t) => r matches Ok(d) && d.spec_seconds() == t,
        DurationOutcome::Invalid => r matches Err(ParseError::InvalidDuration(m)) && m@ == invalid_duration_message(),
        DurationOutcome::BadNumber(e) => r == Err::<Duration, ParseError>(ParseError::ParseIntError(e)),
        DurationOutcome::Overflow => false,
    }
}

/// Reads an ISO 8601 duration such as `PT1H2M5S` or `P3DT12H` as a number
/// of seconds. Text that is not a duration gives `InvalidDuration`; a field
/// that does not read as an `i64` gives `ParseIntError`. A duration whose
/// seconds leave the `i64` range, or the range of a duration, is refused by
/// the precondition: `try_parse_duration` tells it apart.
pub fn parse_duration(period: &str) -> (r: Result<Duration, ParseError>)
    requires
        duration_outcome(period@) != DurationOutcome::Overflow,
    ensures
        parse_result_matches(r, duration_outcome(period@)),
{
    proof {
        lemma_outcome_seconds_in_range(period@);
    }
    match duration_outcome_of(period) {
        DurationOutcome::Seconds(t) => Ok(Duration::seconds(t)),
        DurationOutcome::Invalid => Err(ParseError::InvalidDuration(
            String::from_str("Could not find a valid ISO 8601 duration"),
        )),
        DurationOutcome::BadNumber(e) => Err(ParseError::ParseIntError(e)),
        DurationOutcome::Overflow => {
            assert(false);
            Err(ParseError::ParseIntError(IntErrorKind::PosOverflow))
        },
    }
}

/// `parse_duration` for every text: `None` exactly where the duration's
/// seconds overflow, which `parse_duration` refuses.
pub fn try_parse_duration(period: &str) -> (r: Option<Result<Duration, ParseError>>)
    ensures
        r is None <==> duration_outcome(period@) == DurationOutcome::Overflow,
        r matches Some(res) ==> parse_result_matches(res, duration_outcome(period@)),
{
    if duration_outcome_of(period) == DurationOutcome::Overflow {
        None
    } else {
        Some(parse_duration(period))
    }
}

// ---------------------------------------------------------------------------
// Laws
// ---------------------------------------------------------------------------

proof fn lemma_run_shift(s: Seq<char>, c: char, k: int)
    requires
        0 <= k <= s.len(),
    ensures
        number_run_end(seq![c] + s, k + 1) == number_run_end(s, k) + 1,
    decreases s.len() - k,
{
    let t = seq![c] + s;
    if k < s.len() {
        assert(t[k + 1] == s[k]);
        if is_number_char(s[k]) {
            lemma_run_shift(s, c, k + 1);
        }
    }
}

proof fn lemma_designated_shift(s: Seq<char>, c: char, k: int, letter: char)
    requires
        0 <= k <= s.len(),
    ensures
        ({
            let (f, n) = designated(s, k, letter);
            designated(seq![c] + s, k + 1, letter) == (f, n + 1)
        }),
{
    let t = seq![c] + s;
    lemma_run_shift(s, c, k);
    lemma_run_end_bounds(s, k);
    lemma_run_end_bounds(s, k + 1);
    if k < s.len() {
        assert(t[k + 1] == s[k]);
        lemma_run_shift(s, c, k + 1);
    }
    let e = field_end(s, k);
    assert(field_end(t, k + 1) == e + 1);
    if e < s.len() {
        assert(t[e + 1] == s[e]);
        assert(t.subrange(k + 1, e + 1) =~= s.subrange(k, e));
    }
}

proof fn lemma_run_end_bounds(s: Seq<char>, k: int)
    requires
        0 <= k,
    ensures
        k <= number_run_end(s, k),
        k <= s.len() ==> number_run_end(s, k) <= s.len(),
    decreases s.len() - k,
{
    if 0 <= k < s.len() && is_number_char(s[k]) {
        lemma_run_end_bounds(s, k + 1);
    }
}

proof fn lemma_designated_bounds(s: Seq<char>, k: int, letter: char)
    requires
        0 <= k <= s.len(),
    ensures
        k <= designated(s, k, letter).1 <= s.len(),
{
    lemma_run_end_bounds(s, k);
    lemma_run_end_bounds(s, k + 1);
}

/// A leading sign does not change what a duration comes to: `-PT5M`,
/// `+PT5M` and `PT5M` all come to five minutes.
pub proof fn lemma_sign_ignored(s: Seq<char>, c: char)
    requires
        is_sign(c),
        !(s.len() > 0 && is_sign(s[0])),
    ensures
        duration_outcome(seq![c] + s) == duration_outcome(s),
{
    let t = seq![c] + s;
    if s.len() > 0 && s[0] == 'P' {
        assert(t[1] == s[0]);
        let (y, k1) = designated(s, 1, 'Y');
        lemma_designated_shift(s, c, 1, 'Y');
        lemma_designated_bounds(s, 1, 'Y');
        let (mo, k2) = designated(s, k1, 'M');
        lemma_designated_shift(s, c, k1, 'M');
        lemma_designated_bounds(s, k1, 'M');
        let (w, k3) = designated(s, k2, 'W');
        lemma_designated_shift(s, c, k2, 'W');
        lemma_designated_bounds(s, k2, 'W');
        let (d, k4) = designated(s, k3, 'D');
        lemma_designated_shift(s, c, k3, 'D');
        lemma_designated_bounds(s, k3, 'D');
        if k4 < s.len() {
            assert(t[k4 + 1] == s[k4]);
        }
        if k4 < s.len() && s[k4] == 'T' {
            let (h, k5) = designated(s, k4 + 1, 'H');
            lemma_designated_shift(s, c, k4 + 1, 'H');
            lemma_designated_bounds(s, k4 + 1, 'H');
            let (mi, k6) = designated(s, k5, 'M');
            lemma_designated_shift(s, c, k5, 'M');
            lemma_designated_bounds(s, k5, 'M');
            lemma_designated_shift(s, c, k6, 'S');
        }
        assert(duration_fields(t) == duration_fields(s));
    } else {
        if s.len() > 0 {
            assert(t[1] == s[0]);
        }
        assert(duration_fields(t) is None);
        assert(duration_fields(s) is None);
    }
}
} // verus!
