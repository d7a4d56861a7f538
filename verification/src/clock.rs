//! Best-effort human-readable timestamps for the history ledger.
//!
//! A wall-clock reading in seconds is split by integer division into an
//! approximate calendar date (365-day years, 30-day months - the last
//! month absorbs the remainder) and a time of day.  The result is coarse
//! by design: the ledger needs readable, monotonically ordered stamps, not
//! calendar accuracy.

use vstd::prelude::*;

verus! {

/// One rendered point in time, already split into display fields.
#[derive(Clone, Copy, Debug, PartialEq, Eq, Structural)]
pub struct TimeParts {
    pub year: u64,
    pub month: u64,
    pub day: u64,
    pub hour: u64,
    pub minute: u64,
    pub second: u64,
}

/// The display fields that a second count denotes.
pub open spec fn parts_of(t: u64) -> TimeParts {
    let days = t as int / 86400;
    let rem_days = days % 365;
    let month_index = if rem_days / 30 > 11 {
        11
    } else {
        rem_days / 30
    };
    TimeParts {
        year: (1970 + days / 365) as u64,
        month: (month_index + 1) as u64,
        day: (rem_days - 30 * month_index + 1) as u64,
        hour: ((t as int / 3600) % 24) as u64,
        minute: ((t as int / 60) % 60) as u64,
        second: (t as int % 60) as u64,
    }
}

/// Splits a second count into display fields.
pub fn timestamp_parts(t: u64) -> (p: TimeParts)
    ensures
        p == parts_of(t),
        1 <= p.month <= 12,
        1 <= p.day <= 35,
        p.hour <= 23,
        p.minute <= 59,
        p.second <= 59,
{
    let days = t / 86400;
    let rem_days = days % 365;
    let mut month_index = rem_days / 30;
    if month_index > 11 {
        month_index = 11;
    }
    assert(30 * month_index <= rem_days) by {
        assert(rem_days < 365);
        assert(30 * (rem_days as int / 30) <= rem_days) by (nonlinear_arith);
    };
    assert(days / 365 <= days) by {
        vstd::arithmetic::div_mod::lemma_div_is_ordered_by_denominator(days as int, 1, 365);
    };
    TimeParts {
        year: 1970 + days / 365,
        month: month_index + 1,
        day: rem_days - 30 * month_index + 1,
        hour: (t / 3600) % 24,
        minute: (t / 60) % 60,
        second: t % 60,
    }
}

/// Two zero-padded decimal digits.
pub open spec fn two_digits(x: int) -> Seq<u8> {
    seq![(48 + x / 10) as u8, (48 + x % 10) as u8]
}

/// Four zero-padded decimal digits.
pub open spec fn four_digits(x: int) -> Seq<u8> {
    seq![
        (48 + x / 1000) as u8,
        (48 + (x / 100) % 10) as u8,
        (48 + (x / 10) % 10) as u8,
        (48 + x % 10) as u8,
    ]
}

/// The rendered form of a timestamp: `YYYY-MM-DD HH:MM:SS`.
pub open spec fn timestamp_text(p: TimeParts) -> Seq<u8> {
    four_digits(p.year as int) + seq![45u8] + two_digits(p.month as int) + seq![45u8] + two_digits(
        p.day as int,
    ) + seq![32u8] + two_digits(p.hour as int) + seq![58u8] + two_digits(p.minute as int)
        + seq![58u8] + two_digits(p.second as int)
}

/// No byte of the text is a line feed or a field-separator bar, so a
/// rendered timestamp is safe inside one ledger line.
pub open spec fn clean_text(s: Seq<u8>) -> bool {
    forall|i: int| 0 <= i < s.len() ==> s[i] != 10 && s[i] != 124
}

proof fn lemma_two_digits_clean(x: int)
    requires
        0 <= x <= 99,
    ensures
        clean_text(two_digits(x)),
{
    assert(0 <= x / 10 <= 9);
    assert(0 <= x % 10 <= 9);
    assert forall|i: int| 0 <= i < two_digits(x).len() implies two_digits(x)[i] != 10 && two_digits(
        x,
    )[i] != 124 by {
        if i == 0 {
            assert(two_digits(x)[0] == (48 + x / 10) as u8);
        } else {
            assert(two_digits(x)[1] == (48 + x % 10) as u8);
        }
    };
}

proof fn lemma_four_digits_clean(x: int)
    requires
        0 <= x <= 9999,
    ensures
        clean_text(four_digits(x)),
{
    assert(0 <= x / 1000 <= 9);
    assert forall|i: int| 0 <= i < four_digits(x).len() implies four_digits(x)[i] != 10
        && four_digits(x)[i] != 124 by {
        if i == 0 {
            assert(four_digits(x)[0] == (48 + x / 1000) as u8);
        } else if i == 1 {
            assert(four_digits(x)[1] == (48 + (x / 100) % 10) as u8);
        } else if i == 2 {
            assert(four_digits(x)[2] == (48 + (x / 10) % 10) as u8);
        } else {
            assert(four_digits(x)[3] == (48 + x % 10) as u8);
        }
    };
}

proof fn lemma_clean_concat(a: Seq<u8>, b: Seq<u8>)
    requires
        clean_text(a),
        clean_text(b),
    ensures
        clean_text(a + b),
{
    assert forall|i: int| 0 <= i < (a + b).len() implies (a + b)[i] != 10 && (a + b)[i] != 124 by {
        if i < a.len() {
            assert((a + b)[i] == a[i]);
        } else {
            assert((a + b)[i] == b[i - a.len()]);
        }
    };
}

/// A rendered timestamp holds no line feed and no separator bar.
pub proof fn lemma_timestamp_text_clean(p: TimeParts)
    requires
        p.year <= 9999,
        p.month <= 99,
        p.day <= 99,
        p.hour <= 99,
        p.minute <= 99,
        p.second <= 99,
    ensures
        clean_text(timestamp_text(p)),
{
    lemma_four_digits_clean(p.year as int);
    lemma_two_digits_clean(p.month as int);
    lemma_two_digits_clean(p.day as int);
    lemma_two_digits_clean(p.hour as int);
    lemma_two_digits_clean(p.minute as int);
    lemma_two_digits_clean(p.second as int);
    assert(clean_text(seq![45u8])) by {
        assert(seq![45u8][0] == 45u8);
    };
    assert(clean_text(seq![32u8])) by {
        assert(seq![32u8][0] == 32u8);
    };
    assert(clean_text(seq![58u8])) by {
        assert(seq![58u8][0] == 58u8);
    };
    lemma_clean_concat(four_digits(p.year as int), seq![45u8]);
    lemma_clean_concat(four_digits(p.year as int) + seq![45u8], two_digits(p.month as int));
    lemma_clean_concat(
        four_digits(p.year as int) + seq![45u8] + two_digits(p.month as int),
        seq![45u8],
    );
    lemma_clean_concat(
        four_digits(p.year as int) + seq![45u8] + two_digits(p.month as int) + seq![45u8],
        two_digits(p.day as int),
    );
    lemma_clean_concat(
        four_digits(p.year as int) + seq![45u8] + two_digits(p.month as int) + seq![45u8]
            + two_digits(p.day as int),
        seq![32u8],
    );
    lemma_clean_concat(
        four_digits(p.year as int) + seq![45u8] + two_digits(p.month as int) + seq![45u8]
            + two_digits(p.day as int) + seq![32u8],
        two_digits(p.hour as int),
    );
    lemma_clean_concat(
        four_digits(p.year as int) + seq![45u8] + two_digits(p.month as int) + seq![45u8]
            + two_digits(p.day as int) + seq![32u8] + two_digits(p.hour as int),
        seq![58u8],
    );
    lemma_clean_concat(
        four_digits(p.year as int) + seq![45u8] + two_digits(p.month as int) + seq![45u8]
            + two_digits(p.day as int) + seq![32u8] + two_digits(p.hour as int) + seq![58u8],
        two_digits(p.minute as int),
    );
    lemma_clean_concat(
        four_digits(p.year as int) + seq![45u8] + two_digits(p.month as int) + seq![45u8]
            + two_digits(p.day as int) + seq![32u8] + two_digits(p.hour as int) + seq![58u8]
            + two_digits(p.minute as int),
        seq![58u8],
    );
    lemma_clean_concat(
        four_digits(p.year as int) + seq![45u8] + two_digits(p.month as int) + seq![45u8]
            + two_digits(p.day as int) + seq![32u8] + two_digits(p.hour as int) + seq![58u8]
            + two_digits(p.minute as int) + seq![58u8],
        two_digits(p.second as int),
    );
}

/// Pushes two zero-padded digits of `x`.
fn push_two_digits(v: &mut Vec<u8>, x: u64)
    requires
        x <= 99,
    ensures
        final(v)@ == old(v)@ + two_digits(x as int),
{
    v.push(48 + (x / 10) as u8);
    v.push(48 + (x % 10) as u8);
    assert(final(v)@ =~= old(v)@ + two_digits(x as int));
}

/// Renders a timestamp in the fixed `YYYY-MM-DD HH:MM:SS` form.  The
/// four-digit year field bounds the renderable years.
pub fn render_timestamp(p: &TimeParts) -> (r: Vec<u8>)
    requires
        p.year <= 9999,
        p.month <= 99,
        p.day <= 99,
        p.hour <= 99,
        p.minute <= 99,
        p.second <= 99,
    ensures
        r@ == timestamp_text(*p),
        clean_text(r@),
{
    let mut r: Vec<u8> = Vec::new();
    r.push(48 + (p.year / 1000) as u8);
    r.push(48 + ((p.year / 100) % 10) as u8);
    r.push(48 + ((p.year / 10) % 10) as u8);
    r.push(48 + (p.year % 10) as u8);
    assert(r@ =~= four_digits(p.year as int));
    r.push(45);
    push_two_digits(&mut r, p.month);
    r.push(45);
    push_two_digits(&mut r, p.day);
    r.push(32);
    push_two_digits(&mut r, p.hour);
    r.push(58);
    push_two_digits(&mut r, p.minute);
    r.push(58);
    push_two_digits(&mut r, p.second);
    assert(r@ =~= timestamp_text(*p));
    proof {
        lemma_timestamp_text_clean(*p);
    }
    r
}

/// Field-by-field ordering of two rendered timestamps, most significant
/// field first; with zero-padded rendering this is the order in which the
/// stamps display.
pub open spec fn parts_le(a: TimeParts, b: TimeParts) -> bool {
    if a.year != b.year {
        a.year < b.year
    } else if a.month != b.month {
        a.month < b.month
    } else if a.day != b.day {
        a.day < b.day
    } else if a.hour != b.hour {
        a.hour < b.hour
    } else if a.minute != b.minute {
        a.minute < b.minute
    } else {
        a.second <= b.second
    }
}

/// Displayed timestamps keep the clock's order: an earlier reading never
/// renders above a later one, so ledger lines appear in append order.
pub proof fn lemma_timestamp_monotonic(t1: u64, t2: u64)
    requires
        t1 <= t2,
    ensures
        parts_le(parts_of(t1), parts_of(t2)),
{
    let x1 = t1 as int;
    let x2 = t2 as int;
    let d1 = x1 / 86400;
    let d2 = x2 / 86400;
    vstd::arithmetic::div_mod::lemma_div_is_ordered(x1, x2, 86400);
    vstd::arithmetic::div_mod::lemma_div_pos_is_pos(x1, 86400);
    vstd::arithmetic::div_mod::lemma_div_is_ordered(d1, d2, 365);
    vstd::arithmetic::div_mod::lemma_div_pos_is_pos(d1, 365);
    vstd::arithmetic::div_mod::lemma_div_is_ordered(x1, u64::MAX as int, 86400);
    vstd::arithmetic::div_mod::lemma_div_is_ordered(x2, u64::MAX as int, 86400);
    vstd::arithmetic::div_mod::lemma_div_nonincreasing(d1, 365);
    vstd::arithmetic::div_mod::lemma_div_nonincreasing(d2, 365);
    let q1 = d1 / 365;
    let q2 = d2 / 365;
    let p1 = parts_of(t1);
    let p2 = parts_of(t2);
    assert(p1.year == 1970 + q1 && p2.year == 1970 + q2);
    if q1 < q2 {
        assert(p1.year < p2.year);
    } else {
        assert(q1 == q2);
        vstd::arithmetic::div_mod::lemma_fundamental_div_mod(d1, 365);
        vstd::arithmetic::div_mod::lemma_fundamental_div_mod(d2, 365);
        vstd::arithmetic::div_mod::lemma_mod_pos_bound(d1, 365);
        vstd::arithmetic::div_mod::lemma_mod_pos_bound(d2, 365);
        let rem1 = d1 % 365;
        let rem2 = d2 % 365;
        assert(rem1 <= rem2);
        vstd::arithmetic::div_mod::lemma_div_is_ordered(rem1, rem2, 30);
        vstd::arithmetic::div_mod::lemma_div_pos_is_pos(rem1, 30);
        let mi1 = if rem1 / 30 > 11 { 11int } else { rem1 / 30 };
        let mi2 = if rem2 / 30 > 11 { 11int } else { rem2 / 30 };
        assert(mi1 <= mi2);
        assert(p1.month == mi1 + 1 && p2.month == mi2 + 1);
        assert(30 * mi1 <= rem1) by {
            assert(30 * (rem1 / 30) <= rem1) by (nonlinear_arith)
                requires rem1 >= 0;
        };
        assert(30 * mi2 <= rem2) by {
            assert(30 * (rem2 / 30) <= rem2) by (nonlinear_arith)
                requires rem2 >= 0;
        };
        if mi1 < mi2 {
            assert(p1.year == p2.year);
            assert(p1.month < p2.month);
        } else {
            assert(mi1 == mi2);
            let day1 = rem1 - 30 * mi1 + 1;
            let day2 = rem2 - 30 * mi2 + 1;
            assert(p1.day == day1 && p2.day == day2);
            if day1 < day2 {
                assert(p1.month == p2.month);
            } else {
                assert(rem1 == rem2);
                assert(d1 == d2);
                vstd::arithmetic::div_mod::lemma_fundamental_div_mod(x1, 86400);
                vstd::arithmetic::div_mod::lemma_fundamental_div_mod(x2, 86400);
                vstd::arithmetic::div_mod::lemma_mod_pos_bound(x1, 86400);
                vstd::arithmetic::div_mod::lemma_mod_pos_bound(x2, 86400);
                let r1 = x1 % 86400;
                let r2 = x2 % 86400;
                assert(r1 <= r2);
                assert(86400 == 3600 * 24);
                vstd::arithmetic::div_mod::lemma_breakdown(x1, 3600, 24);
                vstd::arithmetic::div_mod::lemma_breakdown(x2, 3600, 24);
                let h1 = (x1 / 3600) % 24;
                let h2 = (x2 / 3600) % 24;
                vstd::arithmetic::div_mod::lemma_mod_pos_bound(x1, 3600);
                vstd::arithmetic::div_mod::lemma_mod_pos_bound(x2, 3600);
                vstd::arithmetic::div_mod::lemma_mod_pos_bound(x1 / 3600, 24);
                vstd::arithmetic::div_mod::lemma_mod_pos_bound(x2 / 3600, 24);
                assert(r1 == 3600 * h1 + x1 % 3600);
                assert(r2 == 3600 * h2 + x2 % 3600);
                vstd::arithmetic::div_mod::lemma_fundamental_div_mod_converse_div(
                    r1,
                    3600,
                    h1,
                    x1 % 3600,
                );
                vstd::arithmetic::div_mod::lemma_fundamental_div_mod_converse_div(
                    r2,
                    3600,
                    h2,
                    x2 % 3600,
                );
                vstd::arithmetic::div_mod::lemma_div_is_ordered(r1, r2, 3600);
                assert(h1 <= h2);
                assert(p1.hour == h1 && p2.hour == h2);
                if h1 < h2 {
                    assert(p1.day == p2.day);
                } else {
                    let u1 = x1 % 3600;
                    let u2 = x2 % 3600;
                    assert(u1 <= u2);
                    assert(3600 == 60 * 60);
                    vstd::arithmetic::div_mod::lemma_breakdown(x1, 60, 60);
                    vstd::arithmetic::div_mod::lemma_breakdown(x2, 60, 60);
                    let m1 = (x1 / 60) % 60;
                    let m2 = (x2 / 60) % 60;
                    vstd::arithmetic::div_mod::lemma_mod_pos_bound(x1, 60);
                    vstd::arithmetic::div_mod::lemma_mod_pos_bound(x2, 60);
                    vstd::arithmetic::div_mod::lemma_mod_pos_bound(x1 / 60, 60);
                    vstd::arithmetic::div_mod::lemma_mod_pos_bound(x2 / 60, 60);
                    assert(u1 == 60 * m1 + x1 % 60);
                    assert(u2 == 60 * m2 + x2 % 60);
                    vstd::arithmetic::div_mod::lemma_fundamental_div_mod_converse_div(
                        u1,
                        60,
                        m1,
                        x1 % 60,
                    );
                    vstd::arithmetic::div_mod::lemma_fundamental_div_mod_converse_div(
                        u2,
                        60,
                        m2,
                        x2 % 60,
                    );
                    vstd::arithmetic::div_mod::lemma_div_is_ordered(u1, u2, 60);
                    assert(m1 <= m2);
                    assert(p1.minute == m1 && p2.minute == m2);
                    if m1 < m2 {
                        assert(p1.hour == p2.hour);
                    } else {
                        assert(x1 % 60 <= x2 % 60);
                        assert(p1.second <= p2.second);
                    }
                }
            }
        }
    }
}

/// `a` sorts strictly before `b` in byte order: they agree on a prefix
/// and then `a` carries the smaller byte.
pub open spec fn lex_lt(a: Seq<u8>, b: Seq<u8>) -> bool {
    exists|i: int|
        0 <= i < a.len() && i < b.len() && a.subrange(0, i) == b.subrange(0, i) && a[i] < b[i]
}

/// `a` sorts at or before `b` in byte order (for equal-length texts, the
/// order in which a ledger viewer would sort them).
pub open spec fn lex_le(a: Seq<u8>, b: Seq<u8>) -> bool {
    a == b || lex_lt(a, b)
}

proof fn lemma_lex_prepend(a: Seq<u8>, b: Seq<u8>, x: Seq<u8>, y: Seq<u8>)
    requires
        a.len() == b.len(),
        lex_lt(a, b),
    ensures
        lex_lt(a + x, b + y),
{
    let i = choose|i: int|
        0 <= i < a.len() && i < b.len() && a.subrange(0, i) == b.subrange(0, i) && a[i] < b[i];
    assert forall|k: int| 0 <= k < i implies (a + x)[k] == (b + y)[k] by {
        assert((a + x)[k] == a[k]);
        assert((b + y)[k] == b[k]);
        assert(a.subrange(0, i)[k] == b.subrange(0, i)[k]);
    };
    assert((a + x).subrange(0, i) =~= (b + y).subrange(0, i));
    assert((a + x)[i] == a[i] && (b + y)[i] == b[i]);
}

proof fn lemma_lex_extend(a: Seq<u8>, x: Seq<u8>, y: Seq<u8>)
    requires
        lex_lt(x, y),
    ensures
        lex_lt(a + x, a + y),
{
    let j = choose|j: int|
        0 <= j < x.len() && j < y.len() && x.subrange(0, j) == y.subrange(0, j) && x[j] < y[j];
    let i = a.len() + j;
    assert forall|k: int| 0 <= k < i implies (a + x)[k] == (a + y)[k] by {
        if k < a.len() {
            assert((a + x)[k] == a[k]);
            assert((a + y)[k] == a[k]);
        } else {
            assert((a + x)[k] == x[k - a.len()]);
            assert((a + y)[k] == y[k - a.len()]);
            assert(x.subrange(0, j)[k - a.len()] == y.subrange(0, j)[k - a.len()]);
        }
    };
    assert((a + x).subrange(0, i) =~= (a + y).subrange(0, i));
    assert((a + x)[i] == x[j] && (a + y)[i] == y[j]);
}

proof fn lemma_two_digits_lt(x1: int, x2: int)
    requires
        0 <= x1 < x2 <= 99,
    ensures
        lex_lt(two_digits(x1), two_digits(x2)),
{
    vstd::arithmetic::div_mod::lemma_div_is_ordered(x1, x2, 10);
    vstd::arithmetic::div_mod::lemma_fundamental_div_mod(x1, 10);
    vstd::arithmetic::div_mod::lemma_fundamental_div_mod(x2, 10);
    let a = two_digits(x1);
    let b = two_digits(x2);
    if x1 / 10 < x2 / 10 {
        assert(a.subrange(0, 0) =~= b.subrange(0, 0));
        assert(a[0] < b[0]);
    } else {
        assert(x1 % 10 < x2 % 10);
        assert(a.subrange(0, 1) =~= b.subrange(0, 1));
        assert(a[1] < b[1]);
    }
}

proof fn lemma_four_digits_lt(x1: int, x2: int)
    requires
        0 <= x1 < x2 <= 9999,
    ensures
        lex_lt(four_digits(x1), four_digits(x2)),
{
    vstd::arithmetic::div_mod::lemma_div_is_ordered(x1, x2, 1000);
    vstd::arithmetic::div_mod::lemma_div_is_ordered(x1, x2, 100);
    vstd::arithmetic::div_mod::lemma_div_is_ordered(x1, x2, 10);
    vstd::arithmetic::div_mod::lemma_fundamental_div_mod(x1, 1000);
    vstd::arithmetic::div_mod::lemma_fundamental_div_mod(x2, 1000);
    vstd::arithmetic::div_mod::lemma_fundamental_div_mod(x1, 10);
    vstd::arithmetic::div_mod::lemma_fundamental_div_mod(x2, 10);
    assert(x1 / 100 == 10 * (x1 / 1000) + (x1 / 100) % 10) by {
        vstd::arithmetic::div_mod::lemma_breakdown(x1, 100, 10);
        vstd::arithmetic::div_mod::lemma_div_denominator(x1, 100, 10);
    };
    assert(x2 / 100 == 10 * (x2 / 1000) + (x2 / 100) % 10) by {
        vstd::arithmetic::div_mod::lemma_breakdown(x2, 100, 10);
        vstd::arithmetic::div_mod::lemma_div_denominator(x2, 100, 10);
    };
    assert(x1 / 10 == 10 * (x1 / 100) + (x1 / 10) % 10) by {
        vstd::arithmetic::div_mod::lemma_breakdown(x1, 10, 10);
        vstd::arithmetic::div_mod::lemma_div_denominator(x1, 10, 10);
    };
    assert(x2 / 10 == 10 * (x2 / 100) + (x2 / 10) % 10) by {
        vstd::arithmetic::div_mod::lemma_breakdown(x2, 10, 10);
        vstd::arithmetic::div_mod::lemma_div_denominator(x2, 10, 10);
    };
    let a = four_digits(x1);
    let b = four_digits(x2);
    if x1 / 1000 < x2 / 1000 {
        assert(a.subrange(0, 0) =~= b.subrange(0, 0));
        assert(a[0] < b[0]);
    } else if (x1 / 100) % 10 < (x2 / 100) % 10 {
        assert(a.subrange(0, 1) =~= b.subrange(0, 1));
        assert(a[1] < b[1]);
    } else if (x1 / 10) % 10 < (x2 / 10) % 10 {
        assert(a.subrange(0, 2) =~= b.subrange(0, 2));
        assert(a[2] < b[2]);
    } else {
        assert(x1 % 10 < x2 % 10);
        assert(a.subrange(0, 3) =~= b.subrange(0, 3));
        assert(a[3] < b[3]);
    }
}

/// The guarantee at the byte level: of two readings, the earlier one never
/// renders as the lexicographically later stamp, as long as the later
/// reading still fits the four-digit year.  Ledger lines therefore display
/// in append order.
#[verifier::rlimit(100)]
pub proof fn lemma_rendered_monotonic(t1: u64, t2: u64)
    requires
        t1 <= t2,
        parts_of(t2).year <= 9999,
    ensures
        lex_le(timestamp_text(parts_of(t1)), timestamp_text(parts_of(t2))),
{
    lemma_timestamp_monotonic(t1, t2);
    let p1 = parts_of(t1);
    let p2 = parts_of(t2);
    let dash = seq![45u8];
    let blank = seq![32u8];
    let colon = seq![58u8];
    let y1 = four_digits(p1.year as int);
    let y2 = four_digits(p2.year as int);
    let mo1 = two_digits(p1.month as int);
    let mo2 = two_digits(p2.month as int);
    let d1 = two_digits(p1.day as int);
    let d2 = two_digits(p2.day as int);
    let h1 = two_digits(p1.hour as int);
    let h2 = two_digits(p2.hour as int);
    let mi1 = two_digits(p1.minute as int);
    let mi2 = two_digits(p2.minute as int);
    let s1 = two_digits(p1.second as int);
    let s2 = two_digits(p2.second as int);
    let tail1 = dash + (mo1 + (dash + (d1 + (blank + (h1 + (colon + (mi1 + (colon + s1))))))));
    let tail2 = dash + (mo2 + (dash + (d2 + (blank + (h2 + (colon + (mi2 + (colon + s2))))))));
    assert(timestamp_text(p1) =~= y1 + tail1);
    assert(timestamp_text(p2) =~= y2 + tail2);
    if p1.year != p2.year {
        lemma_four_digits_lt(p1.year as int, p2.year as int);
        lemma_lex_prepend(y1, y2, tail1, tail2);
    } else if p1.month != p2.month {
        lemma_two_digits_lt(p1.month as int, p2.month as int);
        let rest1 = dash + (d1 + (blank + (h1 + (colon + (mi1 + (colon + s1))))));
        let rest2 = dash + (d2 + (blank + (h2 + (colon + (mi2 + (colon + s2))))));
        lemma_lex_prepend(mo1, mo2, rest1, rest2);
        lemma_lex_extend(dash, mo1 + rest1, mo2 + rest2);
        lemma_lex_extend(y1, dash + (mo1 + rest1), dash + (mo2 + rest2));
        assert(y1 + tail1 == y1 + (dash + (mo1 + rest1)));
        assert(y2 + tail2 == y1 + (dash + (mo2 + rest2)));
    } else if p1.day != p2.day {
        lemma_two_digits_lt(p1.day as int, p2.day as int);
        let rest1 = blank + (h1 + (colon + (mi1 + (colon + s1))));
        let rest2 = blank + (h2 + (colon + (mi2 + (colon + s2))));
        lemma_lex_prepend(d1, d2, rest1, rest2);
        lemma_lex_extend(y1 + (dash + (mo1 + dash)), d1 + rest1, d2 + rest2);
        assert(y1 + tail1 =~= y1 + (dash + (mo1 + dash)) + (d1 + rest1));
        assert(y2 + tail2 =~= y1 + (dash + (mo1 + dash)) + (d2 + rest2));
    } else if p1.hour != p2.hour {
        lemma_two_digits_lt(p1.hour as int, p2.hour as int);
        let rest1 = colon + (mi1 + (colon + s1));
        let rest2 = colon + (mi2 + (colon + s2));
        lemma_lex_prepend(h1, h2, rest1, rest2);
        lemma_lex_extend(y1 + (dash + (mo1 + (dash + (d1 + blank)))), h1 + rest1, h2 + rest2);
        assert(y1 + tail1 =~= y1 + (dash + (mo1 + (dash + (d1 + blank)))) + (h1 + rest1));
        assert(y2 + tail2 =~= y1 + (dash + (mo1 + (dash + (d1 + blank)))) + (h2 + rest2));
    } else if p1.minute != p2.minute {
        lemma_two_digits_lt(p1.minute as int, p2.minute as int);
        let rest1 = colon + s1;
        let rest2 = colon + s2;
        lemma_lex_prepend(mi1, mi2, rest1, rest2);
        lemma_lex_extend(
            y1 + (dash + (mo1 + (dash + (d1 + (blank + (h1 + colon)))))),
            mi1 + rest1,
            mi2 + rest2,
        );
        assert(y1 + tail1 =~= y1 + (dash + (mo1 + (dash + (d1 + (blank + (h1 + colon)))))) + (mi1
            + rest1));
        assert(y2 + tail2 =~= y1 + (dash + (mo1 + (dash + (d1 + (blank + (h1 + colon)))))) + (mi2
            + rest2));
    } else if p1.second != p2.second {
        lemma_two_digits_lt(p1.second as int, p2.second as int);
        lemma_lex_extend(
            y1 + (dash + (mo1 + (dash + (d1 + (blank + (h1 + (colon + (mi1 + colon)))))))),
            s1,
            s2,
        );
        assert(y1 + tail1 =~= y1 + (dash + (mo1 + (dash + (d1 + (blank + (h1 + (colon + (mi1
            + colon)))))))) + s1);
        assert(y2 + tail2 =~= y1 + (dash + (mo1 + (dash + (d1 + (blank + (h1 + (colon + (mi1
            + colon)))))))) + s2);
    } else {
        assert(p1 == p2);
    }
}

} // verus!
