//! Interpretation of the external timer's three text answers: the
//! liveness marker, the quoted task name, and the clock-in time as a
//! possibly fractional seconds-since-epoch number.  The queries themselves
//! are plain process I/O and happen outside the library; everything here
//! is a pure function of the answer text.

use vstd::prelude::*;

use crate::error::TimestampConversionError;

verus! {

/// The sentinel answer of the liveness query meaning "no task is being
/// clocked"; any other answer means a task is active.
pub open spec fn spec_no_task_marker() -> Seq<char> {
    "#<marker in no buffer>"@
}

/// Whether the liveness answer reports an active task.
pub fn clock_running(marker_output: &str) -> (running: bool)
    ensures
        running == (marker_output@ != spec_no_task_marker()),
{
    !crate::text::str_eq(marker_output, "#<marker in no buffer>")
}

/// `s` with all leading double quotes removed.
pub open spec fn trim_leading_quotes(s: Seq<char>) -> Seq<char>
    decreases s.len(),
{
    if s.len() > 0 && s[0] == '"' {
        trim_leading_quotes(s.drop_first())
    } else {
        s
    }
}

/// `s` with all trailing double quotes removed.
pub open spec fn trim_trailing_quotes(s: Seq<char>) -> Seq<char>
    decreases s.len(),
{
    if s.len() > 0 && s.last() == '"' {
        trim_trailing_quotes(s.drop_last())
    } else {
        s
    }
}

/// `s` with all surrounding double quotes removed; quotes in the middle
/// stay.
pub open spec fn spec_trim_quotes(s: Seq<char>) -> Seq<char> {
    trim_trailing_quotes(trim_leading_quotes(s))
}

proof fn lemma_trim_leading_range(s: Seq<char>, lo: int)
    requires
        0 <= lo <= s.len(),
        forall|j: int| 0 <= j < lo ==> s[j] == '"',
        lo == s.len() || s[lo] != '"',
    ensures
        trim_leading_quotes(s) == s.subrange(lo, s.len() as int),
    decreases lo,
{
    if lo == 0 {
        assert(trim_leading_quotes(s) =~= s.subrange(0, s.len() as int));
    } else {
        let t = s.drop_first();
        assert(forall|j: int| 0 <= j < lo - 1 ==> t[j] == '"');
        lemma_trim_leading_range(t, lo - 1);
        assert(t.subrange(lo - 1, t.len() as int) =~= s.subrange(lo, s.len() as int));
    }
}

proof fn lemma_trim_trailing_range(s: Seq<char>, hi: int)
    requires
        0 <= hi <= s.len(),
        forall|j: int| hi <= j < s.len() ==> s[j] == '"',
        hi == 0 || s[hi - 1] != '"',
    ensures
        trim_trailing_quotes(s) == s.subrange(0, hi),
    decreases s.len(),
{
    if hi == s.len() {
        if s.len() > 0 {
            assert(s.last() != '"');
        }
        assert(trim_trailing_quotes(s) =~= s.subrange(0, hi));
    } else {
        let t = s.drop_last();
        assert(s.last() == '"');
        lemma_trim_trailing_range(t, hi);
        assert(t.subrange(0, hi) =~= s.subrange(0, hi));
    }
}

/// The task name as the timer delivers it, stripped of the surrounding
/// double quotes.
pub fn get_task(raw: &str) -> (name: String)
    ensures
        name@ == spec_trim_quotes(raw@),
{
    let n = raw.unicode_len();
    let mut lo: usize = 0;
    while lo < n && raw.get_char(lo) == '"'
        invariant
            lo <= n,
            n == raw@.len(),
            forall|j: int| 0 <= j < lo ==> raw@[j] == '"',
        decreases n - lo,
    {
        lo = lo + 1;
    }
    let mut hi: usize = n;
    while hi > lo && raw.get_char(hi - 1) == '"'
        invariant
            lo <= hi <= n,
            n == raw@.len(),
            forall|j: int| hi <= j < n ==> raw@[j] == '"',
        decreases hi,
    {
        hi = hi - 1;
    }
    let sub = raw.substring_char(lo, hi);
    proof {
        lemma_trim_leading_range(raw@, lo as int);
        let t = raw@.subrange(lo as int, n as int);
        assert(forall|j: int| hi - lo <= j < t.len() ==> t[j] == '"');
        lemma_trim_trailing_range(t, hi - lo);
        assert(t.subrange(0, hi - lo) =~= raw@.subrange(lo as int, hi as int));
    }
    sub.to_owned()
}

/// Whether `c` is a decimal digit.
pub open spec fn is_digit(c: char) -> bool {
    c == '0' || c == '1' || c == '2' || c == '3' || c == '4' || c == '5' || c == '6' || c == '7'
        || c == '8' || c == '9'
}

/// The value of the digit `c`; only meaningful when `is_digit(c)`.
pub open spec fn digit_val(c: char) -> int {
    if c == '0' {
        0
    } else if c == '1' {
        1
    } else if c == '2' {
        2
    } else if c == '3' {
        3
    } else if c == '4' {
        4
    } else if c == '5' {
        5
    } else if c == '6' {
        6
    } else if c == '7' {
        7
    } else if c == '8' {
        8
    } else {
        9
    }
}

/// Whether every character of `s` is a decimal digit.
pub open spec fn all_digits(s: Seq<char>) -> bool {
    forall|j: int| 0 <= j < s.len() ==> is_digit(s[j])
}

/// The value of a digit string read in base ten; the empty string reads
/// as zero.
pub open spec fn digits_val(s: Seq<char>) -> int
    decreases s.len(),
{
    if s.len() == 0 {
        0
    } else {
        digits_val(s.drop_last()) * 10 + digit_val(s.last())
    }
}

/// The position of the first '.' in `s`, or `s.len()` if there is none.
pub open spec fn dot_index(s: Seq<char>) -> int
    decreases s.len(),
{
    if s.len() == 0 {
        0
    } else if s[0] == '.' {
        0
    } else {
        1 + dot_index(s.drop_first())
    }
}

proof fn lemma_dot_index_at(s: Seq<char>, k: int)
    requires
        0 <= k <= s.len(),
        forall|j: int| 0 <= j < k ==> s[j] != '.',
        k == s.len() || s[k] == '.',
    ensures
        dot_index(s) == k,
    decreases s.len(),
{
    if k == 0 {
        if s.len() > 0 {
            assert(s[0] == '.');
        }
    } else {
        let t = s.drop_first();
        assert(forall|j: int| 0 <= j < k - 1 ==> t[j] != '.');
        assert(k - 1 == t.len() || t[k - 1] == '.');
        lemma_dot_index_at(t, k - 1);
    }
}

proof fn lemma_dot_index_props(s: Seq<char>)
    ensures
        0 <= dot_index(s) <= s.len(),
        dot_index(s) < s.len() ==> s[dot_index(s)] == '.',
        forall|j: int| 0 <= j < dot_index(s) ==> s[j] != '.',
    decreases s.len(),
{
    if s.len() == 0 {
    } else if s[0] == '.' {
    } else {
        let t = s.drop_first();
        lemma_dot_index_props(t);
        assert forall|j: int| 0 <= j < dot_index(s) implies s[j] != '.' by {
            if j >= 1 {
                assert(t[j - 1] != '.');
            }
        };
    }
}

proof fn lemma_digits_val_nonneg(s: Seq<char>)
    ensures
        digits_val(s) >= 0,
    decreases s.len(),
{
    if s.len() > 0 {
        lemma_digits_val_nonneg(s.drop_last());
    }
}

/// A decimal numeral, unsigned: digits with at most one dot between them,
/// and at least one digit somewhere.
pub open spec fn is_decimal_body(s: Seq<char>) -> bool {
    let k = dot_index(s);
    &&& all_digits(s.subrange(0, k))
    &&& (k < s.len() ==> all_digits(s.subrange(k + 1, s.len() as int)))
    &&& s.len() > 0
    &&& (k < s.len() ==> s.len() > 1)
}

/// Whether `s` reads as a decimal number: an optional sign, then a
/// decimal numeral that may carry a fractional part.
pub open spec fn spec_is_number(s: Seq<char>) -> bool {
    if s.len() > 0 && (s[0] == '-' || s[0] == '+') {
        is_decimal_body(s.drop_first())
    } else {
        is_decimal_body(s)
    }
}

/// The whole seconds a number text stands for: its value truncated toward
/// zero, so the fractional digits never enter into it.
pub open spec fn spec_whole_seconds(s: Seq<char>) -> int
    recommends
        spec_is_number(s),
{
    let body = if s.len() > 0 && (s[0] == '-' || s[0] == '+') {
        s.drop_first()
    } else {
        s
    };
    let mag = digits_val(body.subrange(0, dot_index(body)));
    if s.len() > 0 && s[0] == '-' {
        -mag
    } else {
        mag
    }
}

/// The digit value of `c`, or `None` if `c` is no digit.
fn digit_of(c: char) -> (d: Option<u64>)
    ensures
        match d {
            Some(v) => is_digit(c) && v == digit_val(c),
            None => !is_digit(c),
        },
{
    if c == '0' {
        Some(0)
    } else if c == '1' {
        Some(1)
    } else if c == '2' {
        Some(2)
    } else if c == '3' {
        Some(3)
    } else if c == '4' {
        Some(4)
    } else if c == '5' {
        Some(5)
    } else if c == '6' {
        Some(6)
    } else if c == '7' {
        Some(7)
    } else if c == '8' {
        Some(8)
    } else if c == '9' {
        Some(9)
    } else {
        None
    }
}

/// Read the clock-in answer as whole seconds since the epoch, truncating
/// any fractional part toward zero.
///
/// Exactly the number texts of [`spec_is_number`] are accepted; a value
/// whose whole seconds do not fit a 64-bit signed timestamp is rejected
/// as out of range.
pub fn get_start_time(raw: &str) -> (r: Result<i64, TimestampConversionError>)
    ensures
        match r {
            Ok(t) => spec_is_number(raw@) && i64::MIN <= spec_whole_seconds(raw@) <= i64::MAX && t
                == spec_whole_seconds(raw@),
            Err(TimestampConversionError::NotANumber) => !spec_is_number(raw@),
            Err(TimestampConversionError::OutOfRange) => spec_is_number(raw@) && !(i64::MIN
                <= spec_whole_seconds(raw@) <= i64::MAX),
        },
{
    let n = raw.unicode_len();
    let mut start: usize = 0;
    let mut neg = false;
    if n > 0 {
        let c0 = raw.get_char(0);
        if c0 == '-' {
            neg = true;
            start = 1;
        } else if c0 == '+' {
            start = 1;
        }
    }
    let body = raw.substring_char(start, n);
    proof {
        if start == 1 {
            assert(body@ =~= raw@.drop_first());
        } else {
            assert(body@ =~= raw@);
        }
    }
    let bn = body.unicode_len();

    // Integer part: consume digits, tracking the magnitude read so far
    // and whether it has already outgrown the timestamp range.
    let mut i: usize = 0;
    let mut acc: u64 = 0;
    let mut too_big = false;
    let mut stopped = false;
    while !stopped && i < bn
        invariant
            i <= bn,
            bn == body@.len(),
            forall|j: int| 0 <= j < i ==> is_digit(body@[j]),
            stopped ==> i < bn && !is_digit(body@[i as int]),
            !too_big ==> acc == digits_val(body@.subrange(0, i as int)) && acc
                <= 0x8000_0000_0000_0000u64,
            too_big ==> digits_val(body@.subrange(0, i as int)) > 0x8000_0000_0000_0000,
        decreases bn - i + (if stopped { 0int } else { 1int }),
    {
        let c = body.get_char(i);
        match digit_of(c) {
            Some(d) => {
                proof {
                    assert(body@.subrange(0, i + 1).drop_last() =~= body@.subrange(0, i as int));
                    assert(body@.subrange(0, i + 1).last() == body@[i as int]);
                }
                if !too_big {
                    let wide: u128 = acc as u128 * 10 + d as u128;
                    if wide > 0x8000_0000_0000_0000u128 {
                        too_big = true;
                    } else {
                        acc = wide as u64;
                    }
                }
                i = i + 1;
            },
            None => {
                stopped = true;
            },
        }
    }

    // After the integer part: the rest must be a dot followed by digits,
    // or nothing.
    let is_num: bool;
    if i == bn {
        proof {
            assert(forall|j: int| 0 <= j < bn ==> body@[j] != '.') by {
                assert(forall|j: int| 0 <= j < bn ==> is_digit(body@[j]));
            }
            lemma_dot_index_at(body@, bn as int);
            assert(body@.subrange(0, bn as int) =~= body@);
        }
        is_num = bn > 0;
    } else {
        let ci = body.get_char(i);
        if ci == '.' {
            proof {
                lemma_dot_index_at(body@, i as int);
            }
            let mut k: usize = i + 1;
            let mut frac_bad = false;
            while !frac_bad && k < bn
                invariant
                    i + 1 <= k <= bn,
                    bn == body@.len(),
                    forall|j: int| i + 1 <= j < k ==> is_digit(body@[j]),
                    frac_bad ==> k < bn && !is_digit(body@[k as int]),
                decreases bn - k + (if frac_bad { 0int } else { 1int }),
            {
                let c = body.get_char(k);
                match digit_of(c) {
                    Some(_) => {
                        k = k + 1;
                    },
                    None => {
                        frac_bad = true;
                    },
                }
            }
            if frac_bad {
                proof {
                    let frac = body@.subrange(i + 1, bn as int);
                    assert(!is_digit(frac[k - i - 1]));
                }
                is_num = false;
            } else {
                proof {
                    let frac = body@.subrange(i + 1, bn as int);
                    assert(forall|j: int| 0 <= j < frac.len() ==> is_digit(frac[j])) by {
                        assert(forall|j: int| i + 1 <= j < bn ==> is_digit(body@[j]));
                    }
                }
                is_num = bn > 1;
            }
        } else {
            // A character that is neither digit nor dot: the first dot,
            // if any, lies beyond it, so the integer part is no numeral.
            proof {
                lemma_dot_index_props(body@);
                let kd = dot_index(body@);
                assert(kd > i) by {
                    if kd <= i {
                        assert(body@[kd] == '.');
                        if kd < i {
                            assert(is_digit(body@[kd]));
                        }
                    }
                };
                assert(!is_digit(body@.subrange(0, kd)[i as int]));
                assert(!is_decimal_body(body@));
            }
            is_num = false;
        }
    }

    if !is_num {
        return Err(TimestampConversionError::NotANumber);
    }
    proof {
        lemma_digits_val_nonneg(body@.subrange(0, i as int));
    }
    if too_big {
        return Err(TimestampConversionError::OutOfRange);
    }
    if neg {
        if acc == 0x8000_0000_0000_0000u64 {
            Ok(i64::MIN)
        } else {
            Ok(-(acc as i64))
        }
    } else {
        if acc > 0x7fff_ffff_ffff_ffffu64 {
            Err(TimestampConversionError::OutOfRange)
        } else {
            Ok(acc as i64)
        }
    }
}

} // verus!
