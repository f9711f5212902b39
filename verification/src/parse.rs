//! Parser for the line-delimited records of the external sampling process.
//!
//! Each line is one object in structured text: string-keyed members whose
//! values are strings, decimal numbers, nulls, two-number arrays, or one
//! level of nested object. Numbers are read in thousandths (truncating
//! deeper fraction digits), so a power in watts arrives in milliwatts and a
//! temperature in degrees arrives in millidegrees. A line that does not fit
//! the grammar is malformed and is dropped as a whole; the stream goes on.
//!
//! The specification functions are the grammar: each one consumes from a
//! position and yields the parsed value with the next position, or nothing.
//! The executable parser returns exactly what they describe.

use vstd::prelude::*;
use crate::errors::TelemetryError;
use crate::records::{MacmonOutput, MemoryInfo, TemperatureInfo};
use crate::sensors::{ascii_seq, str_to_ascii_bytes};

verus! {

/// Cap on the number reader's accumulator, chosen so that one more digit
/// and the scaling to thousandths cannot overflow a signed 64-bit value.
pub const MAX_NUMBER_INT: i64 = 0x2_0000_0000_0000;

/// Whether a byte is blank: space, tab, carriage return or line feed.
pub open spec fn is_ws(b: u8) -> bool {
    b == 32 || b == 9 || b == 13 || b == 10
}

/// Whether a byte is a decimal digit.
pub open spec fn is_digit(b: u8) -> bool {
    48 <= b <= 57
}

/// The first position at or after `pos` that holds no blank.
pub open spec fn spec_skip_ws(s: Seq<u8>, pos: int) -> int
    decreases s.len() - pos,
{
    if pos < 0 || pos >= s.len() {
        s.len() as int
    } else if is_ws(s[pos]) {
        spec_skip_ws(s, pos + 1)
    } else {
        pos
    }
}

/// A digit run read left to right onto `acc`, failing on an accumulator
/// beyond `MAX_NUMBER_INT`: the accumulated value and the position after
/// the run, or nothing where the run overflows.
pub open spec fn spec_digits(s: Seq<u8>, pos: int, acc: int) -> Option<(int, int)>
    decreases s.len() - pos,
{
    if pos < 0 || pos >= s.len() || !is_digit(s[pos]) {
        Some((acc, if pos < 0 {
            s.len() as int
        } else {
            pos
        }))
    } else if acc > MAX_NUMBER_INT {
        None
    } else {
        spec_digits(s, pos + 1, acc * 10 + (s[pos] - 48))
    }
}

/// Up to three fraction digits in thousandths; deeper digits are consumed
/// and truncated away.
pub open spec fn spec_frac_milli(s: Seq<u8>, pos: int) -> (int, int)
    decreases s.len() - pos,
{
    if pos < 0 || pos >= s.len() || !is_digit(s[pos]) {
        (0, if pos < 0 {
            s.len() as int
        } else {
            pos
        })
    } else {
        let d1: int = (s[pos] - 48) as int;
        if pos + 1 >= s.len() || !is_digit(s[pos + 1]) {
            (d1 * 100, pos + 1)
        } else {
            let d2: int = (s[pos + 1] - 48) as int;
            if pos + 2 >= s.len() || !is_digit(s[pos + 2]) {
                (d1 * 100 + d2 * 10, pos + 2)
            } else {
                let d3: int = (s[pos + 2] - 48) as int;
                (d1 * 100 + d2 * 10 + d3, spec_skip_digits(s, pos + 3))
            }
        }
    }
}

/// The position after a digit run.
pub open spec fn spec_skip_digits(s: Seq<u8>, pos: int) -> int
    decreases s.len() - pos,
{
    if pos < 0 || pos >= s.len() || !is_digit(s[pos]) {
        if pos < 0 {
            s.len() as int
        } else {
            pos
        }
    } else {
        spec_skip_digits(s, pos + 1)
    }
}

/// A decimal number in thousandths: an optional minus, an integer part of
/// at least one digit, and an optional point with at least one fraction
/// digit. Yields the signed value in thousandths and the next position.
pub open spec fn spec_number_milli(s: Seq<u8>, pos: int) -> Option<(int, int)> {
    let negative = pos >= 0 && pos < s.len() && s[pos] == 45;
    let start: int = if negative {
        pos + 1
    } else {
        pos
    };
    if !(start >= 0 && start < s.len() && is_digit(s[start])) {
        None
    } else {
        match spec_digits(s, start, 0) {
            None => None,
            Some((whole, after_int)) => {
                let (milli, after) = if after_int < s.len() && s[after_int] == 46 {
                    if after_int + 1 < s.len() && is_digit(s[after_int + 1]) {
                        let (frac, after_frac) = spec_frac_milli(s, after_int + 1);
                        (whole * 1000 + frac, after_frac)
                    } else {
                        (-1, -1)
                    }
                } else {
                    (whole * 1000, after_int)
                };
                if after < 0 {
                    None
                } else if negative {
                    Some((-milli, after))
                } else {
                    Some((milli, after))
                }
            },
        }
    }
}

/// A quoted string without escapes: its raw content bytes and the position
/// after the closing quote. A backslash or a missing closing quote is
/// malformed.
pub open spec fn spec_string(s: Seq<u8>, pos: int) -> Option<(Seq<u8>, int)> {
    if !(0 <= pos < s.len() && s[pos] == 34) {
        None
    } else {
        spec_string_tail(s, pos + 1, Seq::empty())
    }
}

/// The remainder of a quoted string, accumulating content bytes.
pub open spec fn spec_string_tail(s: Seq<u8>, pos: int, acc: Seq<u8>) -> Option<(Seq<u8>, int)>
    decreases s.len() - pos,
{
    if pos < 0 || pos >= s.len() {
        None
    } else if s[pos] == 34 {
        Some((acc, pos + 1))
    } else if s[pos] == 92 {
        None
    } else {
        spec_string_tail(s, pos + 1, acc.push(s[pos]))
    }
}

/// First blank-free position, executably.
pub fn skip_ws(s: &Vec<u8>, pos: usize) -> (r: usize)
    requires
        pos <= s@.len(),
    ensures
        r == spec_skip_ws(s@, pos as int),
        pos <= r <= s@.len(),
{
    let n: usize = s.len();
    let mut i: usize = pos;
    while i < n && (s[i] == 32 || s[i] == 9 || s[i] == 13 || s[i] == 10)
        invariant
            pos <= i <= n,
            n == s@.len(),
            spec_skip_ws(s@, pos as int) == spec_skip_ws(s@, i as int),
        decreases n - i,
    {
        i = i + 1;
    }
    i
}

/// Read a digit run, executably.
fn read_digits(s: &Vec<u8>, pos: usize) -> (r: Option<(i64, usize)>)
    requires
        pos <= s@.len(),
    ensures
        match r {
            Some((v, p)) => spec_digits(s@, pos as int, 0) == Some((v as int, p as int)) && pos
                <= p <= s@.len() && v >= 0 && (pos < s@.len() && is_digit(s@[pos as int]) ==> p
                > pos),
            None => spec_digits(s@, pos as int, 0) is None,
        },
{
    let n: usize = s.len();
    let mut i: usize = pos;
    let mut acc: i64 = 0;
    while i < n && s[i] >= 48 && s[i] <= 57
        invariant
            pos <= i <= n,
            n == s@.len(),
            0 <= acc <= MAX_NUMBER_INT * 10 + 9,
            spec_digits(s@, pos as int, 0) == spec_digits(s@, i as int, acc as int),
        decreases n - i,
    {
        if acc > MAX_NUMBER_INT {
            return None;
        }
        acc = acc * 10 + (s[i] - 48) as i64;
        i = i + 1;
    }
    Some((acc, i))
}

/// Position after a digit run, executably.
fn skip_digits(s: &Vec<u8>, pos: usize) -> (r: usize)
    requires
        pos <= s@.len(),
    ensures
        r == spec_skip_digits(s@, pos as int),
        pos <= r <= s@.len(),
{
    let n: usize = s.len();
    let mut i: usize = pos;
    while i < n && s[i] >= 48 && s[i] <= 57
        invariant
            pos <= i <= n,
            n == s@.len(),
            spec_skip_digits(s@, pos as int) == spec_skip_digits(s@, i as int),
        decreases n - i,
    {
        i = i + 1;
    }
    i
}

/// Read up to three fraction digits in thousandths, executably.
fn read_frac_milli(s: &Vec<u8>, pos: usize) -> (r: (i64, usize))
    requires
        pos <= s@.len(),
    ensures
        r.0 as int == spec_frac_milli(s@, pos as int).0,
        r.1 as int == spec_frac_milli(s@, pos as int).1,
        pos <= r.1 <= s@.len(),
        0 <= r.0 <= 999,
{
    let n: usize = s.len();
    if pos >= n || s[pos] < 48 || s[pos] > 57 {
        return (0, pos);
    }
    let d1: i64 = (s[pos] - 48) as i64;
    if pos + 1 >= n || s[pos + 1] < 48 || s[pos + 1] > 57 {
        return (d1 * 100, pos + 1);
    }
    let d2: i64 = (s[pos + 1] - 48) as i64;
    if pos + 2 >= n || s[pos + 2] < 48 || s[pos + 2] > 57 {
        return (d1 * 100 + d2 * 10, pos + 2);
    }
    let d3: i64 = (s[pos + 2] - 48) as i64;
    (d1 * 100 + d2 * 10 + d3, skip_digits(s, pos + 3))
}

/// Read a decimal number in thousandths, executably.
pub fn read_number_milli(s: &Vec<u8>, pos: usize) -> (r: Option<(i64, usize)>)
    requires
        pos <= s@.len(),
    ensures
        match r {
            Some((v, p)) => spec_number_milli(s@, pos as int) == Some((v as int, p as int)) && pos
                < p <= s@.len(),
            None => spec_number_milli(s@, pos as int) is None,
        },
{
    let n: usize = s.len();
    let negative: bool = pos < n && s[pos] == 45;
    let start: usize = if negative {
        pos + 1
    } else {
        pos
    };
    if !(start < n && s[start] >= 48 && s[start] <= 57) {
        return None;
    }
    match read_digits(s, start) {
        None => None,
        Some((whole, after_int)) => {
            let (milli, after): (i64, usize) = if after_int < n && s[after_int] == 46 {
                if after_int + 1 < n && s[after_int + 1] >= 48 && s[after_int + 1] <= 57 {
                    let (frac, after_frac) = read_frac_milli(s, after_int + 1);
                    proof {
                        lemma_digits_bound(s@, start as int, 0);
                    }
                    (whole * 1000 + frac, after_frac)
                } else {
                    return None;
                }
            } else {
                proof {
                    lemma_digits_bound(s@, start as int, 0);
                }
                (whole * 1000, after_int)
            };
            if negative {
                Some((-milli, after))
            } else {
                Some((milli, after))
            }
        },
    }
}

/// A successful digit run never exceeds ten times the cap plus nine.
proof fn lemma_digits_bound(s: Seq<u8>, pos: int, acc: int)
    requires
        0 <= acc <= MAX_NUMBER_INT * 10 + 9,
    ensures
        spec_digits(s, pos, acc) matches Some(v) ==> 0 <= v.0 <= MAX_NUMBER_INT * 10 + 9,
    decreases s.len() - pos,
{
    if !(pos < 0 || pos >= s.len() || !is_digit(s[pos])) && acc <= MAX_NUMBER_INT {
        lemma_digits_bound(s, pos + 1, acc * 10 + (s[pos] - 48));
    }
}

/// Read a quoted string's raw content, executably.
pub fn read_string(s: &Vec<u8>, pos: usize) -> (r: Option<(Vec<u8>, usize)>)
    requires
        pos <= s@.len(),
    ensures
        match r {
            Some((v, p)) => spec_string(s@, pos as int) == Some((v@, p as int)) && pos < p
                <= s@.len(),
            None => spec_string(s@, pos as int) is None,
        },
{
    let n: usize = s.len();
    if !(pos < n && s[pos] == 34) {
        return None;
    }
    let mut acc: Vec<u8> = Vec::new();
    let mut i: usize = pos + 1;
    while i < n && s[i] != 34 && s[i] != 92
        invariant
            pos + 1 <= i <= n,
            n == s@.len(),
            spec_string_tail(s@, pos + 1, Seq::empty()) == spec_string_tail(s@, i as int, acc@),
        decreases n - i,
    {
        acc.push(s[i]);
        i = i + 1;
    }
    if i < n && s[i] == 34 {
        Some((acc, i + 1))
    } else {
        None
    }
}

/// Whether the keyword `null` stands at `pos`.
pub open spec fn is_null_at(s: Seq<u8>, pos: int) -> bool {
    &&& 0 <= pos
    &&& pos + 4 <= s.len()
    &&& s[pos] == 110
    &&& s[pos + 1] == 117
    &&& s[pos + 2] == 108
    &&& s[pos + 3] == 108
}

/// Whether the keyword `true` stands at `pos`.
pub open spec fn is_true_at(s: Seq<u8>, pos: int) -> bool {
    &&& 0 <= pos
    &&& pos + 4 <= s.len()
    &&& s[pos] == 116
    &&& s[pos + 1] == 114
    &&& s[pos + 2] == 117
    &&& s[pos + 3] == 101
}

/// Whether the keyword `false` stands at `pos`.
pub open spec fn is_false_at(s: Seq<u8>, pos: int) -> bool {
    &&& 0 <= pos
    &&& pos + 5 <= s.len()
    &&& s[pos] == 102
    &&& s[pos + 1] == 97
    &&& s[pos + 2] == 108
    &&& s[pos + 3] == 115
    &&& s[pos + 4] == 101
}

/// Test for the keyword `null`, executably.
fn check_null(s: &Vec<u8>, pos: usize) -> (r: bool)
    requires
        pos <= s@.len(),
    ensures
        r == is_null_at(s@, pos as int),
{
    s.len() - pos >= 4 && s[pos] == 110 && s[pos + 1] == 117 && s[pos + 2] == 108 && s[pos + 3]
        == 108
}

/// Test for the keyword `true`, executably.
fn check_true(s: &Vec<u8>, pos: usize) -> (r: bool)
    requires
        pos <= s@.len(),
    ensures
        r == is_true_at(s@, pos as int),
{
    s.len() - pos >= 4 && s[pos] == 116 && s[pos + 1] == 114 && s[pos + 2] == 117 && s[pos + 3]
        == 101
}

/// Test for the keyword `false`, executably.
fn check_false(s: &Vec<u8>, pos: usize) -> (r: bool)
    requires
        pos <= s@.len(),
    ensures
        r == is_false_at(s@, pos as int),
{
    s.len() - pos >= 5 && s[pos] == 102 && s[pos + 1] == 97 && s[pos + 2] == 108 && s[pos + 3]
        == 115 && s[pos + 4] == 101
}

/// A two-number array in thousandths: `[` number `,` number `]`, blanks
/// between tokens.
pub open spec fn spec_pair(s: Seq<u8>, pos: int) -> Option<((int, int), int)> {
    if !(0 <= pos < s.len() && s[pos] == 91) {
        None
    } else {
        match spec_number_milli(s, spec_skip_ws(s, pos + 1)) {
            None => None,
            Some((first, after_first)) => {
                let comma = spec_skip_ws(s, after_first);
                if !(comma < s.len() && s[comma] == 44) {
                    None
                } else {
                    match spec_number_milli(s, spec_skip_ws(s, comma + 1)) {
                        None => None,
                        Some((second, after_second)) => {
                            let close = spec_skip_ws(s, after_second);
                            if close < s.len() && s[close] == 93 {
                                Some(((first, second), close + 1))
                            } else {
                                None
                            }
                        },
                    }
                }
            },
        }
    }
}

/// Read a two-number array, executably.
pub fn read_pair(s: &Vec<u8>, pos: usize) -> (r: Option<((i64, i64), usize)>)
    requires
        pos <= s@.len(),
    ensures
        match r {
            Some((v, p)) => spec_pair(s@, pos as int) == Some(((v.0 as int, v.1 as int), p as int))
                && pos < p <= s@.len(),
            None => spec_pair(s@, pos as int) is None,
        },
{
    let n: usize = s.len();
    if !(pos < n && s[pos] == 91) {
        return None;
    }
    let (first, after_first) = match read_number_milli(s, skip_ws(s, pos + 1)) {
        Some(v) => v,
        None => {
            return None;
        },
    };
    let comma: usize = skip_ws(s, after_first);
    if !(comma < n && s[comma] == 44) {
        return None;
    }
    let (second, after_second) = match read_number_milli(s, skip_ws(s, comma + 1)) {
        Some(v) => v,
        None => {
            return None;
        },
    };
    let close: usize = skip_ws(s, after_second);
    if close < n && s[close] == 93 {
        Some(((first, second), close + 1))
    } else {
        None
    }
}

/// Equality of two byte strings.
pub fn bytes_eq(a: &Vec<u8>, b: &Vec<u8>) -> (r: bool)
    ensures
        r == (a@ == b@),
{
    if a.len() != b.len() {
        return false;
    }
    let n: usize = a.len();
    let mut i: usize = 0;
    while i < n
        invariant
            i <= n,
            n == a@.len() == b@.len(),
            forall|j: int| 0 <= j < i ==> a@[j] == b@[j],
        decreases n - i,
    {
        if a[i] != b[i] {
            return false;
        }
        i = i + 1;
    }
    proof {
        assert(a@ =~= b@);
    }
    true
}

/// The position after one scalar value: a string, a number, or a keyword.
pub open spec fn spec_skip_scalar(s: Seq<u8>, pos: int) -> Option<int> {
    if is_null_at(s, pos) || is_true_at(s, pos) {
        Some(pos + 4)
    } else if is_false_at(s, pos) {
        Some(pos + 5)
    } else {
        match spec_string(s, pos) {
            Some((_content, after)) => Some(after),
            None => match spec_number_milli(s, pos) {
                Some((_v, after)) => Some(after),
                None => None,
            },
        }
    }
}

/// Skip one scalar value, executably.
fn skip_scalar(s: &Vec<u8>, pos: usize) -> (r: Option<usize>)
    requires
        pos <= s@.len(),
    ensures
        match r {
            Some(p) => spec_skip_scalar(s@, pos as int) == Some(p as int) && pos < p <= s@.len(),
            None => spec_skip_scalar(s@, pos as int) is None,
        },
{
    let n: usize = s.len();
    if check_null(s, pos) || check_true(s, pos) {
        proof {
            assert(pos + 4 <= n);
        }
        return Some(pos + 4);
    }
    if check_false(s, pos) {
        proof {
            assert(pos + 5 <= n);
        }
        return Some(pos + 5);
    }
    match read_string(s, pos) {
        Some((_content, after)) => Some(after),
        None => match read_number_milli(s, pos) {
            Some((_v, after)) => Some(after),
            None => None,
        },
    }
}

/// The members of a skipped object, from after its opening brace: any keys,
/// scalar values. Yields the position after the closing brace.
pub open spec fn spec_skip_obj_members(s: Seq<u8>, pos: int) -> Option<int>
    decreases s.len() - pos,
{
    match spec_string(s, spec_skip_ws(s, pos)) {
        None => None,
        Some((_key, after_key)) => {
            let colon = spec_skip_ws(s, after_key);
            if !(colon < s.len() && s[colon] == 58) {
                None
            } else {
                match spec_skip_scalar(s, spec_skip_ws(s, colon + 1)) {
                    None => None,
                    Some(after_val) => {
                        let d = spec_skip_ws(s, after_val);
                        if d < s.len() && s[d] == 125 {
                            Some(d + 1)
                        } else if d < s.len() && s[d] == 44 && d >= pos {
                            spec_skip_obj_members(s, d + 1)
                        } else {
                            None
                        }
                    },
                }
            }
        },
    }
}

/// The position after a whole skipped object.
pub open spec fn spec_skip_obj(s: Seq<u8>, pos: int) -> Option<int> {
    if !(0 <= pos < s.len() && s[pos] == 123) {
        None
    } else {
        let q = spec_skip_ws(s, pos + 1);
        if q < s.len() && s[q] == 125 {
            Some(q + 1)
        } else {
            spec_skip_obj_members(s, pos + 1)
        }
    }
}

/// Skip an object of scalar members, executably.
fn skip_obj(s: &Vec<u8>, pos: usize) -> (r: Option<usize>)
    requires
        pos <= s@.len(),
    ensures
        match r {
            Some(p) => spec_skip_obj(s@, pos as int) == Some(p as int) && pos < p <= s@.len(),
            None => spec_skip_obj(s@, pos as int) is None,
        },
{
    let n: usize = s.len();
    if !(pos < n && s[pos] == 123) {
        return None;
    }
    let q: usize = skip_ws(s, pos + 1);
    if q < n && s[q] == 125 {
        return Some(q + 1);
    }
    let mut cur: usize = pos + 1;
    loop
        invariant
            pos + 1 <= cur <= n,
            n == s@.len(),
            spec_skip_obj(s@, pos as int) == spec_skip_obj_members(s@, cur as int),
        decreases n - cur,
    {
        let (_key, after_key) = match read_string(s, skip_ws(s, cur)) {
            Some(v) => v,
            None => {
                return None;
            },
        };
        let colon: usize = skip_ws(s, after_key);
        if !(colon < n && s[colon] == 58) {
            return None;
        }
        let after_val: usize = match skip_scalar(s, skip_ws(s, colon + 1)) {
            Some(v) => v,
            None => {
                return None;
            },
        };
        let d: usize = skip_ws(s, after_val);
        if d < n && s[d] == 125 {
            return Some(d + 1);
        }
        if d < n && s[d] == 44 {
            cur = d + 1;
        } else {
            return None;
        }
    }
}

/// Partial state of the temperature-hint object reader.
#[derive(Clone, Copy, Debug, PartialEq, Eq)]
pub struct TempBuilder {
    pub seen_cpu: bool,
    pub cpu: Option<i64>,
    pub seen_gpu: bool,
    pub gpu: Option<i64>,
}

/// A field value that is a number or `null`: the value in thousandths, or
/// nothing for `null`, with the next position; a type mismatch is
/// malformed.
pub open spec fn spec_opt_number(s: Seq<u8>, pos: int) -> Option<(Option<int>, int)> {
    if is_null_at(s, pos) {
        Some((None, pos + 4))
    } else {
        match spec_number_milli(s, pos) {
            Some((v, after)) => Some((Some(v), after)),
            None => None,
        }
    }
}

/// A parsed optional value narrowed to sixty-four bits; parsed numbers
/// always fit.
pub open spec fn opt_milli_i64(v: Option<int>) -> Option<i64> {
    match v {
        Some(x) => Some(x as i64),
        None => None,
    }
}

/// The members of a temperature-hint object, from after its opening brace:
/// the two average fields in thousandths of a degree, each at most once;
/// unknown keys carry scalars and are ignored.
pub open spec fn spec_temp_members(s: Seq<u8>, pos: int, b: TempBuilder) -> Option<(
    TempBuilder,
    int,
)>
    decreases s.len() - pos,
{
    match spec_string(s, spec_skip_ws(s, pos)) {
        None => None,
        Some((key, after_key)) => {
            let colon = spec_skip_ws(s, after_key);
            if !(colon < s.len() && s[colon] == 58) {
                None
            } else {
                let v = spec_skip_ws(s, colon + 1);
                let stepped: Option<(TempBuilder, int)> = if key == ascii_seq(
                    "cpu_temp_avg"@,
                ) {
                    if b.seen_cpu {
                        None
                    } else {
                        match spec_opt_number(s, v) {
                            Some((val, after)) => Some(
                                (TempBuilder { seen_cpu: true, cpu: opt_milli_i64(val), ..b }, after),
                            ),
                            None => None,
                        }
                    }
                } else if key == ascii_seq("gpu_temp_avg"@) {
                    if b.seen_gpu {
                        None
                    } else {
                        match spec_opt_number(s, v) {
                            Some((val, after)) => Some(
                                (TempBuilder { seen_gpu: true, gpu: opt_milli_i64(val), ..b }, after),
                            ),
                            None => None,
                        }
                    }
                } else {
                    match spec_skip_scalar(s, v) {
                        Some(after) => Some((b, after)),
                        None => None,
                    }
                };
                match stepped {
                    None => None,
                    Some((b2, after_val)) => {
                        let d = spec_skip_ws(s, after_val);
                        if d < s.len() && s[d] == 125 {
                            Some((b2, d + 1))
                        } else if d < s.len() && s[d] == 44 && d >= pos {
                            spec_temp_members(s, d + 1, b2)
                        } else {
                            None
                        }
                    },
                }
            }
        },
    }
}

/// A whole temperature-hint object.
pub open spec fn spec_temp_obj(s: Seq<u8>, pos: int) -> Option<(TempBuilder, int)> {
    if !(0 <= pos < s.len() && s[pos] == 123) {
        None
    } else {
        let q = spec_skip_ws(s, pos + 1);
        if q < s.len() && s[q] == 125 {
            Some((TempBuilder { seen_cpu: false, cpu: None, seen_gpu: false, gpu: None }, q + 1))
        } else {
            spec_temp_members(
                s,
                pos + 1,
                TempBuilder { seen_cpu: false, cpu: None, seen_gpu: false, gpu: None },
            )
        }
    }
}

/// Read a field value that is a number or `null`, executably.
fn read_opt_number(s: &Vec<u8>, pos: usize) -> (r: Option<(Option<i64>, usize)>)
    requires
        pos <= s@.len(),
    ensures
        match r {
            Some((v, p)) => spec_opt_number(s@, pos as int) == Some(
                (
                    match v {
                        Some(x) => Some(x as int),
                        None => None,
                    },
                    p as int,
                ),
            ) && pos < p <= s@.len(),
            None => spec_opt_number(s@, pos as int) is None,
        },
{
    let n: usize = s.len();
    if check_null(s, pos) {
        proof {
            assert(pos + 4 <= n);
        }
        return Some((None, pos + 4));
    }
    match read_number_milli(s, pos) {
        Some((v, after)) => Some((Some(v), after)),
        None => None,
    }
}

/// Read a temperature-hint object, executably.
fn read_temp_obj(s: &Vec<u8>, pos: usize) -> (r: Option<(TempBuilder, usize)>)
    requires
        pos <= s@.len(),
    ensures
        match r {
            Some((b, p)) => spec_temp_obj(s@, pos as int) == Some((b, p as int)) && pos < p
                <= s@.len(),
            None => spec_temp_obj(s@, pos as int) is None,
        },
{
    let n: usize = s.len();
    if !(pos < n && s[pos] == 123) {
        return None;
    }
    let empty = TempBuilder { seen_cpu: false, cpu: None, seen_gpu: false, gpu: None };
    let q: usize = skip_ws(s, pos + 1);
    if q < n && s[q] == 125 {
        return Some((empty, q + 1));
    }
    let key_cpu: Vec<u8> = str_to_ascii_bytes("cpu_temp_avg");
    let key_gpu: Vec<u8> = str_to_ascii_bytes("gpu_temp_avg");
    let mut cur: usize = pos + 1;
    let mut b: TempBuilder = empty;
    loop
        invariant
            pos + 1 <= cur <= n,
            n == s@.len(),
            key_cpu@ == ascii_seq("cpu_temp_avg"@),
            key_gpu@ == ascii_seq("gpu_temp_avg"@),
            spec_temp_obj(s@, pos as int) == spec_temp_members(s@, cur as int, b),
        decreases n - cur,
    {
        let (key, after_key) = match read_string(s, skip_ws(s, cur)) {
            Some(v) => v,
            None => {
                return None;
            },
        };
        let colon: usize = skip_ws(s, after_key);
        if !(colon < n && s[colon] == 58) {
            return None;
        }
        let v: usize = skip_ws(s, colon + 1);
        let (b2, after_val): (TempBuilder, usize) = if bytes_eq(&key, &key_cpu) {
            if b.seen_cpu {
                return None;
            }
            match read_opt_number(s, v) {
                Some((val, after)) => (TempBuilder { seen_cpu: true, cpu: val, ..b }, after),
                None => {
                    return None;
                },
            }
        } else if bytes_eq(&key, &key_gpu) {
            if b.seen_gpu {
                return None;
            }
            match read_opt_number(s, v) {
                Some((val, after)) => (TempBuilder { seen_gpu: true, gpu: val, ..b }, after),
                None => {
                    return None;
                },
            }
        } else {
            match skip_scalar(s, v) {
                Some(after) => (b, after),
                None => {
                    return None;
                },
            }
        };
        let d: usize = skip_ws(s, after_val);
        if d < n && s[d] == 125 {
            return Some((b2, d + 1));
        }
        if d < n && s[d] == 44 {
            cur = d + 1;
            b = b2;
        } else {
            return None;
        }
    }
}

/// Partial state of the memory-counter object reader.
#[derive(Clone, Copy, Debug, PartialEq, Eq)]
pub struct MemoryBuilder {
    pub seen_ram_total: bool,
    pub ram_total: Option<u64>,
    pub seen_ram_usage: bool,
    pub ram_usage: Option<u64>,
    pub seen_swap_total: bool,
    pub swap_total: Option<u64>,
    pub seen_swap_usage: bool,
    pub swap_usage: Option<u64>,
}

/// A memory counter: `null`, or a whole nonnegative byte count (which the
/// thousandths reading leaves divisible by one thousand); a fractional or
/// negative value is malformed.
pub open spec fn spec_opt_byte_count(s: Seq<u8>, pos: int) -> Option<(Option<u64>, int)> {
    if is_null_at(s, pos) {
        Some((None, pos + 4))
    } else {
        match spec_number_milli(s, pos) {
            Some((v, after)) => if v >= 0 && v % 1000 == 0 {
                Some((Some((v / 1000) as u64), after))
            } else {
                None
            },
            None => None,
        }
    }
}

/// The members of a memory-counter object, from after its opening brace:
/// the four counters in bytes, each at most once; unknown keys carry
/// scalars and are ignored.
pub open spec fn spec_memory_members(s: Seq<u8>, pos: int, b: MemoryBuilder) -> Option<(
    MemoryBuilder,
    int,
)>
    decreases s.len() - pos,
{
    match spec_string(s, spec_skip_ws(s, pos)) {
        None => None,
        Some((key, after_key)) => {
            let colon = spec_skip_ws(s, after_key);
            if !(colon < s.len() && s[colon] == 58) {
                None
            } else {
                let v = spec_skip_ws(s, colon + 1);
                let stepped: Option<(MemoryBuilder, int)> = if key == ascii_seq("ram_total"@) {
                    if b.seen_ram_total {
                        None
                    } else {
                        match spec_opt_byte_count(s, v) {
                            Some((val, after)) => Some(
                                (MemoryBuilder { seen_ram_total: true, ram_total: val, ..b }, after),
                            ),
                            None => None,
                        }
                    }
                } else if key == ascii_seq("ram_usage"@) {
                    if b.seen_ram_usage {
                        None
                    } else {
                        match spec_opt_byte_count(s, v) {
                            Some((val, after)) => Some(
                                (MemoryBuilder { seen_ram_usage: true, ram_usage: val, ..b }, after),
                            ),
                            None => None,
                        }
                    }
                } else if key == ascii_seq("swap_total"@) {
                    if b.seen_swap_total {
                        None
                    } else {
                        match spec_opt_byte_count(s, v) {
                            Some((val, after)) => Some(
                                (
                                    MemoryBuilder { seen_swap_total: true, swap_total: val, ..b },
                                    after,
                                ),
                            ),
                            None => None,
                        }
                    }
                } else if key == ascii_seq("swap_usage"@) {
                    if b.seen_swap_usage {
                        None
                    } else {
                        match spec_opt_byte_count(s, v) {
                            Some((val, after)) => Some(
                                (
                                    MemoryBuilder { seen_swap_usage: true, swap_usage: val, ..b },
                                    after,
                                ),
                            ),
                            None => None,
                        }
                    }
                } else {
                    match spec_skip_scalar(s, v) {
                        Some(after) => Some((b, after)),
                        None => None,
                    }
                };
                match stepped {
                    None => None,
                    Some((b2, after_val)) => {
                        let d = spec_skip_ws(s, after_val);
                        if d < s.len() && s[d] == 125 {
                            Some((b2, d + 1))
                        } else if d < s.len() && s[d] == 44 && d >= pos {
                            spec_memory_members(s, d + 1, b2)
                        } else {
                            None
                        }
                    },
                }
            }
        },
    }
}

/// The empty memory-counter state.
pub open spec fn spec_memory_empty() -> MemoryBuilder {
    MemoryBuilder {
        seen_ram_total: false,
        ram_total: None,
        seen_ram_usage: false,
        ram_usage: None,
        seen_swap_total: false,
        swap_total: None,
        seen_swap_usage: false,
        swap_usage: None,
    }
}

/// A whole memory-counter object.
pub open spec fn spec_memory_obj(s: Seq<u8>, pos: int) -> Option<(MemoryBuilder, int)> {
    if !(0 <= pos < s.len() && s[pos] == 123) {
        None
    } else {
        let q = spec_skip_ws(s, pos + 1);
        if q < s.len() && s[q] == 125 {
            Some((spec_memory_empty(), q + 1))
        } else {
            spec_memory_members(s, pos + 1, spec_memory_empty())
        }
    }
}

/// Read a memory counter, executably.
fn read_opt_byte_count(s: &Vec<u8>, pos: usize) -> (r: Option<(Option<u64>, usize)>)
    requires
        pos <= s@.len(),
    ensures
        match r {
            Some((v, p)) => spec_opt_byte_count(s@, pos as int) == Some((v, p as int)) && pos < p
                <= s@.len(),
            None => spec_opt_byte_count(s@, pos as int) is None,
        },
{
    let n: usize = s.len();
    if check_null(s, pos) {
        proof {
            assert(pos + 4 <= n);
        }
        return Some((None, pos + 4));
    }
    match read_number_milli(s, pos) {
        Some((v, after)) => if v >= 0 && v % 1000 == 0 {
            Some((Some((v / 1000) as u64), after))
        } else {
            None
        },
        None => None,
    }
}

/// Read a memory-counter object, executably.
fn read_memory_obj(s: &Vec<u8>, pos: usize) -> (r: Option<(MemoryBuilder, usize)>)
    requires
        pos <= s@.len(),
    ensures
        match r {
            Some((b, p)) => spec_memory_obj(s@, pos as int) == Some((b, p as int)) && pos < p
                <= s@.len(),
            None => spec_memory_obj(s@, pos as int) is None,
        },
{
    let n: usize = s.len();
    if !(pos < n && s[pos] == 123) {
        return None;
    }
    let empty = MemoryBuilder {
        seen_ram_total: false,
        ram_total: None,
        seen_ram_usage: false,
        ram_usage: None,
        seen_swap_total: false,
        swap_total: None,
        seen_swap_usage: false,
        swap_usage: None,
    };
    let q: usize = skip_ws(s, pos + 1);
    if q < n && s[q] == 125 {
        return Some((empty, q + 1));
    }
    let key_ram_total: Vec<u8> = str_to_ascii_bytes("ram_total");
    let key_ram_usage: Vec<u8> = str_to_ascii_bytes("ram_usage");
    let key_swap_total: Vec<u8> = str_to_ascii_bytes("swap_total");
    let key_swap_usage: Vec<u8> = str_to_ascii_bytes("swap_usage");
    let mut cur: usize = pos + 1;
    let mut b: MemoryBuilder = empty;
    loop
        invariant
            pos + 1 <= cur <= n,
            n == s@.len(),
            key_ram_total@ == ascii_seq("ram_total"@),
            key_ram_usage@ == ascii_seq("ram_usage"@),
            key_swap_total@ == ascii_seq("swap_total"@),
            key_swap_usage@ == ascii_seq("swap_usage"@),
            spec_memory_obj(s@, pos as int) == spec_memory_members(s@, cur as int, b),
        decreases n - cur,
    {
        let (key, after_key) = match read_string(s, skip_ws(s, cur)) {
            Some(v) => v,
            None => {
                return None;
            },
        };
        let colon: usize = skip_ws(s, after_key);
        if !(colon < n && s[colon] == 58) {
            return None;
        }
        let v: usize = skip_ws(s, colon + 1);
        let (b2, after_val): (MemoryBuilder, usize) = if bytes_eq(&key, &key_ram_total) {
            if b.seen_ram_total {
                return None;
            }
            match read_opt_byte_count(s, v) {
                Some((val, after)) => (
                    MemoryBuilder { seen_ram_total: true, ram_total: val, ..b },
                    after,
                ),
                None => {
                    return None;
                },
            }
        } else if bytes_eq(&key, &key_ram_usage) {
            if b.seen_ram_usage {
                return None;
            }
            match read_opt_byte_count(s, v) {
                Some((val, after)) => (
                    MemoryBuilder { seen_ram_usage: true, ram_usage: val, ..b },
                    after,
                ),
                None => {
                    return None;
                },
            }
        } else if bytes_eq(&key, &key_swap_total) {
            if b.seen_swap_total {
                return None;
            }
            match read_opt_byte_count(s, v) {
                Some((val, after)) => (
                    MemoryBuilder { seen_swap_total: true, swap_total: val, ..b },
                    after,
                ),
                None => {
                    return None;
                },
            }
        } else if bytes_eq(&key, &key_swap_usage) {
            if b.seen_swap_usage {
                return None;
            }
            match read_opt_byte_count(s, v) {
                Some((val, after)) => (
                    MemoryBuilder { seen_swap_usage: true, swap_usage: val, ..b },
                    after,
                ),
                None => {
                    return None;
                },
            }
        } else {
            match skip_scalar(s, v) {
                Some(after) => (b, after),
                None => {
                    return None;
                },
            }
        };
        let d: usize = skip_ws(s, after_val);
        if d < n && s[d] == 125 {
            return Some((b2, d + 1));
        }
        if d < n && s[d] == 44 {
            cur = d + 1;
            b = b2;
        } else {
            return None;
        }
    }
}

/// The temperature hints a finished reader state yields.
pub open spec fn spec_temp_info(b: TempBuilder) -> TemperatureInfo {
    TemperatureInfo { cpu_temp_avg_mc: b.cpu, gpu_temp_avg_mc: b.gpu }
}

/// The memory counters a finished reader state yields.
pub open spec fn spec_memory_info(b: MemoryBuilder) -> MemoryInfo {
    MemoryInfo {
        ram_total: b.ram_total,
        ram_usage: b.ram_usage,
        swap_total: b.swap_total,
        swap_usage: b.swap_usage,
    }
}

/// A parsed optional pair narrowed to sixty-four bits; parsed numbers
/// always fit.
pub open spec fn opt_pair_i64(v: Option<(int, int)>) -> Option<(i64, i64)> {
    match v {
        Some(p) => Some((p.0 as i64, p.1 as i64)),
        None => None,
    }
}

/// A field value that is a two-number array or `null`.
pub open spec fn spec_opt_pair(s: Seq<u8>, pos: int) -> Option<(Option<(int, int)>, int)> {
    if is_null_at(s, pos) {
        Some((None, pos + 4))
    } else {
        match spec_pair(s, pos) {
            Some((v, after)) => Some((Some(v), after)),
            None => None,
        }
    }
}

/// The position after any one value: a scalar, a two-number array, or an
/// object of scalar members.
pub open spec fn spec_skip_value(s: Seq<u8>, pos: int) -> Option<int> {
    match spec_skip_scalar(s, pos) {
        Some(after) => Some(after),
        None => match spec_pair(s, pos) {
            Some((_v, after)) => Some(after),
            None => spec_skip_obj(s, pos),
        },
    }
}

/// What the record reader has gathered, at specification level: each field
/// with whether its key was already seen.
pub struct RecModel {
    pub timestamp: Option<Seq<u8>>,
    pub seen_temp: bool,
    pub temp: Option<TemperatureInfo>,
    pub seen_memory: bool,
    pub memory: Option<MemoryInfo>,
    pub seen_ecpu: bool,
    pub ecpu_usage: Option<(i64, i64)>,
    pub seen_pcpu: bool,
    pub pcpu_usage: Option<(i64, i64)>,
    pub seen_gpu_usage: bool,
    pub gpu_usage: Option<(i64, i64)>,
    pub seen_cpu_power: bool,
    pub cpu_power_mw: Option<i64>,
    pub seen_gpu_power: bool,
    pub gpu_power_mw: Option<i64>,
    pub seen_ane_power: bool,
    pub ane_power_mw: Option<i64>,
    pub seen_sys_power: bool,
    pub sys_power_mw: Option<i64>,
}

/// The record reader's empty state.
pub open spec fn spec_rec_empty() -> RecModel {
    RecModel {
        timestamp: None,
        seen_temp: false,
        temp: None,
        seen_memory: false,
        memory: None,
        seen_ecpu: false,
        ecpu_usage: None,
        seen_pcpu: false,
        pcpu_usage: None,
        seen_gpu_usage: false,
        gpu_usage: None,
        seen_cpu_power: false,
        cpu_power_mw: None,
        seen_gpu_power: false,
        gpu_power_mw: None,
        seen_ane_power: false,
        ane_power_mw: None,
        seen_sys_power: false,
        sys_power_mw: None,
    }
}

/// One record member's effect on the gathered state: the known keys take
/// their typed values, each at most once; an unknown key's value is parsed
/// and ignored. Yields the stepped state and the position after the value.
pub open spec fn spec_record_step(s: Seq<u8>, key: Seq<u8>, v: int, m: RecModel) -> Option<(
    RecModel,
    int,
)> {
    if key == ascii_seq("timestamp"@) {
        if m.timestamp is Some {
            None
        } else {
            match spec_string(s, v) {
                Some((content, after)) => Some(
                    (RecModel { timestamp: Some(content), ..m }, after),
                ),
                None => None,
            }
        }
    } else if key == ascii_seq("temp"@) {
        if m.seen_temp {
            None
        } else if is_null_at(s, v) {
            Some((RecModel { seen_temp: true, temp: None, ..m }, v + 4))
        } else {
            match spec_temp_obj(s, v) {
                Some((b, after)) => Some(
                    (RecModel { seen_temp: true, temp: Some(spec_temp_info(b)), ..m }, after),
                ),
                None => None,
            }
        }
    } else if key == ascii_seq("memory"@) {
        if m.seen_memory {
            None
        } else if is_null_at(s, v) {
            Some((RecModel { seen_memory: true, memory: None, ..m }, v + 4))
        } else {
            match spec_memory_obj(s, v) {
                Some((b, after)) => Some(
                    (
                        RecModel { seen_memory: true, memory: Some(spec_memory_info(b)), ..m },
                        after,
                    ),
                ),
                None => None,
            }
        }
    } else if key == ascii_seq("ecpu_usage"@) {
        if m.seen_ecpu {
            None
        } else {
            match spec_opt_pair(s, v) {
                Some((val, after)) => Some(
                    (RecModel { seen_ecpu: true, ecpu_usage: opt_pair_i64(val), ..m }, after),
                ),
                None => None,
            }
        }
    } else if key == ascii_seq("pcpu_usage"@) {
        if m.seen_pcpu {
            None
        } else {
            match spec_opt_pair(s, v) {
                Some((val, after)) => Some(
                    (RecModel { seen_pcpu: true, pcpu_usage: opt_pair_i64(val), ..m }, after),
                ),
                None => None,
            }
        }
    } else if key == ascii_seq("gpu_usage"@) {
        if m.seen_gpu_usage {
            None
        } else {
            match spec_opt_pair(s, v) {
                Some((val, after)) => Some(
                    (RecModel { seen_gpu_usage: true, gpu_usage: opt_pair_i64(val), ..m }, after),
                ),
                None => None,
            }
        }
    } else if key == ascii_seq("cpu_power"@) {
        if m.seen_cpu_power {
            None
        } else {
            match spec_opt_number(s, v) {
                Some((val, after)) => Some(
                    (
                        RecModel { seen_cpu_power: true, cpu_power_mw: opt_milli_i64(val), ..m },
                        after,
                    ),
                ),
                None => None,
            }
        }
    } else if key == ascii_seq("gpu_power"@) {
        if m.seen_gpu_power {
            None
        } else {
            match spec_opt_number(s, v) {
                Some((val, after)) => Some(
                    (
                        RecModel { seen_gpu_power: true, gpu_power_mw: opt_milli_i64(val), ..m },
                        after,
                    ),
                ),
                None => None,
            }
        }
    } else if key == ascii_seq("ane_power"@) {
        if m.seen_ane_power {
            None
        } else {
            match spec_opt_number(s, v) {
                Some((val, after)) => Some(
                    (
                        RecModel { seen_ane_power: true, ane_power_mw: opt_milli_i64(val), ..m },
                        after,
                    ),
                ),
                None => None,
            }
        }
    } else if key == ascii_seq("sys_power"@) {
        if m.seen_sys_power {
            None
        } else {
            match spec_opt_number(s, v) {
                Some((val, after)) => Some(
                    (
                        RecModel { seen_sys_power: true, sys_power_mw: opt_milli_i64(val), ..m },
                        after,
                    ),
                ),
                None => None,
            }
        }
    } else {
        match spec_skip_value(s, v) {
            Some(after) => Some((m, after)),
            None => None,
        }
    }
}

/// One record member from `pos`: blanks, a key, a colon, and its value.
pub open spec fn spec_record_member(s: Seq<u8>, pos: int, m: RecModel) -> Option<(RecModel, int)> {
    match spec_string(s, spec_skip_ws(s, pos)) {
        None => None,
        Some((key, after_key)) => {
            let colon = spec_skip_ws(s, after_key);
            if !(colon < s.len() && s[colon] == 58) {
                None
            } else {
                spec_record_step(s, key, spec_skip_ws(s, colon + 1), m)
            }
        },
    }
}

/// The members of a record, from after its opening brace.
pub open spec fn spec_record_members(s: Seq<u8>, pos: int, m: RecModel) -> Option<(RecModel, int)>
    decreases s.len() - pos,
{
    match spec_record_member(s, pos, m) {
        None => None,
        Some((m2, after_val)) => {
            let d = spec_skip_ws(s, after_val);
            if d < s.len() && s[d] == 125 {
                Some((m2, d + 1))
            } else if d < s.len() && s[d] == 44 && d >= pos {
                spec_record_members(s, d + 1, m2)
            } else {
                None
            }
        },
    }
}

/// One finished record, at specification level.
pub struct MacmonModel {
    pub timestamp: Seq<u8>,
    pub temp: Option<TemperatureInfo>,
    pub memory: Option<MemoryInfo>,
    pub ecpu_usage: Option<(i64, i64)>,
    pub pcpu_usage: Option<(i64, i64)>,
    pub gpu_usage: Option<(i64, i64)>,
    pub cpu_power_mw: Option<i64>,
    pub gpu_power_mw: Option<i64>,
    pub ane_power_mw: Option<i64>,
    pub sys_power_mw: Option<i64>,
}

/// The model of a parsed record value.
pub open spec fn spec_macmon_model(r: MacmonOutput) -> MacmonModel {
    MacmonModel {
        timestamp: r.timestamp@,
        temp: r.temp,
        memory: r.memory,
        ecpu_usage: r.ecpu_usage,
        pcpu_usage: r.pcpu_usage,
        gpu_usage: r.gpu_usage,
        cpu_power_mw: r.cpu_power_mw,
        gpu_power_mw: r.gpu_power_mw,
        ane_power_mw: r.ane_power_mw,
        sys_power_mw: r.sys_power_mw,
    }
}

/// What one whole line yields: blanks, one record object, blanks, the end
/// of the line; the capture timestamp is the one required member. Anything
/// else is malformed and the line is dropped.
pub open spec fn spec_parse_record(s: Seq<u8>) -> Option<MacmonModel> {
    let p0 = spec_skip_ws(s, 0);
    if !(p0 < s.len() && s[p0] == 123) {
        None
    } else {
        match spec_record_members(s, p0 + 1, spec_rec_empty()) {
            None => None,
            Some((m, after)) => {
                if spec_skip_ws(s, after) == s.len() && m.timestamp is Some {
                    Some(
                        MacmonModel {
                            timestamp: m.timestamp->0,
                            temp: m.temp,
                            memory: m.memory,
                            ecpu_usage: m.ecpu_usage,
                            pcpu_usage: m.pcpu_usage,
                            gpu_usage: m.gpu_usage,
                            cpu_power_mw: m.cpu_power_mw,
                            gpu_power_mw: m.gpu_power_mw,
                            ane_power_mw: m.ane_power_mw,
                            sys_power_mw: m.sys_power_mw,
                        },
                    )
                } else {
                    None
                }
            },
        }
    }
}

/// What the record reader has gathered, executably.
struct RecordBuilder {
    timestamp: Option<Vec<u8>>,
    seen_temp: bool,
    temp: Option<TemperatureInfo>,
    seen_memory: bool,
    memory: Option<MemoryInfo>,
    seen_ecpu: bool,
    ecpu_usage: Option<(i64, i64)>,
    seen_pcpu: bool,
    pcpu_usage: Option<(i64, i64)>,
    seen_gpu_usage: bool,
    gpu_usage: Option<(i64, i64)>,
    seen_cpu_power: bool,
    cpu_power_mw: Option<i64>,
    seen_gpu_power: bool,
    gpu_power_mw: Option<i64>,
    seen_ane_power: bool,
    ane_power_mw: Option<i64>,
    seen_sys_power: bool,
    sys_power_mw: Option<i64>,
}

/// The specification-level state an executable reader state stands for.
spec fn builder_model(b: RecordBuilder) -> RecModel {
    RecModel {
        timestamp: match b.timestamp {
            Some(v) => Some(v@),
            None => None,
        },
        seen_temp: b.seen_temp,
        temp: b.temp,
        seen_memory: b.seen_memory,
        memory: b.memory,
        seen_ecpu: b.seen_ecpu,
        ecpu_usage: b.ecpu_usage,
        seen_pcpu: b.seen_pcpu,
        pcpu_usage: b.pcpu_usage,
        seen_gpu_usage: b.seen_gpu_usage,
        gpu_usage: b.gpu_usage,
        seen_cpu_power: b.seen_cpu_power,
        cpu_power_mw: b.cpu_power_mw,
        seen_gpu_power: b.seen_gpu_power,
        gpu_power_mw: b.gpu_power_mw,
        seen_ane_power: b.seen_ane_power,
        ane_power_mw: b.ane_power_mw,
        seen_sys_power: b.seen_sys_power,
        sys_power_mw: b.sys_power_mw,
    }
}

/// Read a field value that is a two-number array or `null`, executably.
fn read_opt_pair(s: &Vec<u8>, pos: usize) -> (r: Option<(Option<(i64, i64)>, usize)>)
    requires
        pos <= s@.len(),
    ensures
        match r {
            Some((v, p)) => spec_opt_pair(s@, pos as int) matches Some(sv) && opt_pair_i64(sv.0)
                == v && sv.1 == p as int && pos < p <= s@.len(),
            None => spec_opt_pair(s@, pos as int) is None,
        },
{
    let n: usize = s.len();
    if check_null(s, pos) {
        proof {
            assert(pos + 4 <= n);
        }
        return Some((None, pos + 4));
    }
    match read_pair(s, pos) {
        Some((v, after)) => Some((Some(v), after)),
        None => None,
    }
}

/// Skip any one value, executably.
fn skip_value(s: &Vec<u8>, pos: usize) -> (r: Option<usize>)
    requires
        pos <= s@.len(),
    ensures
        match r {
            Some(p) => spec_skip_value(s@, pos as int) == Some(p as int) && pos < p <= s@.len(),
            None => spec_skip_value(s@, pos as int) is None,
        },
{
    match skip_scalar(s, pos) {
        Some(after) => Some(after),
        None => match read_pair(s, pos) {
            Some((_v, after)) => Some(after),
            None => skip_obj(s, pos),
        },
    }
}

/// The key patterns of the record grammar, built once per line.
struct RecordKeys {
    timestamp: Vec<u8>,
    temp: Vec<u8>,
    memory: Vec<u8>,
    ecpu: Vec<u8>,
    pcpu: Vec<u8>,
    gpu_usage: Vec<u8>,
    cpu_power: Vec<u8>,
    gpu_power: Vec<u8>,
    ane_power: Vec<u8>,
    sys_power: Vec<u8>,
}

/// The key patterns hold the bytes of their key names.
spec fn keys_wf(k: RecordKeys) -> bool {
    &&& k.timestamp@ == ascii_seq("timestamp"@)
    &&& k.temp@ == ascii_seq("temp"@)
    &&& k.memory@ == ascii_seq("memory"@)
    &&& k.ecpu@ == ascii_seq("ecpu_usage"@)
    &&& k.pcpu@ == ascii_seq("pcpu_usage"@)
    &&& k.gpu_usage@ == ascii_seq("gpu_usage"@)
    &&& k.cpu_power@ == ascii_seq("cpu_power"@)
    &&& k.gpu_power@ == ascii_seq("gpu_power"@)
    &&& k.ane_power@ == ascii_seq("ane_power"@)
    &&& k.sys_power@ == ascii_seq("sys_power"@)
}

/// Read one record member, executably.
#[verifier::rlimit(100)]
fn read_record_member(line: &Vec<u8>, cur: usize, keys: &RecordKeys, b: RecordBuilder) -> (r:
    Result<(RecordBuilder, usize), TelemetryError>)
    requires
        cur <= line@.len(),
        keys_wf(*keys),
    ensures
        match r {
            Ok(p) => spec_record_member(line@, cur as int, builder_model(b)) matches Some(v) && v.0
                == builder_model(p.0) && v.1 == p.1 as int && cur < p.1 <= line@.len(),
            Err(e) => e == TelemetryError::ParseError && spec_record_member(
                line@,
                cur as int,
                builder_model(b),
            ) is None,
        },
{
    let n: usize = line.len();
    let mut b = b;
    let (key, after_key) = match read_string(line, skip_ws(line, cur)) {
        Some(v) => v,
        None => {
            return Err(TelemetryError::ParseError);
        },
    };
    let colon: usize = skip_ws(line, after_key);
    if !(colon < n && line[colon] == 58) {
        return Err(TelemetryError::ParseError);
    }
    let v: usize = skip_ws(line, colon + 1);
    let after_val: usize = if bytes_eq(&key, &keys.timestamp) {
        if b.timestamp.is_some() {
            return Err(TelemetryError::ParseError);
        }
        match read_string(line, v) {
            Some((content, after)) => {
                b.timestamp = Some(content);
                after
            },
            None => {
                return Err(TelemetryError::ParseError);
            },
        }
    } else if bytes_eq(&key, &keys.temp) {
        if b.seen_temp {
            return Err(TelemetryError::ParseError);
        }
        if check_null(line, v) {
            b.seen_temp = true;
            b.temp = None;
            proof {
                assert(v + 4 <= n);
            }
            v + 4
        } else {
            match read_temp_obj(line, v) {
                Some((tb, after)) => {
                    b.seen_temp = true;
                    b.temp = Some(
                        TemperatureInfo { cpu_temp_avg_mc: tb.cpu, gpu_temp_avg_mc: tb.gpu },
                    );
                    after
                },
                None => {
                    return Err(TelemetryError::ParseError);
                },
            }
        }
    } else if bytes_eq(&key, &keys.memory) {
        if b.seen_memory {
            return Err(TelemetryError::ParseError);
        }
        if check_null(line, v) {
            b.seen_memory = true;
            b.memory = None;
            proof {
                assert(v + 4 <= n);
            }
            v + 4
        } else {
            match read_memory_obj(line, v) {
                Some((mb, after)) => {
                    b.seen_memory = true;
                    b.memory = Some(
                        MemoryInfo {
                            ram_total: mb.ram_total,
                            ram_usage: mb.ram_usage,
                            swap_total: mb.swap_total,
                            swap_usage: mb.swap_usage,
                        },
                    );
                    after
                },
                None => {
                    return Err(TelemetryError::ParseError);
                },
            }
        }
    } else if bytes_eq(&key, &keys.ecpu) {
        if b.seen_ecpu {
            return Err(TelemetryError::ParseError);
        }
        match read_opt_pair(line, v) {
            Some((val, after)) => {
                b.seen_ecpu = true;
                b.ecpu_usage = val;
                after
            },
            None => {
                return Err(TelemetryError::ParseError);
            },
        }
    } else if bytes_eq(&key, &keys.pcpu) {
        if b.seen_pcpu {
            return Err(TelemetryError::ParseError);
        }
        match read_opt_pair(line, v) {
            Some((val, after)) => {
                b.seen_pcpu = true;
                b.pcpu_usage = val;
                after
            },
            None => {
                return Err(TelemetryError::ParseError);
            },
        }
    } else if bytes_eq(&key, &keys.gpu_usage) {
        if b.seen_gpu_usage {
            return Err(TelemetryError::ParseError);
        }
        match read_opt_pair(line, v) {
            Some((val, after)) => {
                b.seen_gpu_usage = true;
                b.gpu_usage = val;
                after
            },
            None => {
                return Err(TelemetryError::ParseError);
            },
        }
    } else if bytes_eq(&key, &keys.cpu_power) {
        if b.seen_cpu_power {
            return Err(TelemetryError::ParseError);
        }
        match read_opt_number(line, v) {
            Some((val, after)) => {
                b.seen_cpu_power = true;
                b.cpu_power_mw = val;
                after
            },
            None => {
                return Err(TelemetryError::ParseError);
            },
        }
    } else if bytes_eq(&key, &keys.gpu_power) {
        if b.seen_gpu_power {
            return Err(TelemetryError::ParseError);
        }
        match read_opt_number(line, v) {
            Some((val, after)) => {
                b.seen_gpu_power = true;
                b.gpu_power_mw = val;
                after
            },
            None => {
                return Err(TelemetryError::ParseError);
            },
        }
    } else if bytes_eq(&key, &keys.ane_power) {
        if b.seen_ane_power {
            return Err(TelemetryError::ParseError);
        }
        match read_opt_number(line, v) {
            Some((val, after)) => {
                b.seen_ane_power = true;
                b.ane_power_mw = val;
                after
            },
            None => {
                return Err(TelemetryError::ParseError);
            },
        }
    } else if bytes_eq(&key, &keys.sys_power) {
        if b.seen_sys_power {
            return Err(TelemetryError::ParseError);
        }
        match read_opt_number(line, v) {
            Some((val, after)) => {
                b.seen_sys_power = true;
                b.sys_power_mw = val;
                after
            },
            None => {
                return Err(TelemetryError::ParseError);
            },
        }
    } else {
        match skip_value(line, v) {
            Some(after) => after,
            None => {
                return Err(TelemetryError::ParseError);
            },
        }
    };
    Ok((b, after_val))
}

/// Parse one line of the external process's output into a record. A
/// malformed line yields the parse error and is dropped by the caller; the
/// stream itself goes on.
pub fn parse_macmon_line(line: &Vec<u8>) -> (r: Result<MacmonOutput, TelemetryError>)
    ensures
        match r {
            Ok(rec) => spec_parse_record(line@) == Some(spec_macmon_model(rec)),
            Err(e) => e == TelemetryError::ParseError && spec_parse_record(line@) is None,
        },
{
    let n: usize = line.len();
    let p0: usize = skip_ws(line, 0);
    if !(p0 < n && line[p0] == 123) {
        return Err(TelemetryError::ParseError);
    }
    let keys = RecordKeys {
        timestamp: str_to_ascii_bytes("timestamp"),
        temp: str_to_ascii_bytes("temp"),
        memory: str_to_ascii_bytes("memory"),
        ecpu: str_to_ascii_bytes("ecpu_usage"),
        pcpu: str_to_ascii_bytes("pcpu_usage"),
        gpu_usage: str_to_ascii_bytes("gpu_usage"),
        cpu_power: str_to_ascii_bytes("cpu_power"),
        gpu_power: str_to_ascii_bytes("gpu_power"),
        ane_power: str_to_ascii_bytes("ane_power"),
        sys_power: str_to_ascii_bytes("sys_power"),
    };
    let mut b = RecordBuilder {
        timestamp: None,
        seen_temp: false,
        temp: None,
        seen_memory: false,
        memory: None,
        seen_ecpu: false,
        ecpu_usage: None,
        seen_pcpu: false,
        pcpu_usage: None,
        seen_gpu_usage: false,
        gpu_usage: None,
        seen_cpu_power: false,
        cpu_power_mw: None,
        seen_gpu_power: false,
        gpu_power_mw: None,
        seen_ane_power: false,
        ane_power_mw: None,
        seen_sys_power: false,
        sys_power_mw: None,
    };
    let mut cur: usize = p0 + 1;
    let mut after_members: usize = 0;
    loop
        invariant_except_break
            spec_record_members(line@, p0 + 1, spec_rec_empty()) == spec_record_members(
                line@,
                cur as int,
                builder_model(b),
            ),
        invariant
            p0 + 1 <= cur <= n,
            n == line@.len(),
            keys_wf(keys),
            p0 as int == spec_skip_ws(line@, 0),
            p0 < n,
            line@[p0 as int] == 123,
        ensures
            spec_record_members(line@, p0 + 1, spec_rec_empty()) matches Some(v) && v.0
                == builder_model(b) && v.1 == after_members as int && after_members <= n,
        decreases n - cur,
    {
        let ghost b_head = b;
        let (b2, after_val) = match read_record_member(line, cur, &keys, b) {
            Ok(p) => p,
            Err(_e) => {
                proof {
                    assert(spec_record_member(line@, cur as int, builder_model(b_head)) is None);
                    assert(spec_record_members(line@, cur as int, builder_model(b_head)) is None);
                    assert(spec_record_members(line@, p0 + 1, spec_rec_empty()) is None);
                    assert(spec_skip_ws(line@, 0) == p0 as int);
                    assert(spec_parse_record(line@) is None);
                }
                return Err(TelemetryError::ParseError);
            },
        };
        b = b2;
        let d: usize = skip_ws(line, after_val);
        if d < n && line[d] == 125 {
            after_members = d + 1;
            break;
        }
        if d < n && line[d] == 44 {
            cur = d + 1;
        } else {
            proof {
                assert(spec_record_members(line@, cur as int, builder_model(b_head)) is None);
                assert(spec_record_members(line@, p0 + 1, spec_rec_empty()) is None);
                assert(spec_skip_ws(line@, 0) == p0 as int);
                assert(spec_parse_record(line@) is None);
            }
            return Err(TelemetryError::ParseError);
        }
    }
    if !(skip_ws(line, after_members) == n) {
        proof {
            assert(spec_record_members(line@, p0 + 1, spec_rec_empty()) matches Some(v) && v.1
                == after_members as int);
            assert(spec_skip_ws(line@, after_members as int) != line@.len());
            assert(spec_parse_record(line@) is None);
        }
        return Err(TelemetryError::ParseError);
    }
    let timestamp: Vec<u8> = match b.timestamp {
        Some(t) => t,
        None => {
            return Err(TelemetryError::ParseError);
        },
    };
    Ok(
        MacmonOutput {
            timestamp,
            temp: b.temp,
            memory: b.memory,
            ecpu_usage: b.ecpu_usage,
            pcpu_usage: b.pcpu_usage,
            gpu_usage: b.gpu_usage,
            cpu_power_mw: b.cpu_power_mw,
            gpu_power_mw: b.gpu_power_mw,
            ane_power_mw: b.ane_power_mw,
            sys_power_mw: b.sys_power_mw,
        },
    )
}

} // verus!
