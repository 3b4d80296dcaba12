//! Verified parsing of integer and duration payloads.
//!
//! These two payload shapes are parsed and validated here, in verified code,
//! against their exact grammars: a decimal integer checked against the
//! property's range format (with step rounding), and an ISO-8601 duration of
//! the `PT..H..M..S` form.  A payload whose value cannot be represented is
//! dropped as malformed rather than accepted.  Every other payload shape
//! goes through the trusted parser of the discovery module.
use vstd::arithmetic::div_mod::{
    lemma_fundamental_div_mod, lemma_fundamental_div_mod_converse_div,
    lemma_mod_division_less_than_divisor,
};
use vstd::prelude::*;
use vstd::string::*;

verus! {

/// Whether the character is a decimal digit.
pub open spec fn is_digit(c: char) -> bool {
    ('0' as u32) <= (c as u32) && (c as u32) <= ('9' as u32)
}

/// The numeric value of a decimal digit.
pub open spec fn digit_val(c: char) -> nat {
    ((c as int) - ('0' as int)) as nat
}

/// Whether every character of the sequence is a decimal digit.
pub open spec fn all_digits(s: Seq<char>) -> bool {
    forall|i: int| 0 <= i < s.len() ==> is_digit(#[trigger] s[i])
}

/// The value of a digit sequence read as a decimal number.
pub open spec fn digits_value(s: Seq<char>) -> nat
    decreases s.len(),
{
    if s.len() == 0 {
        0
    } else {
        digits_value(s.drop_last()) * 10 + digit_val(s.last())
    }
}

/// Where the run of digits starting at `from` ends.
pub open spec fn take_digits(s: Seq<char>, from: int) -> int
    decreases s.len() - from,
{
    if from < s.len() && is_digit(s[from]) {
        take_digits(s, from + 1)
    } else {
        from
    }
}

proof fn lemma_take_digits_bounds(s: Seq<char>, from: int)
    requires
        0 <= from <= s.len(),
    ensures
        from <= take_digits(s, from) <= s.len(),
        forall|j: int| from <= j < take_digits(s, from) ==> is_digit(#[trigger] s[j]),
        take_digits(s, from) < s.len() ==> !is_digit(s[take_digits(s, from)]),
    decreases s.len() - from,
{
    if from < s.len() && is_digit(s[from]) {
        lemma_take_digits_bounds(s, from + 1);
    }
}

/// Scans the run of digits beginning at `from`: where it ends, and its
/// value unless that value exceeds `u64`.
fn scan_digits(s: &str, from: usize) -> (r: (usize, Option<u64>))
    requires
        from <= s@.len(),
    ensures
        r.0 as int == take_digits(s@, from as int),
        match r.1 {
            Some(v) => v as nat == digits_value(s@.subrange(from as int, r.0 as int)),
            None => digits_value(s@.subrange(from as int, r.0 as int)) > u64::MAX,
        },
{
    let len: usize = s.unicode_len();
    let mut i: usize = from;
    let mut acc: u64 = 0;
    let mut over: bool = false;
    proof {
        assert(s@.subrange(from as int, from as int) =~= Seq::<char>::empty());
    }
    loop
        invariant
            from <= i <= len,
            len == s@.len(),
            take_digits(s@, from as int) == take_digits(s@, i as int),
            forall|j: int| from <= j < i ==> is_digit(#[trigger] s@[j]),
            !over ==> acc as nat == digits_value(s@.subrange(from as int, i as int)),
            over ==> digits_value(s@.subrange(from as int, i as int)) > u64::MAX,
        ensures
            from <= i <= len,
            take_digits(s@, from as int) == i as int,
            !over ==> acc as nat == digits_value(s@.subrange(from as int, i as int)),
            over ==> digits_value(s@.subrange(from as int, i as int)) > u64::MAX,
        decreases len - i,
    {
        if i == len {
            break ;
        }
        let c = s.get_char(i);
        let d_ok = ('0' as u32) <= (c as u32) && (c as u32) <= ('9' as u32);
        if !d_ok {
            break ;
        }
        let d: u64 = ((c as u32) - ('0' as u32)) as u64;
        proof {
            assert(s@.subrange(from as int, i + 1).drop_last() =~= s@.subrange(
                from as int,
                i as int,
            ));
            assert(s@.subrange(from as int, i + 1).last() == s@[i as int]);
        }
        let ghost prev_val = digits_value(s@.subrange(from as int, i as int));
        proof {
            assert(digits_value(s@.subrange(from as int, i + 1)) == prev_val * 10 + digit_val(
                s@[i as int],
            ));
            assert(d as nat == digit_val(s@[i as int]));
        }
        if !over {
            let grown = match acc.checked_mul(10) {
                Some(t) => t.checked_add(d),
                None => None,
            };
            match grown {
                Some(n) => {
                    acc = n;
                },
                None => {
                    over = true;
                    proof {
                        assert(prev_val * 10 + digit_val(s@[i as int]) > u64::MAX);
                    }
                },
            }
        } else {
            proof {
                assert(prev_val * 10 >= prev_val * 1) by (nonlinear_arith);
            }
        }
        i = i + 1;
    }
    (i, if over {
        None
    } else {
        Some(acc)
    })
}

/// The mathematical value of a signed decimal text: an optional sign, then
/// at least one digit, nothing else.
pub open spec fn int_text_value(s: Seq<char>) -> Option<int> {
    if s.len() == 0 {
        None
    } else {
        let neg = s[0] == '-';
        let ds = if s[0] == '-' || s[0] == '+' {
            s.drop_first()
        } else {
            s
        };
        if ds.len() > 0 && all_digits(ds) {
            if neg {
                Some(-(digits_value(ds) as int))
            } else {
                Some(digits_value(ds) as int)
            }
        } else {
            None
        }
    }
}

/// The value of a signed decimal text when it fits a 64-bit integer; `None`
/// for any other text.
pub open spec fn parse_i64_spec(s: Seq<char>) -> Option<i64> {
    match int_text_value(s) {
        Some(v) => if i64::MIN <= v <= i64::MAX {
            Some(v as i64)
        } else {
            None
        },
        None => None,
    }
}

/// Decides [`parse_i64_spec`].
pub fn parse_i64(s: &str) -> (r: Option<i64>)
    ensures
        r == parse_i64_spec(s@),
{
    let len: usize = s.unicode_len();
    if len == 0 {
        return None;
    }
    let first = s.get_char(0);
    let neg = first == '-';
    let start: usize = if first == '-' || first == '+' {
        1
    } else {
        0
    };
    let (end, val) = scan_digits(s, start);
    proof {
        lemma_take_digits_bounds(s@, start as int);
        if start == 1 {
            assert(s@.drop_first() =~= s@.subrange(1, len as int));
        }
    }
    if end != len || end == start {
        proof {
            let ds = if start == 1 {
                s@.drop_first()
            } else {
                s@
            };
            if ds.len() > 0 && all_digits(ds) && (end as int) < s@.len() {
                assert(is_digit(ds[end as int - start as int]));
                assert(ds[end as int - start as int] == s@[end as int]);
            }
        }
        return None;
    }
    proof {
        assert(s@.subrange(start as int, len as int) =~= (if start == 1 {
            s@.drop_first()
        } else {
            s@
        }));
    }
    match val {
        None => None,
        Some(v) => {
            if neg {
                if v < 9223372036854775808u64 {
                    Some(-(v as i64))
                } else if v == 9223372036854775808u64 {
                    Some(i64::MIN)
                } else {
                    None
                }
            } else {
                if v <= 9223372036854775807u64 {
                    Some(v as i64)
                } else {
                    None
                }
            }
        },
    }
}

/// Where the segment starting at `from` ends: at the next separator or at
/// the end of the text.
pub open spec fn seg_end(s: Seq<char>, from: int) -> int
    decreases s.len() - from,
{
    if from < s.len() && s[from] != ':' {
        seg_end(s, from + 1)
    } else {
        from
    }
}

proof fn lemma_seg_end_bounds(s: Seq<char>, from: int)
    requires
        0 <= from <= s.len(),
    ensures
        from <= seg_end(s, from) <= s.len(),
    decreases s.len() - from,
{
    if from < s.len() && s[from] != ':' {
        lemma_seg_end_bounds(s, from + 1);
    }
}

/// Decides [`seg_end`].
fn seg_end_exec(s: &str, from: usize) -> (r: usize)
    requires
        from <= s@.len(),
    ensures
        r as int == seg_end(s@, from as int),
        from <= r <= s@.len(),
{
    let len: usize = s.unicode_len();
    let mut i: usize = from;
    loop
        invariant
            from <= i <= len,
            len == s@.len(),
            seg_end(s@, from as int) == seg_end(s@, i as int),
        ensures
            from <= i <= len,
            seg_end(s@, from as int) == i as int,
        decreases len - i,
    {
        if i == len {
            break ;
        }
        if s.get_char(i) == ':' {
            break ;
        }
        i = i + 1;
    }
    i
}

/// A numeric range a property's format can declare: optional bounds and an
/// optional positive step the value is snapped to.
#[derive(Clone, Copy, PartialEq, Eq, Structural, Debug)]
pub struct IntegerRange {
    pub min: Option<i64>,
    pub max: Option<i64>,
    pub step: Option<i64>,
}

/// An optional field of a range text: absent when the segment is empty,
/// rejected when it is not an integer.
pub open spec fn range_field(seg: Seq<char>) -> Option<Option<i64>> {
    if seg.len() == 0 {
        Some(None)
    } else {
        match parse_i64_spec(seg) {
            Some(v) => Some(Some(v)),
            None => None,
        }
    }
}

/// Whether the three fields make a well-formed range: a positive step, a
/// min not above the max, and a step no wider than their distance.
pub open spec fn valid_integer_range(min: Option<i64>, max: Option<i64>, step: Option<i64>) -> bool {
    &&& (match step {
        Some(st) => st > 0,
        None => true,
    })
    &&& (match (min, max) {
        (Some(mn), Some(mx)) => mn <= mx && (match step {
            Some(st) => st <= mx - mn,
            None => true,
        }),
        _ => true,
    })
}

/// The range a format text declares: one to three separator-split segments,
/// each empty or an integer, forming a well-formed range.
pub open spec fn integer_range_of(s: Seq<char>) -> Option<IntegerRange> {
    let e1 = seg_end(s, 0);
    let f1 = range_field(s.subrange(0, e1));
    if e1 == s.len() {
        make_range(f1, Some(None), Some(None))
    } else {
        let e2 = seg_end(s, e1 + 1);
        let f2 = range_field(s.subrange(e1 + 1, e2));
        if e2 == s.len() {
            make_range(f1, f2, Some(None))
        } else {
            let e3 = seg_end(s, e2 + 1);
            if e3 != s.len() {
                None
            } else {
                make_range(f1, f2, range_field(s.subrange(e2 + 1, e3)))
            }
        }
    }
}

/// Combines the three parsed fields, rejecting an invalid field or an
/// ill-formed range.
pub open spec fn make_range(
    f1: Option<Option<i64>>,
    f2: Option<Option<i64>>,
    f3: Option<Option<i64>>,
) -> Option<IntegerRange> {
    match (f1, f2, f3) {
        (Some(min), Some(max), Some(step)) => if valid_integer_range(min, max, step) {
            Some(IntegerRange { min, max, step })
        } else {
            None
        },
        _ => None,
    }
}

/// Decides [`range_field`] on the segment between two indices.
fn range_field_exec(s: &str, from: usize, to: usize) -> (r: Option<Option<i64>>)
    requires
        from <= to <= s@.len(),
    ensures
        r == range_field(s@.subrange(from as int, to as int)),
{
    if from == to {
        proof {
            assert(s@.subrange(from as int, to as int) =~= Seq::<char>::empty());
        }
        return Some(None);
    }
    let seg = s.substring_char(from, to);
    match parse_i64(seg) {
        Some(v) => Some(Some(v)),
        None => None,
    }
}

/// Decides [`integer_range_of`].
pub fn parse_integer_range(s: &str) -> (r: Option<IntegerRange>)
    ensures
        r == integer_range_of(s@),
{
    let len: usize = s.unicode_len();
    let e1 = seg_end_exec(s, 0);
    let f1 = range_field_exec(s, 0, e1);
    let (f2, f3) = if e1 == len {
        (Some(None), Some(None))
    } else {
        let e2 = seg_end_exec(s, e1 + 1);
        let f2 = range_field_exec(s, e1 + 1, e2);
        if e2 == len {
            (f2, Some(None))
        } else {
            let e3 = seg_end_exec(s, e2 + 1);
            if e3 != len {
                return None;
            }
            (f2, range_field_exec(s, e2 + 1, e3))
        }
    };
    match (f1, f2, f3) {
        (Some(min), Some(max), Some(step)) => {
            let step_ok = match step {
                Some(st) => st > 0,
                None => true,
            };
            let bounds_ok = match (min, max) {
                (Some(mn), Some(mx)) => mn <= mx && (match step {
                    Some(st) => (st as i128) <= (mx as i128) - (mn as i128),
                    None => true,
                }),
                _ => true,
            };
            if step_ok && bounds_ok {
                Some(IntegerRange { min, max, step })
            } else {
                None
            }
        },
        _ => None,
    }
}

/// The value a stepped range snaps `v` to: the nearest multiple of the step
/// above the base, halves rounding up.
pub open spec fn snapped(v: int, base: int, step: int) -> int
    recommends
        step > 0,
{
    base + ((2 * (v - base) + step) / (2 * step)) * step
}

/// Floor division of `n` by a positive divisor, computed without signed
/// machine division.
fn floor_div_pos(n: i128, d: i128) -> (r: i128)
    requires
        d > 0,
        -0x4000_0000_0000_0000_0000_0000_0000_0000 < n,
    ensures
        r == n as int / d as int,
{
    if n >= 0 {
        let q = (n as u128) / (d as u128);
        q as i128
    } else {
        let m = (-n) as u128;
        let du = d as u128;
        let c = (m - 1) / du + 1;
        proof {
            let q0 = (m as int - 1) / du as int;
            let r0 = (m as int - 1) % du as int;
            lemma_fundamental_div_mod(m as int - 1, du as int);
            lemma_mod_division_less_than_divisor(m as int - 1, du as int);
            assert((-(q0 + 1)) * (d as int) == -((d as int) * q0) - (d as int))
                by (nonlinear_arith);
            lemma_fundamental_div_mod_converse_div(
                n as int,
                d as int,
                -(q0 + 1),
                d as int - 1 - r0,
            );
        }
        -(c as i128)
    }
}

/// The validated value for an integer payload against an optional range:
/// snapped to the step and inside the bounds, or rejected.  A snapped value
/// beyond the 64-bit range is rejected as malformed.
pub open spec fn validate_int_spec(v: i64, range: Option<IntegerRange>) -> Option<i64> {
    match range {
        None => Some(v),
        Some(rg) => {
            let base = match rg.min {
                Some(m) => m as int,
                None => match rg.max {
                    Some(m) => m as int,
                    None => v as int,
                },
            };
            let rounded = match rg.step {
                Some(st) => if st > 0 {
                    snapped(v as int, base, st as int)
                } else {
                    v as int
                },
                None => v as int,
            };
            if (match rg.min {
                Some(mn) => rounded >= mn,
                None => true,
            }) && (match rg.max {
                Some(mx) => rounded <= mx,
                None => true,
            }) && i64::MIN <= rounded <= i64::MAX {
                Some(rounded as i64)
            } else {
                None
            }
        },
    }
}

/// Decides [`validate_int_spec`].
pub fn validate_int(v: i64, range: &Option<IntegerRange>) -> (r: Option<i64>)
    ensures
        r == validate_int_spec(v, *range),
{
    let rg = match range {
        None => {
            return Some(v);
        },
        Some(rg) => rg,
    };
    let base: i64 = match rg.min {
        Some(m) => m,
        None => match rg.max {
            Some(m) => m,
            None => v,
        },
    };
    let rounded: i128 = match rg.step {
        Some(st) => if st > 0 {
            let num: i128 = 2 * ((v as i128) - (base as i128)) + (st as i128);
            let den: i128 = 2 * (st as i128);
            let q = floor_div_pos(num, den);
            proof {
                lemma_div_bounds(num as int, den as int);
                assert((2 * (st as int)) * (q as int) == 2 * ((q as int) * (st as int)))
                    by (nonlinear_arith);
            }
            (base as i128) + q * (st as i128)
        } else {
            v as i128
        },
        None => v as i128,
    };
    let min_ok = match rg.min {
        Some(mn) => rounded >= mn as i128,
        None => true,
    };
    let max_ok = match rg.max {
        Some(mx) => rounded <= mx as i128,
        None => true,
    };
    if min_ok && max_ok && (i64::MIN as i128) <= rounded && rounded <= (i64::MAX as i128) {
        Some(rounded as i64)
    } else {
        None
    }
}

/// The quotient of a division by a positive divisor lies within the scaled
/// bounds of the dividend.
proof fn lemma_div_bounds(n: int, d: int)
    requires
        d > 0,
    ensures
        d * (n / d) <= n < d * (n / d) + d,
{
    lemma_fundamental_div_mod(n, d);
}

/// The value an integer payload yields against a format text: the payload
/// must be a decimal integer, and the format either declares no range (any
/// text that is not a range rejects every payload the way an undeclared
/// format accepts them) or a range the value is validated against.
pub open spec fn integer_payload_value(raw: Seq<char>, format: Seq<char>) -> Option<i64> {
    match parse_i64_spec(raw) {
        None => None,
        Some(v) => if format.len() == 0 {
            Some(v)
        } else {
            match integer_range_of(format) {
                Some(rg) => validate_int_spec(v, Some(rg)),
                None => None,
            }
        },
    }
}

/// Decides [`integer_payload_value`].
pub fn parse_integer_payload(raw: &str, format: &str) -> (r: Option<i64>)
    ensures
        r == integer_payload_value(raw@, format@),
{
    let v = match parse_i64(raw) {
        Some(v) => v,
        None => {
            return None;
        },
    };
    if format.unicode_len() == 0 {
        return Some(v);
    }
    match parse_integer_range(format) {
        Some(rg) => validate_int(v, &Some(rg)),
        None => None,
    }
}

/// One duration group: its value and where the text continues, when a run
/// of digits followed by the marker starts at `from`.
pub open spec fn duration_group(s: Seq<char>, from: int, marker: char) -> Option<(nat, int)>
    recommends
        0 <= from <= s.len(),
{
    let j = take_digits(s, from);
    if j > from && j < s.len() && s[j] == marker {
        Some((digits_value(s.subrange(from, j)), j + 1))
    } else {
        None
    }
}

/// The hour, minute and second counts of a duration text of the form
/// `PT(<digits>H)?(<digits>M)?(<digits>S)?`, with at least one group.
pub open spec fn duration_parts(s: Seq<char>) -> Option<(nat, nat, nat)> {
    if s.len() < 2 || s[0] != 'P' || s[1] != 'T' {
        None
    } else {
        let (h, i1) = match duration_group(s, 2, 'H') {
            Some(g) => g,
            None => (0nat, 2int),
        };
        let (m, i2) = match duration_group(s, i1, 'M') {
            Some(g) => g,
            None => (0nat, i1),
        };
        let (sec, i3) = match duration_group(s, i2, 'S') {
            Some(g) => g,
            None => (0nat, i2),
        };
        if i3 == s.len() && i3 > 2 {
            Some((h, m, sec))
        } else {
            None
        }
    }
}

/// The milliseconds a duration text stands for; a total beyond the 64-bit
/// millisecond range is rejected as malformed.
pub open spec fn duration_millis_of(s: Seq<char>) -> Option<i64> {
    match duration_parts(s) {
        None => None,
        Some((h, m, sec)) => {
            let total = h * 3600 + m * 60 + sec;
            if total * 1000 <= i64::MAX {
                Some((total * 1000) as i64)
            } else {
                None
            }
        },
    }
}

/// Scans one duration group in executable code.
fn duration_group_exec(s: &str, from: usize, marker: char) -> (r: Option<(Option<u64>, usize)>)
    requires
        from <= s@.len(),
    ensures
        match duration_group(s@, from as int, marker) {
            Some((value, next)) => r matches Some((val, n)) && n as int == next && (match val {
                Some(v) => v as nat == value,
                None => value > u64::MAX,
            }),
            None => r is None,
        },
{
    let (j, val) = scan_digits(s, from);
    proof {
        lemma_take_digits_bounds(s@, from as int);
    }
    if j > from && j < s.unicode_len() && s.get_char(j) == marker {
        Some((val, j + 1))
    } else {
        None
    }
}

/// Decides [`duration_millis_of`].
pub fn parse_duration_millis(s: &str) -> (r: Option<i64>)
    ensures
        r == duration_millis_of(s@),
{
    let len: usize = s.unicode_len();
    if len < 2 {
        return None;
    }
    if !(s.get_char(0) == 'P' && s.get_char(1) == 'T') {
        return None;
    }
    let (h, i1): (Option<u64>, usize) = match duration_group_exec(s, 2, 'H') {
        Some((v, n)) => (v, n),
        None => (Some(0), 2),
    };
    let (m, i2): (Option<u64>, usize) = match duration_group_exec(s, i1, 'M') {
        Some((v, n)) => (v, n),
        None => (Some(0), i1),
    };
    let (sec, i3): (Option<u64>, usize) = match duration_group_exec(s, i2, 'S') {
        Some((v, n)) => (v, n),
        None => (Some(0), i2),
    };
    if !(i3 == len && i3 > 2) {
        return None;
    }
    let total: Option<u64> = match (h, m, sec) {
        (Some(hv), Some(mv), Some(sv)) => {
            match hv.checked_mul(3600) {
                Some(hs) => match mv.checked_mul(60) {
                    Some(ms) => match hs.checked_add(ms) {
                        Some(hm) => hm.checked_add(sv),
                        None => None,
                    },
                    None => None,
                },
                None => None,
            }
        },
        _ => None,
    };
    match total {
        Some(t) => {
            if t <= 9223372036854775u64 {
                Some((t * 1000) as i64)
            } else {
                None
            }
        },
        None => {
            proof {
                lemma_overflowing_duration(duration_parts(s@)->Some_0);
            }
            None
        },
    }
}

/// A duration whose parts overflow the machine arithmetic is over the
/// millisecond bound as well.
proof fn lemma_overflowing_duration(parts: (nat, nat, nat))
    requires
        parts.0 > u64::MAX || parts.1 > u64::MAX || parts.2 > u64::MAX || parts.0 * 3600
            > u64::MAX || parts.1 * 60 > u64::MAX || parts.0 * 3600 + parts.1 * 60 + parts.2
            > u64::MAX,
    ensures
        (parts.0 * 3600 + parts.1 * 60 + parts.2) * 1000 > i64::MAX,
{
    let total = parts.0 * 3600 + parts.1 * 60 + parts.2;
    assert(parts.0 * 3600 >= parts.0) by (nonlinear_arith);
    assert(parts.1 * 60 >= parts.1) by (nonlinear_arith);
    assert(total > u64::MAX);
    assert(total * 1000 >= total) by (nonlinear_arith);
}

} // verus!
