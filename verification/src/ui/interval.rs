//! The interval between loops, as it is typed and shown.

use vstd::prelude::*;

use crate::model;
use crate::text;
use crate::text::push_dec;

verus! {

/// The units in which an interval is typed: milliseconds, seconds, minutes, hours.
pub open spec fn unit_ms(unit: usize) -> int {
    if unit == 1 {
        1000
    } else if unit == 2 {
        60_000
    } else if unit == 3 {
        3_600_000
    } else {
        1
    }
}

/// Whether a time is a whole number of a unit, not zero.
pub open spec fn whole(ms: i32, unit: usize) -> bool {
    ms != 0 && ms as int % unit_ms(unit) == 0
}

/// The largest unit of which a time is a whole number.
pub open spec fn unit_of(ms: i32) -> usize {
    if whole(ms, 3) {
        3
    } else if whole(ms, 2) {
        2
    } else if whole(ms, 1) {
        1
    } else {
        0
    }
}

/// A time in the largest unit of which it is a whole number.
pub open spec fn spec_split(ms: i32) -> (i32, usize) {
    ((ms as int / unit_ms(unit_of(ms))) as i32, unit_of(ms))
}

/// A time in the largest unit of which it is a whole number.
pub fn split_interval_ms(total_ms: i32) -> (r: (i32, usize))
    ensures
        r == spec_split(total_ms),
{
    if total_ms == 0 {
        return (0, 0);
    }
    let negative: bool = total_ms < 0;
    let ms: i64 = if negative {
        -(total_ms as i64)
    } else {
        total_ms as i64
    };
    let (value, unit): (i64, usize) = if ms % 3_600_000 == 0 {
        (ms / 3_600_000, 3)
    } else if ms % 60_000 == 0 {
        (ms / 60_000, 2)
    } else if ms % 1000 == 0 {
        (ms / 1000, 1)
    } else {
        (ms, 0)
    };
    let signed: i64 = if negative {
        -value
    } else {
        value
    };
    (signed as i32, unit)
}

/// The milliseconds of a time in a unit, brought into bounds.
pub open spec fn spec_compose(value: i32, unit: usize) -> i32 {
    model::clamp(value * unit_ms(unit), 0, i32::MAX as int) as i32
}

/// The milliseconds of a time in a unit, brought into bounds.
pub fn compose_interval_ms(value: i32, unit: usize) -> (r: i32)
    ensures
        r == spec_compose(value, unit),
{
    let v: i64 = value as i64;
    let ms: i64 = match unit {
        1 => v * 1000,
        2 => v * 60_000,
        3 => v * 3_600_000,
        _ => v,
    };
    if ms < 0 {
        0
    } else if ms > 0x7fff_ffff {
        i32::MAX
    } else {
        ms as i32
    }
}

/// The letters of a unit.
pub open spec fn unit_suffix(unit: usize) -> Seq<char> {
    if unit == 3 {
        "h"@
    } else if unit == 2 {
        "m"@
    } else if unit == 1 {
        "s"@
    } else {
        "ms"@
    }
}

/// A time as it is shown, in the largest unit of which it is a whole number.
pub open spec fn spec_format(ms: i32) -> Seq<char> {
    let (value, unit) = spec_split(ms);
    text::dec(value as int) + unit_suffix(unit)
}

/// A time as it is shown.
pub fn format_interval(ms: i32) -> (r: String)
    ensures
        r@ == spec_format(ms),
{
    let (value, unit) = split_interval_ms(ms);
    let mut s: String = "".to_owned();
    proof {
        reveal_strlit("");
    }
    push_dec(&mut s, value as i64);
    match unit {
        3 => s.append("h"),
        2 => s.append("m"),
        1 => s.append("s"),
        _ => s.append("ms"),
    }
    proof {
        assert(s@ =~= spec_format(ms));
    }
    s
}

/// The name of a unit in the list of units.
pub fn unit_name(unit: usize) -> (r: &'static str)
    ensures
        r@ == (if unit == 1 {
            "sec"@
        } else if unit == 2 {
            "min"@
        } else if unit == 3 {
            "hr"@
        } else {
            "ms"@
        }),
{
    match unit {
        1 => "sec",
        2 => "min",
        3 => "hr",
        _ => "ms",
    }
}

proof fn lemma_split_is_exact(ms: i32)
    ensures
        spec_split(ms).0 * unit_ms(spec_split(ms).1) == ms,
{
    let n = ms as int;
    let value = spec_split(ms).0 as int;
    let unit = unit_ms(spec_split(ms).1);
    assert(unit == 3_600_000 || unit == 60_000 || unit == 1000 || unit == 1);
    assert(-0x8000_0000 <= n / unit <= 0x7fff_ffff) by (nonlinear_arith)
        requires
            -0x8000_0000 <= n <= 0x7fff_ffff,
            unit >= 1,
    ;
    assert(value * unit == n) by (nonlinear_arith)
        requires
            value == n / unit,
            n % unit == 0,
            unit > 0,
    ;
}

/// Splitting a time and putting it together again gives it back.
pub proof fn law_compose_undoes_split(ms: i32)
    requires
        ms >= 0,
    ensures
        spec_compose(spec_split(ms).0, spec_split(ms).1) == ms,
{
    lemma_split_is_exact(ms);
}

/// A negative time is put together as none.
pub proof fn law_negative_interval_is_none(ms: i32)
    requires
        ms < 0,
    ensures
        spec_compose(spec_split(ms).0, spec_split(ms).1) == 0,
{
    lemma_split_is_exact(ms);
}

/// A second has a thousand milliseconds, a minute sixty seconds and an hour sixty minutes. A
/// time that is negative is none, and one that is too long is as long as can be.
pub proof fn law_units_are_as_long_as_they_are(value: i32, unit: usize, r: i32)
    requires
        call_ensures(compose_interval_ms, (value, unit), r),
    ensures
        value <= 0 ==> r == 0,
        value > 0 && unit == 1 ==> r == 1000 * value || (1000 * value > i32::MAX && r == i32::MAX),
        value > 0 && unit == 2 ==> r == 60_000 * value || (60_000 * value > i32::MAX && r
            == i32::MAX),
        value > 0 && unit == 3 ==> r == 3_600_000 * value || (3_600_000 * value
            > i32::MAX && r == i32::MAX),
        value > 0 && !(1 <= unit <= 3) ==> r == value,
{
    if !(1 <= unit <= 3) {
        assert(value * unit_ms(unit) == value);
    }
}

/// A time is split into the largest unit of which it is a whole number.
pub proof fn law_largest_unit_is_taken(ms: i32, r: (i32, usize))
    requires
        ms > 0,
        call_ensures(split_interval_ms, (ms,), r),
    ensures
        r.0 > 0,
        r.1 <= 3,
        r.1 == 3 ==> 3_600_000 * r.0 == ms,
        r.1 == 2 ==> 60_000 * r.0 == ms && r.0 as int % 60 != 0,
        r.1 == 1 ==> 1000 * r.0 == ms && r.0 as int % 60 != 0,
        r.1 == 0 ==> r.0 == ms && ms as int % 1000 != 0,
{
    lemma_split_is_exact(ms);
}

/// A time is shown as its number and the letters of its unit: hours, minutes, seconds or
/// milliseconds.
pub proof fn law_shown_time_has_its_unit(ms: i32, parts: (i32, usize), r: String)
    requires
        ms >= 0,
        call_ensures(split_interval_ms, (ms,), parts),
        call_ensures(format_interval, (ms,), r),
    ensures
        ({
            let letters = match parts.1 {
                3 => seq!['h'],
                2 => seq!['m'],
                1 => seq!['s'],
                _ => seq!['m', 's'],
            };
            &&& r@.len() > letters.len()
            &&& r@.skip(r@.len() - letters.len()) == letters
            &&& text::dec_value(r@.take(r@.len() - letters.len())) == parts.0
        }),
{
    reveal_strlit("h");
    reveal_strlit("m");
    reveal_strlit("s");
    reveal_strlit("ms");
    lemma_split_is_exact(ms);
    let letters = unit_suffix(parts.1);
    let value = parts.0 as int;
    assert(value >= 0) by (nonlinear_arith)
        requires
            value * unit_ms(parts.1) == ms,
            unit_ms(parts.1) >= 1,
            ms >= 0,
    ;
    text::law_negative_numbers_have_a_sign(value);
    text::lemma_dec_nat_nonempty(value as nat);
    assert(r@.skip(r@.len() - letters.len()) =~= letters);
    assert(r@.take(r@.len() - letters.len()) =~= text::dec(value));
    assert(letters =~= match parts.1 {
        3 => seq!['h'],
        2 => seq!['m'],
        1 => seq!['s'],
        _ => seq!['m', 's'],
    });
}

/// No two units have one name.
pub proof fn law_units_have_names_of_their_own(a: usize, b: usize, ra: &'static str, rb: &'static str)
    requires
        a <= 3,
        b <= 3,
        call_ensures(unit_name, (a,), ra),
        call_ensures(unit_name, (b,), rb),
    ensures
        ra@ == rb@ <==> a == b,
        a == 0 ==> ra@ == seq!['m', 's'],
        a == 1 ==> ra@[0] == 's',
        a == 2 ==> ra@ == seq!['m', 'i', 'n'],
        a == 3 ==> ra@[0] == 'h',
{
    reveal_strlit("ms");
    reveal_strlit("sec");
    reveal_strlit("min");
    reveal_strlit("hr");
    assert("ms"@ =~= seq!['m', 's']);
    assert("min"@ =~= seq!['m', 'i', 'n']);
    assert("ms"@.len() == 2 && "hr"@.len() == 2 && "sec"@.len() == 3 && "min"@.len() == 3);
    assert("sec"@[0] == 's' && "min"@[0] == 'm' && "hr"@[0] == 'h' && "ms"@[0] == 'm');
}

} // verus!
