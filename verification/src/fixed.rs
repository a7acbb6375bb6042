//! Fixed-point scalars and the axis normalizer.

use vstd::prelude::*;

verus! {

/// One whole unit: an axis at full deflection, or one pixel per tick.
pub const UNIT: i64 = 1_000_000;

/// Half a unit, the midpoint at which a trigger counts as pressed.
pub const HALF_UNIT: i64 = 500_000;

/// Below this magnitude an axis sample is always taken as zero.
pub const DEADZONE_LOW: i64 = 5_000;

/// Below this magnitude an axis sample is taken as zero while the stick is
/// returning to rest, that is while the magnitude is under the previous output.
pub const DEADZONE_HIGH: i64 = 50_000;

/// No velocity is ever held with a magnitude above this one.
pub const VELOCITY_LIMIT: i64 = 1_000_000_000_000;

/// The absolute value of `v`.
pub open spec fn magnitude(v: int) -> int {
    if v < 0 {
        -v
    } else {
        v
    }
}

/// `v` brought into the range from `-bound` to `bound`.
pub open spec fn clamp_sym(v: int, bound: int) -> int {
    if v > bound {
        bound
    } else if v < -bound {
        -bound
    } else {
        v
    }
}

/// `v * num / den`, rounded toward zero.
pub open spec fn scale_toward_zero(v: int, num: int, den: int) -> int {
    if v >= 0 {
        (v * num) / den
    } else {
        -(((-v) * num) / den)
    }
}

/// Half of `v`, rounded toward zero.
pub open spec fn half_toward_zero(v: int) -> int {
    scale_toward_zero(v, 1, 2)
}

/// The whole number nearest to `v / UNIT`; a tie goes away from zero.
pub open spec fn round_to_whole(v: int) -> int {
    if v >= 0 {
        (v + HALF_UNIT) / (UNIT as int)
    } else {
        -((-v + HALF_UNIT) / (UNIT as int))
    }
}

/// What the normalizer makes of the sample `value` when its previous output
/// was `previous`: zero inside the deadzone, and zero under the higher
/// threshold while the magnitude is falling; otherwise the sample itself.
pub open spec fn normalized(value: int, previous: int) -> int {
    if magnitude(value) < DEADZONE_LOW || (magnitude(value) < DEADZONE_HIGH && magnitude(value)
        < magnitude(previous)) {
        0
    } else {
        value
    }
}

/// `v` with its sign turned. The least `i64`, whose negative no `i64` holds,
/// gives the greatest.
pub open spec fn turned(v: int) -> int {
    if v == i64::MIN {
        i64::MAX as int
    } else {
        -v
    }
}

/// The magnitude of `v`, in a type wide enough for every `i64`.
pub fn magnitude_of(v: i64) -> (m: u64)
    ensures
        m == magnitude(v as int),
{
    if v >= 0 {
        v as u64
    } else if v == i64::MIN {
        9_223_372_036_854_775_808u64
    } else {
        (-v) as u64
    }
}

/// Normalizes one axis sample against the previous output of that axis.
pub fn normalize(value: i64, previous: i64) -> (out: i64)
    ensures
        out == normalized(value as int, previous as int),
{
    let m: u64 = magnitude_of(value);
    let p: u64 = magnitude_of(previous);
    if m < 5_000 || (m < 50_000 && m < p) {
        0
    } else {
        value
    }
}

/// `v * num / den` rounded toward zero, then held to a magnitude of at most
/// `bound`.
pub fn scale_saturating(v: i64, num: u64, den: u64, bound: i64) -> (out: i64)
    requires
        den > 0,
        bound >= 0,
    ensures
        out == clamp_sym(scale_toward_zero(v as int, num as int, den as int), bound as int),
{
    let m: u64 = magnitude_of(v);
    assert(m * num <= 0x8000_0000_0000_0000 * 0xffff_ffff_ffff_ffff) by (nonlinear_arith)
        requires
            0 <= m <= 0x8000_0000_0000_0000,
            0 <= num <= 0xffff_ffff_ffff_ffff,
    ;
    let prod: u128 = (m as u128) * (num as u128);
    let q: u128 = prod / (den as u128);
    let capped: i64 = if q > bound as u128 {
        bound
    } else {
        q as i64
    };
    if v >= 0 {
        capped
    } else {
        -capped
    }
}

/// Turns the sign of `v`.
pub fn turn(v: i64) -> (out: i64)
    ensures
        out == turned(v as int),
        v > i64::MIN ==> out == -v,
{
    if v == i64::MIN {
        i64::MAX
    } else {
        -v
    }
}

/// Half of a velocity, rounded toward zero.
pub fn halve(v: i64) -> (out: i64)
    requires
        magnitude(v as int) <= VELOCITY_LIMIT,
    ensures
        out == half_toward_zero(v as int),
        magnitude(out as int) <= magnitude(v as int),
{
    if v >= 0 {
        v / 2
    } else {
        -((-v) / 2)
    }
}

/// A velocity rounded to whole pixels; a tie goes away from zero.
pub fn round_whole(v: i64) -> (out: i32)
    requires
        magnitude(v as int) <= VELOCITY_LIMIT,
    ensures
        out == round_to_whole(v as int),
{
    if v >= 0 {
        ((v + HALF_UNIT) / UNIT) as i32
    } else {
        let up: i64 = (-v + HALF_UNIT) / UNIT;
        (-up) as i32
    }
}

/// Deadzone: a sample whose magnitude is under the low threshold normalizes
/// to exactly zero, whatever the previous output was.
pub proof fn lemma_deadzone(value: int, previous: int)
    requires
        magnitude(value) < DEADZONE_LOW,
    ensures
        normalized(value, previous) == 0,
{
}

/// Debounce: a sample under the high threshold normalizes to exactly zero once
/// its magnitude is under that of the previous output.
pub proof fn lemma_debounce(value: int, previous: int)
    requires
        magnitude(value) < DEADZONE_HIGH,
        magnitude(value) < magnitude(previous),
    ensures
        normalized(value, previous) == 0,
{
}

/// A sample that is not taken as zero passes through unchanged, and no sample
/// ever comes out larger than it went in.
pub proof fn lemma_normalized_is_zero_or_same(value: int, previous: int)
    ensures
        normalized(value, previous) == 0 || normalized(value, previous) == value,
        magnitude(value) >= DEADZONE_HIGH ==> normalized(value, previous) == value,
        magnitude(normalized(value, previous)) <= magnitude(value),
{
}

} // verus!
