//! Bounded arithmetic: wrapping into a half-open range and saturating into a closed one.

use vstd::prelude::*;

verus! {

/// `value` moved into the half-open range `[min, max)` by one range width: a value below `min`
/// comes back in below `max` by as much as it was short, a value at or above `max` comes back in
/// above `min` by as much as it was over.
pub open spec fn wrap_spec(value: int, min: int, max: int) -> int {
    if value < min {
        max - (min - value)
    } else if value >= max {
        min + (value - max)
    } else {
        value
    }
}

/// `value` saturated into the closed range `[min, max]`.
pub open spec fn clamp_spec(value: int, min: int, max: int) -> int {
    if value < min {
        min
    } else if value > max {
        max
    } else {
        value
    }
}

/// Make sure values stay within min and max. Wraps around on both ends.
///
/// The only inputs left out are those whose wrapped value does not fit the integer type; with
/// `min <= max` it always fits (`lemma_wrap_stays_between`).
pub fn wrap(value: i64, min: i64, max: i64) -> (wrapped: i64)
    requires
        i64::MIN <= wrap_spec(value as int, min as int, max as int) <= i64::MAX,
    ensures
        wrapped == wrap_spec(value as int, min as int, max as int),
{
    if value < min {
        let wide: i128 = max as i128 - (min as i128 - value as i128);
        wide as i64
    } else if value >= max {
        let wide: i128 = min as i128 + (value as i128 - max as i128);
        wide as i64
    } else {
        value
    }
}

/// Make sure values stay within min and max. Saturates on both ends.
pub fn clamp(value: i64, min: i64, max: i64) -> (clamped: i64)
    requires
        min <= max,
    ensures
        clamped == clamp_spec(value as int, min as int, max as int),
        min <= clamped <= max,
{
    if value < min {
        min
    } else if value > max {
        max
    } else {
        value
    }
}

/// With `min <= max` a wrapped value lies between the value it came from and the range, so it
/// fits every integer type that holds `value`, `min` and `max`.
pub proof fn lemma_wrap_stays_between(value: int, min: int, max: int)
    requires
        min <= max,
    ensures
        value < min ==> value <= wrap_spec(value, min, max) < max,
        value >= max ==> min <= wrap_spec(value, min, max) <= value,
        min <= value < max ==> wrap_spec(value, min, max) == value,
{
}

/// A wrapped value lies in `[min, max)` exactly when the range is not empty and the value was
/// less than one range width outside of it.
pub proof fn lemma_wrap_lands_in_range(value: int, min: int, max: int)
    ensures
        (min <= wrap_spec(value, min, max) < max) <==> (min < max && min - (max - min) <= value
            < max + (max - min)),
{
}

/// Wrapping is idempotent on every value that it brings into the range: a second wrap changes
/// nothing.
pub proof fn lemma_wrap_idempotent(value: int, min: int, max: int)
    requires
        min < max,
        min - (max - min) <= value < max + (max - min),
    ensures
        min <= wrap_spec(value, min, max) < max,
        wrap_spec(wrap_spec(value, min, max), min, max) == wrap_spec(value, min, max),
{
}

/// One step outside the range wraps to the opposite boundary: `max` itself wraps to `min`, and
/// the value just below `min` wraps to the last value of the range.
pub proof fn lemma_wrap_one_step(min: int, max: int)
    requires
        min <= max,
    ensures
        wrap_spec(max, min, max) == min,
        wrap_spec(min - 1, min, max) == max - 1,
{
}

} // verus!
