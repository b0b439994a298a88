use crate::utils::{bit_is_set, is_bit_set};
use vstd::prelude::*;

verus! {

/// Counts up by one and wraps to zero past `max_value`.
pub open spec fn bounded_next(original_value: u8, max_value: u8) -> u8 {
    if original_value + 1 > max_value {
        0
    } else {
        (original_value + 1) as u8
    }
}

/// `bounded_next` applied `times` times.
pub open spec fn bounded_next_times(value: u8, max_value: u8, times: nat) -> u8
    decreases times,
{
    if times == 0 {
        value
    } else {
        bounded_next_times(bounded_next(value, max_value), max_value, (times - 1) as nat)
    }
}

pub fn bounded_wrapping_add(original_value: u8, max_value: u8) -> (r: u8)
    requires
        original_value < 255,
    ensures
        r == bounded_next(original_value, max_value),
{
    let mut new_value = original_value + 1;
    if new_value > max_value {
        new_value = 0;
    }
    new_value
}

/// Applies `bounded_wrapping_add` the given number of times.
pub fn bounded_wrapping_add_times(original_value: u8, max_value: u8, times: u8) -> (r: u8)
    requires
        original_value < 255,
        max_value < 255,
    ensures
        r == bounded_next_times(original_value, max_value, times as nat),
        r < 255,
        times > 0 ==> r <= max_value,
{
    let mut value = original_value;
    let mut remaining = times;
    while remaining > 0
        invariant
            value < 255,
            max_value < 255,
            remaining <= times,
            remaining < times ==> value <= max_value,
            bounded_next_times(original_value, max_value, times as nat) == bounded_next_times(
                value,
                max_value,
                remaining as nat,
            ),
        decreases remaining,
    {
        value = bounded_wrapping_add(value, max_value);
        remaining -= 1;
    }
    value
}

pub const LENGTH_ENABLED_INDEX: u8 = 6;

/// Bit 6 of NRx4 enables the length timer.
pub open spec fn length_is_enabled(register_value_with_length: u8) -> bool {
    bit_is_set(register_value_with_length, LENGTH_ENABLED_INDEX)
}

pub fn length_enabled(register_value_with_length: u8) -> (r: bool)
    ensures
        r == length_is_enabled(register_value_with_length),
{
    is_bit_set(register_value_with_length, LENGTH_ENABLED_INDEX)
}

} // verus!
