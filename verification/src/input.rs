//! Raw mouse input: what is sent to the stream, and how deltas are gathered.

use vstd::prelude::*;

pub mod linux;

verus! {

/// Shortest time between two batches of mouse movement, in microseconds.
pub const MOUSE_COALESCE_INTERVAL_US: u64 = 2000;

/// Input event as it is sent to the stream.
#[derive(Debug, Clone, Copy, PartialEq, Eq, Structural)]
pub enum InputEvent {
    /// Relative mouse movement
    MouseMove { dx: i16, dy: i16, timestamp_us: u64 },
    /// Mouse wheel movement, in units of 120 per notch
    MouseWheel { delta: i16, timestamp_us: u64 },
}

/// The 16-bit value that keeps the low 16 bits of `value` in two's
/// complement.
pub open spec fn low_16_bits(value: int) -> i16 {
    if value % 0x1_0000 >= 0x8000 {
        (value % 0x1_0000 - 0x1_0000) as i16
    } else {
        (value % 0x1_0000) as i16
    }
}

/// The sum of `a` and `b` as a 32-bit counter keeps it: the low 32 bits in
/// two's complement.
pub open spec fn wrapped_sum(a: i32, b: i32) -> i32 {
    if a + b > i32::MAX {
        (a + b - 0x1_0000_0000) as i32
    } else if a + b < i32::MIN {
        (a + b + 0x1_0000_0000) as i32
    } else {
        (a + b) as i32
    }
}

/// `value` kept between `low` and `high`.
pub open spec fn clamped(value: int, low: int, high: int) -> int {
    if value < low {
        low
    } else if value > high {
        high
    } else {
        value
    }
}

/// The 16-bit value that keeps the low 16 bits of `value`.
pub fn truncate_to_i16(value: i64) -> (low: i16)
    ensures
        low == low_16_bits(value as int),
{
    let rem: i64 = value % 0x1_0000;
    let wrapped: i64 = if rem < 0 {
        rem + 0x1_0000
    } else {
        rem
    };
    assert(wrapped == (value as int) % 0x1_0000) by (nonlinear_arith)
        requires
            wrapped == if rem < 0 {
                rem + 0x1_0000
            } else {
                rem as int
            },
            rem == if value >= 0 {
                (value as int) % 0x1_0000
            } else {
                -((-(value as int)) % 0x1_0000)
            },
    ;
    if wrapped >= 0x8000 {
        (wrapped - 0x1_0000) as i16
    } else {
        wrapped as i16
    }
}

/// The sum of two 32-bit counters, wrapping on overflow.
pub fn wrapping_sum(a: i32, b: i32) -> (sum: i32)
    ensures
        sum == wrapped_sum(a, b),
{
    let wide: i64 = a as i64 + b as i64;
    if wide > i32::MAX as i64 {
        (wide - 0x1_0000_0000) as i32
    } else if wide < i32::MIN as i64 {
        (wide + 0x1_0000_0000) as i32
    } else {
        wide as i32
    }
}

} // verus!
