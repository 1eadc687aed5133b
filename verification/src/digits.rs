//! Digit splitting for the four-digit seven-segment display.
//!
//! The display takes one byte per digit, most significant first.  Values
//! above its range are shown saturated at `9999` rather than truncated.

use vstd::prelude::*;

verus! {

/// An hour as a clock chip reports it: either a 12-hour value with an
/// AM/PM flag, or a 24-hour value.
#[derive(Clone, Copy, PartialEq, Eq, Structural, Debug)]
pub enum Hours {
    /// Morning, 12-hour form.
    AM(u8),
    /// Afternoon, 12-hour form.
    PM(u8),
    /// 24-hour form.
    H24(u8),
}

/// The hour of day on the 24-hour scale: PM hours sit twelve past their
/// 12-hour reading.
pub open spec fn hour_of_day(h: Hours) -> int {
    match h {
        Hours::AM(a) => a as int,
        Hours::PM(p) => p as int + 12,
        Hours::H24(x) => x as int,
    }
}

/// Saturate a value to the display's four digits.
pub open spec fn clamp9999(n: u16) -> u16 {
    if n < 9999 {
        n
    } else {
        9999
    }
}

/// The four decimal digits of `n`, most significant first.
pub open spec fn digit_bytes(n: u16) -> Seq<u8>
    recommends
        n <= 9999,
{
    seq![(n / 1000) as u8, ((n % 1000) / 100) as u8, ((n % 100) / 10) as u8, (n % 10) as u8]
}

/// The time shown as a four-digit number: hours times one hundred plus
/// minutes, e.g. half past nine in the evening reads `2130`.
pub open spec fn time_value(h: Hours, m: u8) -> int {
    hour_of_day(h) * 100 + m
}

/// Split `num` into the display's four digit bytes, saturating at `9999`.
pub fn num2bytes(num: u16) -> (r: [u8; 4])
    ensures
        r@ == digit_bytes(clamp9999(num)),
{
    let n: u16 = if num < 9999 {
        num
    } else {
        9999
    };
    let data: [u8; 4] = [
        (n / 1000) as u8,
        ((n % 1000) / 100) as u8,
        ((n % 100) / 10) as u8,
        (n % 10) as u8,
    ];
    proof {
        assert(data@ =~= digit_bytes(clamp9999(num)));
    }
    data
}

/// Render a clock reading as the display's four digit bytes, hours first.
/// The clock's hour register is a single byte, so a PM reading must leave
/// room for the twelve-hour shift.
pub fn time2bytes(h: Hours, m: u8) -> (r: [u8; 4])
    requires
        hour_of_day(h) <= 255,
    ensures
        r@ == digit_bytes(clamp9999(time_value(h, m) as u16)),
{
    let hour: u8 = match h {
        Hours::AM(am) => am,
        Hours::PM(pm) => pm + 12,
        Hours::H24(h24) => h24,
    };
    num2bytes((hour as u16) * 100 + (m as u16))
}

} // verus!
