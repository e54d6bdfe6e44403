//! From seconds since midnight to columns of the bar. The pointer, the filled
//! part of the bar, the markers on the bar and the rows under it all go by the
//! one mapping defined here, so that equal times always meet in one column.

use vstd::prelude::*;

verus! {

/// Seconds in a day.
pub const SECONDS_PER_DAY: u64 = 86400;

/// `seconds / 86400 * width`, rounded to the nearest whole number, halves up.
pub open spec fn scaled(seconds: nat, width: nat) -> nat {
    (2 * (seconds * width) + 86400) / 172800
}

/// The column that stands for `seconds` on a bar of `width` columns: the
/// rounded share of the day, kept on the bar.
pub open spec fn column_at(seconds: nat, width: nat) -> nat {
    if scaled(seconds, width) < width {
        scaled(seconds, width)
    } else {
        (width - 1) as nat
    }
}

/// A time at or after the end of the day scales to the bar's width or more.
pub proof fn lemma_scaled_past_day(seconds: nat, width: nat)
    requires
        seconds >= 86400,
    ensures
        scaled(seconds, width) >= width,
{
    assert(seconds * width >= 86400 * width) by (nonlinear_arith)
        requires
            seconds >= 86400,
    ;
}

/// A time within the day scales to at most the bar's width.
pub proof fn lemma_scaled_within_day(seconds: nat, width: nat)
    requires
        seconds < 86400,
    ensures
        scaled(seconds, width) <= width,
        seconds * width <= 86399 * width,
{
    assert(seconds * width <= 86399 * width) by (nonlinear_arith)
        requires
            seconds <= 86399,
    ;
}

/// How many columns of a bar of `width` columns are filled at `seconds`.
pub fn filled_width(seconds: u32, width: usize) -> (filled: usize)
    requires
        seconds < 86400,
    ensures
        filled == scaled(seconds as nat, width as nat),
        filled <= width,
{
    proof {
        lemma_scaled_within_day(seconds as nat, width as nat);
    }
    let product: u128 = (seconds as u128) * (width as u128);
    ((2 * product + 86400) / 172800) as usize
}

/// The column of a bar of `width` columns that stands for `seconds`.
pub fn column_of(seconds: u64, width: usize) -> (pos: usize)
    requires
        width >= 1,
    ensures
        pos == column_at(seconds as nat, width as nat),
        pos < width,
{
    if seconds >= SECONDS_PER_DAY {
        proof {
            lemma_scaled_past_day(seconds as nat, width as nat);
        }
        width - 1
    } else {
        let filled = filled_width(seconds as u32, width);
        if filled < width {
            filled
        } else {
            width - 1
        }
    }
}

} // verus!
