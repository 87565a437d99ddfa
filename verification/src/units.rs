//! Fixed-point amounts.
//!
//! Prices, share counts and ratios are `i64` values in billionths. A product of
//! two of them (a cost, a profit) is an `i128` in billionths of a billionth, so
//! every sum and product of the strategy is exact. Only the size of an order is
//! rounded.

use vstd::prelude::*;

use crate::double::{count_lots, lemma_lots_are_near, lots_of};

verus! {

/// One dollar, one share, or the ratio 1.0, in billionths.
pub const ONE: i64 = 1_000_000_000;

/// The order size granularity: one ten-thousandth of a share, in billionths.
pub const LOT: i64 = 100_000;

/// `amount` rounded to whole lots in double precision, halves away from zero.
pub open spec fn rounded_to_lot(amount: int) -> int {
    if amount >= 0 {
        lots_of(amount as nat) * LOT
    } else {
        -(lots_of((-amount) as nat) * LOT)
    }
}

/// Rounds a share count to four decimals, the precision that an order carries.
pub fn round_to_lot(amount: i64) -> (r: i128)
    ensures
        r == rounded_to_lot(amount as int),
{
    let wide: i128 = amount as i128;
    let size: u64 = if wide >= 0 {
        wide as u64
    } else {
        (-wide) as u64
    };
    let lots: u128 = count_lots(size);
    proof {
        lemma_lots_are_near(size as nat);
    }
    let rounded: i128 = (lots as i128) * (LOT as i128);
    if wide >= 0 {
        rounded
    } else {
        -rounded
    }
}

/// Rounding gives whole lots, leaves whole lots alone and moves an amount by less
/// than a lot; one of up to a million shares by at most half a lot.
pub proof fn law_rounding_is_nearest(amount: i64)
    ensures
        rounded_to_lot(amount as int) % 100_000 == 0,
        amount as int % 100_000 == 0 ==> rounded_to_lot(amount as int) == amount,
        -100_000 < rounded_to_lot(amount as int) - amount < 100_000,
        -1_000_000_000_000_000 <= amount <= 1_000_000_000_000_000 ==> -100_000 <= 2 * (
        rounded_to_lot(amount as int) - amount) <= 100_000,
{
    let size = if amount >= 0 {
        amount as nat
    } else {
        (-amount) as nat
    };
    lemma_lots_are_near(size);
}

/// A sale is rounded as the purchase of as many shares is, and nothing stays nothing.
pub proof fn law_rounding_is_symmetric(amount: int)
    ensures
        rounded_to_lot(-amount) == -rounded_to_lot(amount),
        rounded_to_lot(0) == 0,
        amount > 0 ==> rounded_to_lot(amount) == lots_of(amount as nat) * 100_000,
{
}

/// The scale of amounts: a dollar or a share is a billion, and a ten-thousandth of it a lot.
pub proof fn law_a_share_is_ten_thousand_lots()
    ensures
        ONE == 1_000_000_000,
        LOT * 10_000 == ONE,
{
}

} // verus!
