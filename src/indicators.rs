use vstd::prelude::*;

use crate::market::Candle;

verus! {

/// A bar with fixed-point open, high, low and close prices.
pub trait Ohlc {
    spec fn open_price(&self) -> i64;

    spec fn high_price(&self) -> i64;

    spec fn low_price(&self) -> i64;

    spec fn close_price(&self) -> i64;

    fn open(&self) -> (r: i64)
        ensures
            r == self.open_price(),
    ;

    fn high(&self) -> (r: i64)
        ensures
            r == self.high_price(),
    ;

    fn low(&self) -> (r: i64)
        ensures
            r == self.low_price(),
    ;

    fn close(&self) -> (r: i64)
        ensures
            r == self.close_price(),
    ;
}

impl Ohlc for Candle {
    open spec fn open_price(&self) -> i64 {
        self.open
    }

    open spec fn high_price(&self) -> i64 {
        self.high
    }

    open spec fn low_price(&self) -> i64 {
        self.low
    }

    open spec fn close_price(&self) -> i64 {
        self.close
    }

    fn open(&self) -> (r: i64) {
        self.open
    }

    fn high(&self) -> (r: i64) {
        self.high
    }

    fn low(&self) -> (r: i64) {
        self.low
    }

    fn close(&self) -> (r: i64) {
        self.close
    }
}

/// A smoothed (Heikin Ashi) candle.
#[derive(Clone, Copy, Debug, PartialEq, Eq, Structural)]
pub struct HeikinAshi {
    pub open: i64,
    pub high: i64,
    pub low: i64,
    pub close: i64,
}

/// `a / d` rounded toward zero, as integer division does, for `d > 0`.
pub open spec fn div_toward_zero(a: int, d: int) -> int {
    if a >= 0 {
        a / d
    } else {
        -((-a) / d)
    }
}

/// The larger of `acc` and `v`.
pub open spec fn keep_max(acc: int, v: int) -> int {
    if v > acc {
        v
    } else {
        acc
    }
}

/// The smaller of `acc` and `v`.
pub open spec fn keep_min(acc: int, v: int) -> int {
    if v < acc {
        v
    } else {
        acc
    }
}

impl HeikinAshi {
    /// Smooths `current` against `prev`: the open is the midpoint of the
    /// previous bar, the close the average of the current bar's four prices,
    /// and the high and low the extremes of the current high, open and close
    /// taken with zero as the starting value (rounded toward zero throughout).
    pub fn from_ohlc<O: Ohlc>(current: O, prev: O) -> (r: HeikinAshi)
        ensures
            r.open == div_toward_zero(prev.open_price() + prev.close_price(), 2),
            r.close == div_toward_zero(
                current.open_price() + current.high_price() + current.low_price()
                    + current.close_price(),
                4,
            ),
            r.high == keep_max(
                keep_max(keep_max(0, current.high_price() as int), current.open_price() as int),
                current.close_price() as int,
            ),
            r.low == keep_min(
                keep_min(keep_min(0, current.high_price() as int), current.open_price() as int),
                current.close_price() as int,
            ),
    {
        let open_sum: i128 = prev.open() as i128 + prev.close() as i128;
        let open_mid: i128 = open_sum / 2;
        proof {
            let a = open_sum as int;
            if a >= 0 {
                assert(0 <= a / 2 <= a) by (nonlinear_arith) requires a >= 0;
            } else {
                assert(0 <= (-a) / 2 <= -a) by (nonlinear_arith) requires -a > 0;
            }
            assert(open_mid as int == div_toward_zero(a, 2));
            assert(2 * i64::MIN <= a <= 2 * i64::MAX);
            assert(i64::MIN <= div_toward_zero(a, 2) <= i64::MAX);
        }
        let heikin_open = open_mid as i64;
        let close_sum: i128 = current.open() as i128 + current.high() as i128 + current.low() as i128
            + current.close() as i128;
        let close_avg: i128 = close_sum / 4;
        proof {
            let a = close_sum as int;
            if a >= 0 {
                assert(0 <= a / 4 <= a) by (nonlinear_arith) requires a >= 0;
            } else {
                assert(0 <= (-a) / 4 <= -a) by (nonlinear_arith) requires -a > 0;
            }
            assert(close_avg as int == div_toward_zero(a, 4));
            assert(4 * i64::MIN <= a <= 4 * i64::MAX);
            assert(i64::MIN <= div_toward_zero(a, 4) <= i64::MAX);
        }
        let heikin_close = close_avg as i64;

        let candidates: [i64; 3] = [current.high(), current.open(), current.close()];
        let mut heikin_high: i64 = 0;
        let mut heikin_low: i64 = 0;
        let mut i: usize = 0;
        while i < 3
            invariant
                i <= 3,
                candidates@ == seq![current.high_price(), current.open_price(), current.close_price()],
                i == 0 ==> heikin_high == 0 && heikin_low == 0,
                i == 1 ==> heikin_high == keep_max(0, candidates@[0] as int) && heikin_low
                    == keep_min(0, candidates@[0] as int),
                i == 2 ==> heikin_high == keep_max(
                    keep_max(0, candidates@[0] as int),
                    candidates@[1] as int,
                ) && heikin_low == keep_min(keep_min(0, candidates@[0] as int), candidates@[1] as int),
                i == 3 ==> heikin_high == keep_max(
                    keep_max(keep_max(0, candidates@[0] as int), candidates@[1] as int),
                    candidates@[2] as int,
                ) && heikin_low == keep_min(
                    keep_min(keep_min(0, candidates@[0] as int), candidates@[1] as int),
                    candidates@[2] as int,
                ),
            decreases 3 - i,
        {
            let val = candidates[i];
            if val > heikin_high {
                heikin_high = val;
            }
            if val < heikin_low {
                heikin_low = val;
            }
            i = i + 1;
        }

        HeikinAshi { open: heikin_open, high: heikin_high, low: heikin_low, close: heikin_close }
    }
}

} // verus!
