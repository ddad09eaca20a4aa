//! Daily-level gates of the MA20 main wave: which dates carry a trend gate
//! and the cascade direction of each date.
//!
//! - Trend: EMA120 > EMA200 on each date from the 120th daily bar on; with
//!   fewer bars no date has a trend gate, which lets every entry through.
//! - Direction: bullish when the fast EMA is above the slow EMA; in the
//!   persistent form bullish latches at the first golden cross (fast crossing
//!   above slow from at or below) and stays.  Each date only uses bars up to
//!   and including its own.

use vstd::prelude::*;

verus! {

/// What a date's trend gate compares.
#[derive(Debug, Clone, Copy, PartialEq, Eq)]
pub enum TrendRule {
    /// EMA120 > EMA200
    Ema120AboveEma200,
}

/// The trend rule for a symbol with `n` daily bars and the first bar it
/// gates: EMA120 > EMA200 from the 120th bar on, no gate with fewer bars.
pub open spec fn trend_plan(n: int) -> Option<(TrendRule, int)> {
    if n >= 120 {
        Some((TrendRule::Ema120AboveEma200, 119))
    } else {
        None
    }
}

/// Which rule gates the dates of a symbol with `n_daily_bars` bars, and from
/// which bar on; dates before it (and all dates with fewer than 120 bars) are
/// not gated.
pub fn trend_gate_plan(n_daily_bars: usize) -> (r: Option<(TrendRule, usize)>)
    ensures
        match r {
            Some((rule, from)) => trend_plan(n_daily_bars as int) == Some((rule, from as int)),
            None => trend_plan(n_daily_bars as int) is None,
        },
        // a symbol is gated exactly when it has 120 daily bars or more, by
        // EMA120 > EMA200 from its 120th bar (index 119) on
        r is Some <==> n_daily_bars >= 120,
        r matches Some((rule, from)) ==> rule is Ema120AboveEma200 && from == 119,
{
    if n_daily_bars >= 120 {
        Some((TrendRule::Ema120AboveEma200, 119))
    } else {
        None
    }
}

/// Later bars never change an earlier date's gate: a date gated with `n1`
/// bars is gated the same way, by the same rule, with any longer history.
pub proof fn lemma_trend_plan_uses_no_later_bars(n1: int, n2: int, i: int)
    requires
        n1 <= n2,
        trend_plan(n1) matches Some((rule, from)) && from <= i < n1,
    ensures
        trend_plan(n2) == trend_plan(n1),
{
}

/// Bar `k` is a golden cross: the fast EMA is above the slow one at `k` and
/// was at or below it at `k - 1`.
pub open spec fn golden_cross(above: Seq<bool>, at_or_below: Seq<bool>, k: int) -> bool {
    k > 0 && above[k] && at_or_below[k - 1]
}

/// Persistent direction at bar `i`: a golden cross happened at some bar from
/// `first` up to `i`.
pub open spec fn latched_bullish(above: Seq<bool>, at_or_below: Seq<bool>, first: int, i: int) -> bool {
    exists|k: int| first <= k <= i && #[trigger] golden_cross(above, at_or_below, k)
}

/// The direction of bar `i`.
pub open spec fn direction_at(above: Seq<bool>, at_or_below: Seq<bool>, first: int, i: int, persistent: bool) -> bool {
    if persistent {
        latched_bullish(above, at_or_below, first, i)
    } else {
        above[i]
    }
}

/// Per-date cascade direction of one symbol, for its bars from `ema_slow - 1`
/// on (the dates before the slow EMA has seen `ema_slow` bars get none).
///
/// `fast_above[i]` is whether the fast EMA is above the slow EMA on bar `i`,
/// `fast_at_or_below[i]` whether it is at or below it.  When `persistent`,
/// bullish latches after the first golden cross and stays true; otherwise
/// each day is checked on its own.
pub fn cascade_direction_flags(
    fast_above: &Vec<bool>,
    fast_at_or_below: &Vec<bool>,
    ema_slow: usize,
    persistent: bool,
) -> (r: Vec<bool>)
    requires
        fast_above@.len() == fast_at_or_below@.len(),
        ema_slow <= fast_above@.len(),
        ema_slow >= 1 || fast_above@.len() == 0,
    ensures
        fast_above@.len() == 0 ==> r@.len() == 0,
        fast_above@.len() > 0 ==> r@.len() == fast_above@.len() - (ema_slow - 1),
        forall|k: int|
            0 <= k < r@.len() ==> #[trigger] r@[k] == direction_at(
                fast_above@,
                fast_at_or_below@,
                ema_slow - 1,
                ema_slow - 1 + k,
                persistent,
            ),
        // each day on its own: the fast EMA is above the slow one that day
        !persistent ==> forall|k: int| 0 <= k < r@.len() ==> #[trigger] r@[k] == fast_above@[ema_slow - 1 + k],
        // latched: bullish exactly when, on some bar from the first dated one
        // up to this one, the fast EMA is above the slow one after being at or
        // below it the bar before
        persistent ==> forall|k: int|
            0 <= k < r@.len() ==> (#[trigger] r@[k] <==> exists|j: int|
                ema_slow - 1 <= j <= ema_slow - 1 + k && j > 0 && #[trigger] fast_above@[j] && fast_at_or_below@[j - 1]),
        // once bullish, the persistent direction stays bullish
        persistent ==> forall|k1: int, k2: int| 0 <= k1 <= k2 < r@.len() && #[trigger] r@[k1] ==> #[trigger] r@[k2],
{
    let n = fast_above.len();
    let mut out: Vec<bool> = Vec::new();
    if n == 0 {
        return out;
    }
    let first = ema_slow - 1;
    let mut bullish = false;
    let mut i: usize = 0;
    while i < n
        invariant
            n == fast_above@.len(),
            fast_above@.len() == fast_at_or_below@.len(),
            first == ema_slow - 1,
            first < n,
            i <= n,
            i <= first ==> out@.len() == 0,
            i > first ==> out@.len() == i - first,
            persistent ==> bullish == (exists|k: int| first <= k < i && #[trigger] golden_cross(fast_above@, fast_at_or_below@, k)),
            forall|k: int|
                0 <= k < out@.len() ==> #[trigger] out@[k] == direction_at(
                    fast_above@,
                    fast_at_or_below@,
                    first as int,
                    first + k,
                    persistent,
                ),
        decreases n - i,
    {
        if i >= first {
            if persistent {
                if !bullish && fast_above[i] && i > 0 && fast_at_or_below[i - 1] {
                    bullish = true;
                }
                proof {
                    if golden_cross(fast_above@, fast_at_or_below@, i as int) {
                        assert(bullish);
                    }
                    assert(bullish == latched_bullish(fast_above@, fast_at_or_below@, first as int, i as int));
                }
                out.push(bullish);
            } else {
                out.push(fast_above[i]);
            }
        }
        i = i + 1;
    }
    proof {
        if persistent {
            assert forall|k: int| 0 <= k < out@.len() implies (#[trigger] out@[k] <==> exists|j: int|
                first <= j <= first + k && j > 0 && #[trigger] fast_above@[j] && fast_at_or_below@[j - 1]) by {
                if out@[k] {
                    let w = choose|w: int| first <= w <= first + k && #[trigger] golden_cross(fast_above@, fast_at_or_below@, w);
                    assert(fast_above@[w]);
                }
                if exists|j: int| first <= j <= first + k && j > 0 && #[trigger] fast_above@[j] && fast_at_or_below@[j - 1] {
                    let j = choose|j: int| first <= j <= first + k && j > 0 && #[trigger] fast_above@[j] && fast_at_or_below@[j - 1];
                    assert(golden_cross(fast_above@, fast_at_or_below@, j));
                }
            }
            assert forall|k1: int, k2: int| 0 <= k1 <= k2 < out@.len() && #[trigger] out@[k1] implies #[trigger] out@[k2] by {
                let w = choose|w: int| first <= w <= first + k1 && #[trigger] golden_cross(fast_above@, fast_at_or_below@, w);
                assert(first <= w <= first + k2);
            }
        }
    }
    out
}

/// The direction of a date only depends on the comparisons of its own and
/// earlier bars: two histories that agree up to bar `i` give bar `i` the
/// same direction, whatever comes after it.
pub proof fn lemma_direction_uses_no_later_bars(
    above1: Seq<bool>,
    below1: Seq<bool>,
    above2: Seq<bool>,
    below2: Seq<bool>,
    first: int,
    i: int,
    persistent: bool,
)
    requires
        0 <= i,
        i < above1.len(),
        i < above2.len(),
        i <= below1.len(),
        i <= below2.len(),
        forall|k: int| 0 <= k <= i ==> above1[k] == above2[k],
        forall|k: int| 0 <= k < i ==> below1[k] == below2[k],
    ensures
        direction_at(above1, below1, first, i, persistent) == direction_at(above2, below2, first, i, persistent),
{
    assert forall|k: int| first <= k <= i implies golden_cross(above1, below1, k) == golden_cross(above2, below2, k) by {
        if k > 0 {
            assert(above1[k] == above2[k]);
            assert(below1[k - 1] == below2[k - 1]);
        }
    }
    if latched_bullish(above1, below1, first, i) {
        let w = choose|w: int| first <= w <= i && #[trigger] golden_cross(above1, below1, w);
        assert(golden_cross(above2, below2, w));
    }
    if latched_bullish(above2, below2, first, i) {
        let w = choose|w: int| first <= w <= i && #[trigger] golden_cross(above2, below2, w);
        assert(golden_cross(above1, below1, w));
    }
}

} // verus!
