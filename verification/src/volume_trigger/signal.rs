//! Volume trigger signal bookkeeping: signal types, the trading day of a bar
//! and the window of past trading days that a bar's volume baseline uses.
//!
//! The baseline of a bar only uses days strictly before the bar's own trading
//! day, so no signal sees data of its own day or later.

use vstd::prelude::*;
use vstd::string::StringSliceAdditionalSpecFns;
use crate::text::{byte_range, lex_lt};
use crate::volume_trigger::params::VolumeTriggerSettings;

verus! {

/// Direction of a volume trigger signal.
#[derive(Debug, Clone, Copy, PartialEq, Eq)]
pub enum VolumeTriggerSignalType {
    /// Close > max(prev 6 closes) → go long
    Long,
    /// Close < min(prev 6 closes) → short (used as exit signal)
    Short,
}

/// The name under which each signal type is reported.
pub open spec fn signal_type_name(t: VolumeTriggerSignalType) -> Seq<char> {
    match t {
        VolumeTriggerSignalType::Long => "volume_trigger_long"@,
        VolumeTriggerSignalType::Short => "volume_trigger_short"@,
    }
}

impl VolumeTriggerSignalType {
    pub fn as_str(&self) -> (r: &'static str)
        ensures
            r@ == signal_type_name(*self),
    {
        match self {
            VolumeTriggerSignalType::Long => "volume_trigger_long",
            VolumeTriggerSignalType::Short => "volume_trigger_short",
        }
    }
}

/// The trading day of a UTC timestamp: its first ten bytes, or empty when
/// they do not form a prefix of whole characters.
pub open spec fn day_prefix(ts: Seq<u8>) -> Seq<u8> {
    match byte_range(ts, 0, 10) {
        Some(d) => d,
        None => Seq::empty(),
    }
}

/// `ts_utc.get(0..10).unwrap_or("")`.
pub fn trading_day(ts_utc: &str) -> (r: &str)
    ensures
        r.spec_bytes() == day_prefix(ts_utc.spec_bytes()),
{
    match crate::text::str_get(ts_utc, 0, 10) {
        Some(d) => d,
        None => {
            proof {
                reveal_strlit("");
            }
            ""
        },
    }
}

/// Strictly increasing in byte order, as the keys of an ordered map are.
pub open spec fn strictly_sorted(days: Seq<String>) -> bool {
    forall|i: int, j: int|
        0 <= i < j < days.len() ==> lex_lt(
            vstd::utf8::encode_utf8((#[trigger] days[i])@),
            vstd::utf8::encode_utf8((#[trigger] days[j])@),
        )
}

/// The days at `[0, count)` lie strictly before `bar_day` and the others do not.
pub open spec fn days_before_count(days: Seq<String>, bar_day: Seq<u8>, count: int) -> bool {
    &&& 0 <= count <= days.len()
    &&& forall|j: int| 0 <= j < count ==> lex_lt(vstd::utf8::encode_utf8((#[trigger] days[j])@), bar_day)
    &&& forall|j: int| count <= j < days.len() ==> !lex_lt(vstd::utf8::encode_utf8((#[trigger] days[j])@), bar_day)
}

/// The number of days at the front of `days` that lie strictly before `bar_day`.
pub open spec fn count_before(days: Seq<String>, bar_day: Seq<u8>) -> int
    decreases days.len(),
{
    if days.len() > 0 && lex_lt(vstd::utf8::encode_utf8(days[0]@), bar_day) {
        1 + count_before(days.drop_first(), bar_day)
    } else {
        0
    }
}

/// The baseline window of `window` days for a bar of day `bar_day`: the
/// positions `[lo, hi)` of the last `window` days before it, if there are that many.
pub open spec fn baseline_window(days: Seq<String>, bar_day: Seq<u8>, window: int) -> Option<(int, int)> {
    let c = count_before(days, bar_day);
    if c >= window {
        Some((c - window, c))
    } else {
        None
    }
}

proof fn lemma_lex_lt_transitive(a: Seq<u8>, b: Seq<u8>, c: Seq<u8>)
    requires
        lex_lt(a, b),
        lex_lt(b, c),
    ensures
        lex_lt(a, c),
    decreases a.len(),
{
    if a.len() > 0 && b.len() > 0 && c.len() > 0 && a[0] == b[0] && b[0] == c[0] {
        lemma_lex_lt_transitive(a.drop_first(), b.drop_first(), c.drop_first());
    }
}

proof fn lemma_count_before(days: Seq<String>, bar_day: Seq<u8>)
    ensures
        0 <= count_before(days, bar_day) <= days.len(),
        forall|j: int|
            0 <= j < count_before(days, bar_day) ==> lex_lt(vstd::utf8::encode_utf8((#[trigger] days[j])@), bar_day),
        count_before(days, bar_day) < days.len() ==> !lex_lt(
            vstd::utf8::encode_utf8(days[count_before(days, bar_day)]@),
            bar_day,
        ),
    decreases days.len(),
{
    if days.len() > 0 && lex_lt(vstd::utf8::encode_utf8(days[0]@), bar_day) {
        lemma_count_before(days.drop_first(), bar_day);
        assert forall|j: int| 0 <= j < count_before(days, bar_day) implies lex_lt(
            vstd::utf8::encode_utf8((#[trigger] days[j])@),
            bar_day,
        ) by {
            if j > 0 {
                assert(days[j] == days.drop_first()[j - 1]);
            }
        }
        if count_before(days, bar_day) < days.len() {
            assert(days[count_before(days, bar_day)] == days.drop_first()[count_before(days.drop_first(), bar_day)]);
        }
    }
}

/// In an ordered day list the days before `bar_day` are exactly the first
/// `count_before` ones.
proof fn lemma_count_before_sorted(days: Seq<String>, bar_day: Seq<u8>)
    requires
        strictly_sorted(days),
    ensures
        days_before_count(days, bar_day, count_before(days, bar_day)),
{
    lemma_count_before(days, bar_day);
    let c = count_before(days, bar_day);
    assert forall|j: int| c <= j < days.len() implies !lex_lt(
        vstd::utf8::encode_utf8((#[trigger] days[j])@),
        bar_day,
    ) by {
        if j > c && lex_lt(vstd::utf8::encode_utf8(days[j]@), bar_day) {
            lemma_lex_lt_transitive(
                vstd::utf8::encode_utf8(days[c]@),
                vstd::utf8::encode_utf8(days[j]@),
                bar_day,
            );
        }
    }
}

/// The number of days at the front of `days` before `bar_day`.
fn count_days_before(days: &Vec<String>, bar_day: &str) -> (r: usize)
    ensures
        r == count_before(days@, bar_day.spec_bytes()),
{
    let mut count: usize = 0;
    assert(days@.skip(0) =~= days@);
    while count < days.len() && crate::text::str_lt(days[count].as_str(), bar_day)
        invariant
            count <= days@.len(),
            count_before(days@, bar_day.spec_bytes()) == count + count_before(days@.skip(count as int), bar_day.spec_bytes()),
        decreases days@.len() - count,
    {
        proof {
            let rest = days@.skip(count as int);
            assert(rest[0] == days@[count as int]);
            assert(rest.drop_first() =~= days@.skip(count + 1));
        }
        count = count + 1;
    }
    proof {
        if count < days@.len() {
            assert(days@.skip(count as int)[0] == days@[count as int]);
        }
    }
    count
}

/// The baseline window of `window` trading days for a bar of day `bar_day`:
/// the positions `[lo, hi)` in the ordered day list `days` of the last
/// `window` days strictly before `bar_day`.  `None` when fewer than `window`
/// such days exist.
pub fn days_before_window(days: &Vec<String>, bar_day: &str, window: usize) -> (r: Option<(usize, usize)>)
    ensures
        match r {
            Some((lo, hi)) => baseline_window(days@, bar_day.spec_bytes(), window as int) == Some((lo as int, hi as int)),
            None => baseline_window(days@, bar_day.spec_bytes(), window as int) is None,
        },
        // only days strictly before the bar's own day enter the window
        r matches Some((lo, hi)) ==> forall|j: int|
            lo <= j < hi ==> lex_lt(vstd::utf8::encode_utf8((#[trigger] days@[j])@), bar_day.spec_bytes()),
        // the window holds exactly `window` days
        r matches Some((lo, hi)) ==> hi - lo == window,
        // in an ordered day list, the window ends at the last day before the bar's day
        strictly_sorted(days@) ==> (r matches Some((lo, hi)) ==> days_before_count(days@, bar_day.spec_bytes(), hi as int)),
        // in an ordered day list with `c` days before the bar's day, the
        // window is the last `window` of them, and there is none when `c` is
        // fewer
        forall|c: int|
            strictly_sorted(days@) && #[trigger] days_before_count(days@, bar_day.spec_bytes(), c) ==> (match r {
                Some((lo, hi)) => c >= window && lo == c - window && hi == c,
                None => c < window,
            }),
{
    proof {
        lemma_count_before(days@, bar_day.spec_bytes());
        if strictly_sorted(days@) {
            lemma_count_before_sorted(days@, bar_day.spec_bytes());
            assert forall|c: int| #[trigger] days_before_count(days@, bar_day.spec_bytes(), c)
                implies c == count_before(days@, bar_day.spec_bytes()) by {
                let c0 = count_before(days@, bar_day.spec_bytes());
                if c < c0 {
                    assert(lex_lt(vstd::utf8::encode_utf8(days@[c]@), bar_day.spec_bytes()));
                } else if c > c0 {
                    assert(lex_lt(vstd::utf8::encode_utf8(days@[c0]@), bar_day.spec_bytes()));
                }
            }
        }
    }
    let count = count_days_before(days, bar_day);
    if count >= window {
        Some((count - window, count))
    } else {
        None
    }
}

/// The fast and the slow baseline windows of a bar end at the same day, and a
/// fast window no longer than the slow one lies inside it: whenever the slow
/// window exists the fast one does, and the slow baseline covers every day of
/// the fast one.
pub proof fn lemma_fast_window_inside_slow(days: Seq<String>, bar_day: Seq<u8>, fast_window: int, slow_window: int)
    requires
        0 <= fast_window <= slow_window,
    ensures
        baseline_window(days, bar_day, slow_window) matches Some((slo, shi)) ==> (baseline_window(
            days,
            bar_day,
            fast_window,
        ) matches Some((flo, fhi)) && fhi == shi && slo <= flo),
{
}

/// The windows behind one bar's signal check: the bar (per-symbol index),
/// the positions of its fast and slow baseline days in the day list, and its
/// direction reference bars.
#[derive(Debug, Clone, Copy, PartialEq, Eq)]
pub struct BarWindows {
    pub bar_idx: usize,
    pub fast_days: (usize, usize),
    pub slow_days: (usize, usize),
    pub reference: (usize, usize),
}

/// The windows of bar `i` whose trading day is `bar_day`, if the bar has full
/// fast and slow baselines and a full reference window.
pub open spec fn bar_windows_at(days: Seq<String>, bar_day: Seq<u8>, i: int, s: VolumeTriggerSettings) -> Option<BarWindows> {
    match (
        baseline_window(days, bar_day, s.fast_window_days as int),
        baseline_window(days, bar_day, s.slow_window_days as int),
    ) {
        (Some((flo, fhi)), Some((slo, shi))) => if i >= s.direction_lookback_bars {
            Some(BarWindows {
                bar_idx: i as usize,
                fast_days: (flo as usize, fhi as usize),
                slow_days: (slo as usize, shi as usize),
                reference: ((i - s.direction_lookback_bars) as usize, i as usize),
            })
        } else {
            None
        },
        _ => None,
    }
}

/// The windows of the bars `[from, bar_days.len())` that can be checked, in bar order.
pub open spec fn bar_windows_from(bar_days: Seq<Seq<u8>>, days: Seq<String>, s: VolumeTriggerSettings, from: int) -> Seq<BarWindows>
    decreases bar_days.len() - from,
{
    if from < 0 || from >= bar_days.len() {
        Seq::empty()
    } else {
        let rest = bar_windows_from(bar_days, days, s, from + 1);
        match bar_windows_at(days, bar_days[from], from, s) {
            Some(w) => seq![w] + rest,
            None => rest,
        }
    }
}

/// The listed windows: each belongs to a bar from `from` on that can be
/// checked, they come in increasing bar order, and every bar from `from` on
/// that can be checked is listed.
pub proof fn lemma_bar_windows_listing(bar_days: Seq<Seq<u8>>, days: Seq<String>, s: VolumeTriggerSettings, from: int)
    requires
        0 <= from,
        bar_days.len() <= usize::MAX,
    ensures
        forall|k: int|
            0 <= k < bar_windows_from(bar_days, days, s, from).len() ==> {
                let w = #[trigger] bar_windows_from(bar_days, days, s, from)[k];
                &&& from <= w.bar_idx < bar_days.len()
                &&& bar_windows_at(days, bar_days[w.bar_idx as int], w.bar_idx as int, s) == Some(w)
            },
        forall|k1: int, k2: int|
            0 <= k1 < k2 < bar_windows_from(bar_days, days, s, from).len() ==> (#[trigger] bar_windows_from(
                bar_days,
                days,
                s,
                from,
            )[k1]).bar_idx < (#[trigger] bar_windows_from(bar_days, days, s, from)[k2]).bar_idx,
        forall|i: int|
            from <= i < bar_days.len() && (#[trigger] bar_windows_at(days, bar_days[i], i, s)) is Some ==> exists|k: int|
                0 <= k < bar_windows_from(bar_days, days, s, from).len() && (#[trigger] bar_windows_from(
                    bar_days,
                    days,
                    s,
                    from,
                )[k]).bar_idx == i,
    decreases bar_days.len() - from,
{
    let all = bar_windows_from(bar_days, days, s, from);
    if from < bar_days.len() {
        lemma_bar_windows_listing(bar_days, days, s, from + 1);
        let rest = bar_windows_from(bar_days, days, s, from + 1);
        match bar_windows_at(days, bar_days[from], from, s) {
            Some(w) => {
                assert(all == seq![w] + rest);
                assert(w.bar_idx == from);
                assert forall|k: int| 0 <= k < all.len() implies {
                    let x = #[trigger] all[k];
                    &&& from <= x.bar_idx < bar_days.len()
                    &&& bar_windows_at(days, bar_days[x.bar_idx as int], x.bar_idx as int, s) == Some(x)
                } by {
                    if k > 0 {
                        assert(all[k] == rest[k - 1]);
                    }
                }
                assert forall|k1: int, k2: int| 0 <= k1 < k2 < all.len() implies (#[trigger] all[k1]).bar_idx < (#[trigger] all[k2]).bar_idx by {
                    assert(all[k2] == rest[k2 - 1]);
                    if k1 > 0 {
                        assert(all[k1] == rest[k1 - 1]);
                    }
                }
                assert forall|i: int| from <= i < bar_days.len() && (#[trigger] bar_windows_at(days, bar_days[i], i, s)) is Some
                    implies exists|k: int| 0 <= k < all.len() && (#[trigger] all[k]).bar_idx == i by {
                    if i == from {
                        assert(all[0].bar_idx == i);
                    } else {
                        let k = choose|k: int| 0 <= k < rest.len() && (#[trigger] rest[k]).bar_idx == i;
                        assert(all[k + 1] == rest[k]);
                    }
                }
            },
            None => {
                assert(all == rest);
                assert forall|i: int| from <= i < bar_days.len() && (#[trigger] bar_windows_at(days, bar_days[i], i, s)) is Some
                    implies exists|k: int| 0 <= k < all.len() && (#[trigger] all[k]).bar_idx == i by {
                    assert(i != from);
                }
            },
        }
    }
}

/// The signal checks of one symbol: for each bar from the warm-up on, in
/// order, the windows of those bars that have full fast and slow baselines
/// (days strictly before the bar's own day) and a full reference window
/// (bars strictly before it).  `bar_days` holds each bar's trading day,
/// `days` the symbol's distinct trading days in order.
pub fn volume_trigger_bar_windows(
    bar_days: &Vec<String>,
    days: &Vec<String>,
    settings: &VolumeTriggerSettings,
) -> (r: Vec<BarWindows>)
    requires
        settings.warmup() <= usize::MAX,
    ensures
        r@ == bar_windows_from(
            bar_days@.map_values(|d: String| vstd::utf8::encode_utf8(d@)),
            days@,
            *settings,
            settings.warmup(),
        ),
        forall|k: int| 0 <= k < r@.len() ==> {
            &&& (#[trigger] r@[k]).bar_idx >= settings.warmup()
            &&& r@[k].reference.1 == r@[k].bar_idx
            &&& forall|j: int|
                r@[k].slow_days.0 <= j < r@[k].slow_days.1 ==> lex_lt(
                    vstd::utf8::encode_utf8((#[trigger] days@[j])@),
                    vstd::utf8::encode_utf8(bar_days@[r@[k].bar_idx as int]@),
                )
        },
        // each listed bar has baselines of exactly the configured lengths,
        // both ending at the same day, and the reference bars right before it
        forall|k: int| 0 <= k < r@.len() ==> {
            &&& (#[trigger] r@[k]).bar_idx < bar_days@.len()
            &&& r@[k].fast_days.1 - r@[k].fast_days.0 == settings.fast_window_days
            &&& r@[k].slow_days.1 - r@[k].slow_days.0 == settings.slow_window_days
            &&& r@[k].fast_days.1 == r@[k].slow_days.1
            &&& r@[k].reference.0 == r@[k].bar_idx - settings.direction_lookback_bars
        },
        // bars are listed once each, in order
        forall|k1: int, k2: int| 0 <= k1 < k2 < r@.len() ==> (#[trigger] r@[k1]).bar_idx < (#[trigger] r@[k2]).bar_idx,
        // every bar from the warm-up on with both baselines is listed
        forall|i: int|
            settings.warmup() <= i < bar_days@.len() && baseline_window(
                days@,
                vstd::utf8::encode_utf8((#[trigger] bar_days@[i])@),
                settings.fast_window_days as int,
            ) is Some && baseline_window(
                days@,
                vstd::utf8::encode_utf8(bar_days@[i]@),
                settings.slow_window_days as int,
            ) is Some ==> exists|k: int| 0 <= k < r@.len() && (#[trigger] r@[k]).bar_idx == i,
{
    let ghost bd = bar_days@.map_values(|d: String| vstd::utf8::encode_utf8(d@));
    let warmup = settings.min_warmup_bars();
    let n = bar_days.len();
    let n_days = days.len();
    let mut out: Vec<BarWindows> = Vec::new();
    if warmup >= n {
        proof {
            assert(bar_windows_from(bd, days@, *settings, warmup as int) =~= Seq::<BarWindows>::empty());
        }
        return out;
    }
    let mut k: usize = warmup;
    while k < n
        invariant
            warmup == settings.warmup(),
            n == bar_days@.len(),
            bd == bar_days@.map_values(|d: String| vstd::utf8::encode_utf8(d@)),
            warmup <= k <= n,
            bar_windows_from(bd, days@, *settings, warmup as int) == out@ + bar_windows_from(bd, days@, *settings, k as int),
            forall|m: int| 0 <= m < out@.len() ==> {
                &&& (#[trigger] out@[m]).bar_idx >= warmup
                &&& out@[m].reference.1 == out@[m].bar_idx
                &&& forall|j: int|
                    out@[m].slow_days.0 <= j < out@[m].slow_days.1 ==> lex_lt(
                        vstd::utf8::encode_utf8((#[trigger] days@[j])@),
                        vstd::utf8::encode_utf8(bar_days@[out@[m].bar_idx as int]@),
                    )
            },
        decreases n - k,
    {
        let bar_day = bar_days[k].as_str();
        proof {
            assert(bd[k as int] == bar_day.spec_bytes());
        }
        let fast = days_before_window(days, bar_day, settings.fast_window_days);
        let slow = days_before_window(days, bar_day, settings.slow_window_days);
        let reference = direction_reference_window(k, settings.direction_lookback_bars);
        let ghost before = out@;
        match (fast, slow, reference) {
            (Some(f), Some(s), Some(rw)) => {
                out.push(BarWindows { bar_idx: k, fast_days: f, slow_days: s, reference: rw });
                proof {
                    assert(out@ =~= before + seq![out@[before.len() as int]]);
                    assert(bar_windows_from(bd, days@, *settings, k as int) =~= seq![out@[before.len() as int]] + bar_windows_from(bd, days@, *settings, k + 1));
                    assert(out@ + bar_windows_from(bd, days@, *settings, k + 1) =~= before + bar_windows_from(bd, days@, *settings, k as int));
                }
            },
            _ => {
                proof {
                    assert(bar_windows_from(bd, days@, *settings, k as int) == bar_windows_from(bd, days@, *settings, k + 1));
                }
            },
        }
        k = k + 1;
    }
    proof {
        assert(bar_windows_from(bd, days@, *settings, n as int) =~= Seq::<BarWindows>::empty());
        assert(out@ + Seq::<BarWindows>::empty() =~= out@);
        lemma_bar_windows_listing(bd, days@, *settings, warmup as int);
        assert forall|k: int| 0 <= k < out@.len() implies {
            &&& (#[trigger] out@[k]).bar_idx < bar_days@.len()
            &&& out@[k].fast_days.1 - out@[k].fast_days.0 == settings.fast_window_days
            &&& out@[k].slow_days.1 - out@[k].slow_days.0 == settings.slow_window_days
            &&& out@[k].fast_days.1 == out@[k].slow_days.1
            &&& out@[k].reference.0 == out@[k].bar_idx - settings.direction_lookback_bars
        } by {
            let w = out@[k];
            let i = w.bar_idx as int;
            assert(bar_windows_at(days@, bd[i], i, *settings) == Some(w));
            lemma_count_before(days@, bd[i]);
            assert(days@.len() == n_days);
            let c = count_before(days@, bd[i]);
            assert(w.fast_days.1 == c);
            assert(w.slow_days.1 == c);
            assert(w.fast_days.0 == c - settings.fast_window_days);
            assert(w.slow_days.0 == c - settings.slow_window_days);
        }
        assert forall|i: int|
            settings.warmup() <= i < bar_days@.len() && baseline_window(
                days@,
                vstd::utf8::encode_utf8((#[trigger] bar_days@[i])@),
                settings.fast_window_days as int,
            ) is Some && baseline_window(
                days@,
                vstd::utf8::encode_utf8(bar_days@[i]@),
                settings.slow_window_days as int,
            ) is Some implies exists|k: int| 0 <= k < out@.len() && (#[trigger] out@[k]).bar_idx == i by {
            assert(bd[i] == vstd::utf8::encode_utf8(bar_days@[i]@));
            assert(bar_windows_at(days@, bd[i], i, *settings) is Some);
        }
    }
    out
}

/// The direction reference window of bar `i`: the `lookback` bars right
/// before it, `[i - lookback, i)`, when that many bars precede it.  The bar
/// itself is never part of its window.
pub fn direction_reference_window(i: usize, lookback: usize) -> (r: Option<(usize, usize)>)
    ensures
        r == (if i >= lookback {
            Some(((i - lookback) as usize, i))
        } else {
            None
        }),
        r matches Some((lo, hi)) ==> hi == i && hi - lo == lookback,
{
    if i >= lookback {
        Some((i - lookback, i))
    } else {
        None
    }
}

} // verus!
