//! Exit window of an MA20 main-wave position.
//!
//! The exit of a position entered at bar `entry` is searched in the window of
//! the bars after it that span at most `max_holding_trading_days` trading
//! days.  With T+1 settlement the bars of the entry's own day are skipped.
//! Exits are checked in that window in order (top exhaustion, stop loss,
//! profit take), with the window's last bar as the max-holding fallback.

use vstd::prelude::*;
use vstd::string::StringSliceAdditionalSpecFns;
use crate::text::{byte_range, has_prefix, lex_lt};

verus! {

broadcast use vstd::utf8::encode_utf8_valid_utf8, vstd::utf8::encode_utf8_decode_utf8;

/// The trading day of a timestamp (its first ten bytes), if it has one.
pub open spec fn stamp_day(ts: Seq<u8>) -> Option<Seq<u8>> {
    byte_range(ts, 0, 10)
}

/// The bytes of each timestamp.
pub open spec fn stamp_bytes(stamps: Seq<String>) -> Seq<Seq<u8>> {
    stamps.map_values(|s: String| vstd::utf8::encode_utf8(s@))
}

/// The distinct trading days of the stamps `[lo, hi)`, in order of first appearance.
pub open spec fn days_seen(stamps: Seq<Seq<u8>>, lo: int, hi: int) -> Seq<Seq<u8>>
    decreases hi - lo,
{
    if hi <= lo {
        Seq::empty()
    } else {
        let before = days_seen(stamps, lo, hi - 1);
        match stamp_day(stamps[hi - 1]) {
            Some(d) => if before.contains(d) {
                before
            } else {
                before.push(d)
            },
            None => before,
        }
    }
}

/// The end of the holding window that starts at `from`: the first bar `j` at
/// or after `from` whose inclusion would make the window span more than
/// `max_days` trading days, or the end of the bars.
pub open spec fn window_end_from(stamps: Seq<Seq<u8>>, lo: int, max_days: int, from: int) -> int
    decreases stamps.len() - from,
{
    if from >= stamps.len() {
        stamps.len() as int
    } else if days_seen(stamps, lo, from + 1).len() > max_days {
        from
    } else {
        window_end_from(stamps, lo, max_days, from + 1)
    }
}

/// The first bar at or after `from` and before `end` that is not on `day`, or `end`.
pub open spec fn first_other_day(stamps: Seq<Seq<u8>>, day: Seq<u8>, from: int, end: int) -> int
    decreases end - from,
{
    if from < end && has_prefix(stamps[from], day) {
        first_other_day(stamps, day, from + 1, end)
    } else {
        from
    }
}

/// The exit window `[start, end)` of a position entered at bar `entry`, if not empty.
pub open spec fn exit_window(stamps: Seq<Seq<u8>>, entry: int, max_days: int, t_plus_one: bool) -> Option<(int, int)> {
    let end = window_end_from(stamps, entry + 1, max_days, entry + 1);
    if end <= entry + 1 {
        None
    } else {
        let start = if t_plus_one {
            first_other_day(stamps, stamp_day(stamps[entry]).unwrap(), entry + 1, end)
        } else {
            entry + 1
        };
        if start >= end {
            None
        } else {
            Some((start, end))
        }
    }
}

proof fn lemma_window_end_bounds(stamps: Seq<Seq<u8>>, lo: int, max_days: int, from: int)
    requires
        0 <= from,
    ensures
        window_end_from(stamps, lo, max_days, from) <= stamps.len() || from > stamps.len(),
        from <= stamps.len() ==> from <= window_end_from(stamps, lo, max_days, from) <= stamps.len(),
    decreases stamps.len() - from,
{
    if from < stamps.len() && days_seen(stamps, lo, from + 1).len() <= max_days {
        lemma_window_end_bounds(stamps, lo, max_days, from + 1);
    }
}

proof fn lemma_first_other_day_bounds(stamps: Seq<Seq<u8>>, day: Seq<u8>, from: int, end: int)
    requires
        from <= end <= stamps.len(),
        0 <= from,
    ensures
        from <= first_other_day(stamps, day, from, end) <= end,
        forall|k: int| from <= k < first_other_day(stamps, day, from, end) ==> has_prefix(#[trigger] stamps[k], day),
        first_other_day(stamps, day, from, end) < end ==> !has_prefix(
            stamps[first_other_day(stamps, day, from, end)],
            day,
        ),
    decreases end - from,
{
    if from < end && has_prefix(stamps[from], day) {
        lemma_first_other_day_bounds(stamps, day, from + 1, end);
    }
}

/// The days seen over bars `[lo, hi)` are the trading days of those bars,
/// each once.
pub proof fn lemma_days_seen_are_distinct_days(stamps: Seq<Seq<u8>>, lo: int, hi: int)
    requires
        0 <= lo,
        hi <= stamps.len(),
    ensures
        days_seen(stamps, lo, hi).no_duplicates(),
        forall|d: Seq<u8>|
            #[trigger] days_seen(stamps, lo, hi).contains(d) <==> exists|k: int|
                lo <= k < hi && #[trigger] stamp_day(stamps[k]) == Some(d),
    decreases hi - lo,
{
    if hi > lo {
        lemma_days_seen_are_distinct_days(stamps, lo, hi - 1);
        let before = days_seen(stamps, lo, hi - 1);
        assert forall|d: Seq<u8>|
            #[trigger] days_seen(stamps, lo, hi).contains(d) <==> exists|k: int|
                lo <= k < hi && #[trigger] stamp_day(stamps[k]) == Some(d) by {
            let now = days_seen(stamps, lo, hi);
            assert(now.contains(d) <==> before.contains(d) || stamp_day(stamps[hi - 1]) == Some(d)) by {
                if let Some(x) = stamp_day(stamps[hi - 1]) {
                    if !before.contains(x) {
                        assert(now == before.push(x));
                        if now.contains(d) {
                            let i = choose|i: int| 0 <= i < now.len() && now[i] == d;
                            if i < before.len() {
                                assert(before[i] == d);
                            }
                        }
                        if before.contains(d) {
                            let i = choose|i: int| 0 <= i < before.len() && before[i] == d;
                            assert(now[i] == d);
                        }
                        if x == d {
                            assert(now[before.len() as int] == d);
                        }
                    }
                }
            }
            if exists|k: int| lo <= k < hi && #[trigger] stamp_day(stamps[k]) == Some(d) {
                let k = choose|k: int| lo <= k < hi && #[trigger] stamp_day(stamps[k]) == Some(d);
                if k < hi - 1 {
                    assert(before.contains(d));
                }
            }
            if before.contains(d) {
                let k = choose|k: int| lo <= k < hi - 1 && #[trigger] stamp_day(stamps[k]) == Some(d);
                assert(lo <= k < hi);
            }
        }
        if let Some(d) = stamp_day(stamps[hi - 1]) {
            if !before.contains(d) {
                assert forall|i: int, j: int|
                    0 <= i < j < before.push(d).len() implies before.push(d)[i] != before.push(d)[j] by {
                    if j == before.len() {
                        assert(before.contains(before[i]));
                    }
                }
            }
        }
    } else {
        assert(days_seen(stamps, lo, hi) =~= Seq::<Seq<u8>>::empty());
    }
}

proof fn lemma_window_end_is_maximal(stamps: Seq<Seq<u8>>, lo: int, max_days: int, from: int)
    requires
        lo <= from <= stamps.len(),
        days_seen(stamps, lo, from).len() <= max_days,
    ensures
        days_seen(stamps, lo, window_end_from(stamps, lo, max_days, from)).len() <= max_days,
        window_end_from(stamps, lo, max_days, from) == stamps.len() || days_seen(
            stamps,
            lo,
            window_end_from(stamps, lo, max_days, from) + 1,
        ).len() > max_days,
    decreases stamps.len() - from,
{
    if from < stamps.len() && days_seen(stamps, lo, from + 1).len() <= max_days {
        lemma_window_end_is_maximal(stamps, lo, max_days, from + 1);
    }
}

/// The exit window of a position entered at bar `entry`: it lies after the
/// entry and within the bars; it spans at most `max_days` trading days and
/// ends only at the last bar or where one more bar would bring in a trading
/// day too many; without T+1 it starts right after the entry, and with T+1 at
/// the first later bar not on the entry's day, every bar it skips being on
/// that day.
pub proof fn lemma_exit_window_shape(stamps: Seq<Seq<u8>>, entry: int, max_days: int, t_plus_one: bool)
    requires
        0 <= entry,
        max_days >= 0,
    ensures
        exit_window(stamps, entry, max_days, t_plus_one) matches Some((s, e)) ==> {
            &&& entry < s < e <= stamps.len()
            &&& days_seen(stamps, entry + 1, e).len() <= max_days
            &&& (e == stamps.len() || days_seen(stamps, entry + 1, e + 1).len() > max_days)
            &&& (!t_plus_one ==> s == entry + 1)
            &&& (t_plus_one ==> !has_prefix(stamps[s], stamp_day(stamps[entry]).unwrap()))
            &&& (t_plus_one ==> forall|k: int|
                entry < k < s ==> has_prefix(#[trigger] stamps[k], stamp_day(stamps[entry]).unwrap()))
        },
{
    let lo = entry + 1;
    let end = window_end_from(stamps, lo, max_days, lo);
    if lo <= stamps.len() {
        lemma_window_end_bounds(stamps, lo, max_days, lo);
        assert(days_seen(stamps, lo, lo).len() == 0);
        lemma_window_end_is_maximal(stamps, lo, max_days, lo);
        if t_plus_one && end > lo {
            lemma_first_other_day_bounds(stamps, stamp_day(stamps[entry]).unwrap(), lo, end);
        }
    }
}

/// A byte string that sorts between two strings sharing a prefix shares it too.
proof fn lemma_between_shares_prefix(a: Seq<u8>, b: Seq<u8>, c: Seq<u8>, p: Seq<u8>)
    requires
        has_prefix(a, p),
        has_prefix(c, p),
        !lex_lt(b, a),
        !lex_lt(c, b),
    ensures
        has_prefix(b, p),
    decreases p.len(),
{
    if p.len() > 0 {
        assert(a[0] == p[0]);
        assert(c[0] == p[0]);
        assert(b.len() > 0);
        assert(b[0] == p[0]);
        let p1 = p.drop_first();
        assert(a.drop_first().subrange(0, p1.len() as int) =~= p1);
        assert(c.drop_first().subrange(0, p1.len() as int) =~= p1);
        lemma_between_shares_prefix(a.drop_first(), b.drop_first(), c.drop_first(), p1);
        assert(b.subrange(0, p.len() as int) =~= seq![b[0]] + b.drop_first().subrange(0, p1.len() as int));
        assert(p =~= seq![p[0]] + p1);
        assert(b.subrange(0, p.len() as int) =~= p);
    } else {
        assert(b.subrange(0, 0) =~= p);
    }
}

/// With T+1 and timestamps in time order from the entry on, no bar of the
/// exit window lies on the entry's trading day.
pub proof fn lemma_t_plus_one_window_off_entry_day(stamps: Seq<Seq<u8>>, entry: int, max_days: int)
    requires
        0 <= entry < stamps.len(),
        stamp_day(stamps[entry]) is Some,
        forall|i: int, j: int|
            entry <= i < j < stamps.len() ==> !lex_lt(#[trigger] stamps[j], #[trigger] stamps[i]),
    ensures
        exit_window(stamps, entry, max_days, true) matches Some((s, e)) ==> forall|k: int|
            s <= k < e ==> !has_prefix(#[trigger] stamps[k], stamp_day(stamps[entry]).unwrap()),
{
    let end = window_end_from(stamps, entry + 1, max_days, entry + 1);
    let day = stamp_day(stamps[entry]).unwrap();
    lemma_window_end_bounds(stamps, entry + 1, max_days, entry + 1);
    if let Some((s, e)) = exit_window(stamps, entry, max_days, true) {
        lemma_first_other_day_bounds(stamps, day, entry + 1, end);
        assert(has_prefix(stamps[entry], day));
        assert forall|k: int| s <= k < e implies !has_prefix(#[trigger] stamps[k], day) by {
            if has_prefix(stamps[k], day) && k > s {
                assert(!lex_lt(stamps[s], stamps[entry]));
                assert(!lex_lt(stamps[k], stamps[s]));
                lemma_between_shares_prefix(stamps[entry], stamps[s], stamps[k], day);
            }
        }
    }
}

/// The distinct days among `days` as strings of bytes.
spec fn seen_bytes(seen: Seq<&str>) -> Seq<Seq<u8>> {
    seen.map_values(|s: &str| s.spec_bytes())
}

/// Whether `day` is among the days seen so far.
fn seen_contains(seen: &Vec<&str>, day: &str) -> (r: bool)
    ensures
        r == seen_bytes(seen@).contains(day.spec_bytes()),
{
    let mut i: usize = 0;
    while i < seen.len()
        invariant
            i <= seen@.len(),
            forall|j: int| 0 <= j < i ==> seen_bytes(seen@)[j] != day.spec_bytes(),
        decreases seen@.len() - i,
    {
        if crate::text::str_eq(seen[i], day) {
            proof {
                assert(seen_bytes(seen@)[i as int] == day.spec_bytes());
            }
            return true;
        }
        proof {
            assert(seen@[i as int]@ != day@);
            assert(seen_bytes(seen@)[i as int] != day.spec_bytes()) by {
                if seen_bytes(seen@)[i as int] == day.spec_bytes() {
                    assert(vstd::utf8::decode_utf8(vstd::utf8::encode_utf8(seen@[i as int]@)) == seen@[i as int]@);
                    assert(vstd::utf8::decode_utf8(vstd::utf8::encode_utf8(day@)) == day@);
                }
            }
        }
        i = i + 1;
    }
    false
}

/// The exit window `(exit_start, exit_window_end)` of a position entered at
/// per-symbol bar `entry_bar_idx`, given the UTC timestamps of the symbol's
/// bars; `None` when no bar is left to exit on.
///
/// The window ends before the first bar that would make it span more than
/// `max_holding_trading_days` trading days.  With T+1 it starts at the first
/// bar that is not on the entry's trading day.
pub fn ma20_exit_window(
    entry_bar_idx: usize,
    stamps: &Vec<String>,
    max_holding_trading_days: usize,
    t_plus_one: bool,
) -> (r: Option<(usize, usize)>)
    requires
        entry_bar_idx < usize::MAX,
        // the entry's day is read (as a ten-byte prefix) only when the window is not empty
        t_plus_one && window_end_from(
            stamp_bytes(stamps@),
            entry_bar_idx + 1,
            max_holding_trading_days as int,
            entry_bar_idx + 1,
        ) > entry_bar_idx + 1 ==> stamp_day(stamp_bytes(stamps@)[entry_bar_idx as int]) is Some,
    ensures
        match r {
            Some((s, e)) => exit_window(
                stamp_bytes(stamps@),
                entry_bar_idx as int,
                max_holding_trading_days as int,
                t_plus_one,
            ) == Some((s as int, e as int)),
            None => exit_window(
                stamp_bytes(stamps@),
                entry_bar_idx as int,
                max_holding_trading_days as int,
                t_plus_one,
            ) is None,
        },
        // exits lie after the entry, within the bars, and with T+1 not on the entry's day
        r matches Some((s, e)) ==> {
            &&& entry_bar_idx < s < e <= stamps@.len()
            &&& days_seen(stamp_bytes(stamps@), entry_bar_idx + 1, e as int).len() <= max_holding_trading_days
            &&& (t_plus_one ==> !has_prefix(
                stamp_bytes(stamps@)[s as int],
                stamp_day(stamp_bytes(stamps@)[entry_bar_idx as int]).unwrap(),
            ))
        },
{
    let ghost sb = stamp_bytes(stamps@);
    let ghost lo = entry_bar_idx + 1;
    let ghost max_days = max_holding_trading_days as int;
    let n = stamps.len();
    // Determine exit window end: advance up to max_holding_trading_days
    let mut exit_window_end = entry_bar_idx + 1;
    let mut seen: Vec<&str> = Vec::new();
    let mut j = entry_bar_idx + 1;
    proof {
        lemma_window_end_bounds(sb, lo, max_days, lo);
    }
    while j < n
        invariant_except_break
            j <= n || j == lo,
            seen_bytes(seen@) == days_seen(sb, lo, j as int),
            seen@.len() <= max_days,
            window_end_from(sb, lo, max_days, lo) == window_end_from(sb, lo, max_days, j as int),
        invariant
            sb == stamp_bytes(stamps@),
            n == stamps@.len(),
            lo == entry_bar_idx + 1,
            max_days == max_holding_trading_days as int,
            lo <= j,
            exit_window_end == j,
        ensures
            exit_window_end > lo ==> window_end_from(sb, lo, max_days, lo) == exit_window_end,
            exit_window_end <= lo ==> window_end_from(sb, lo, max_days, lo) <= lo,
            exit_window_end <= n || exit_window_end == lo,
            days_seen(sb, lo, exit_window_end as int).len() <= max_days,
        decreases n - j,
    {
        let ghost prev = days_seen(sb, lo, j as int);
        let stamp = stamps[j].as_str();
        proof {
            assert(sb[j as int] == stamp.spec_bytes());
        }
        match crate::text::str_get(stamp, 0, 10) {
            Some(day) => {
                if !seen_contains(&seen, day) {
                    let ghost before = seen@;
                    seen.push(day);
                    proof {
                        assert(seen_bytes(seen@) =~= seen_bytes(before).push(day.spec_bytes()));
                    }
                }
                proof {
                    assert(seen_bytes(seen@) == days_seen(sb, lo, j + 1));
                }
                if seen.len() > max_holding_trading_days {
                    proof {
                        assert(seen_bytes(seen@).len() == seen@.len());
                        assert(sb.len() == n);
                        assert(window_end_from(sb, lo, max_days, j as int) == j);
                        assert(prev.len() <= max_days);
                    }
                    break;
                }
            },
            None => {
                proof {
                    assert(seen_bytes(seen@) == days_seen(sb, lo, j + 1));
                }
            },
        }
        proof {
            assert(seen_bytes(seen@).len() == seen@.len());
        }
        exit_window_end = j + 1;
        j = j + 1;
    }
    proof {
        lemma_window_end_bounds(sb, lo, max_days, lo);
    }
    if exit_window_end <= entry_bar_idx + 1 {
        return None;
    }
    // T+1: skip same-day bars
    let mut exit_start = entry_bar_idx + 1;
    if t_plus_one {
        let entry_stamp = stamps[entry_bar_idx].as_str();
        proof {
            assert(sb[entry_bar_idx as int] == entry_stamp.spec_bytes());
        }
        let entry_date = match crate::text::str_get(entry_stamp, 0, 10) {
            Some(d) => d,
            None => {
                proof {
                    assert(false);
                }
                entry_stamp
            },
        };
        let ghost day = entry_date.spec_bytes();
        proof {
            lemma_first_other_day_bounds(sb, day, lo, exit_window_end as int);
        }
        while exit_start < exit_window_end && crate::text::starts_with(stamps[exit_start].as_str(), entry_date)
            invariant
                sb == stamp_bytes(stamps@),
                n == stamps@.len(),
                day == entry_date.spec_bytes(),
                lo <= exit_start <= exit_window_end,
                exit_window_end <= n,
                first_other_day(sb, day, lo, exit_window_end as int) == first_other_day(
                    sb,
                    day,
                    exit_start as int,
                    exit_window_end as int,
                ),
            decreases exit_window_end - exit_start,
        {
            proof {
                assert(sb[exit_start as int] == vstd::utf8::encode_utf8(stamps@[exit_start as int]@));
            }
            exit_start = exit_start + 1;
        }
        proof {
            if exit_start < exit_window_end {
                assert(sb[exit_start as int] == vstd::utf8::encode_utf8(stamps@[exit_start as int]@));
            }
        }
    }
    if exit_start >= exit_window_end {
        return None;
    }
    Some((exit_start, exit_window_end))
}

/// Why a position is closed.
#[derive(Debug, Clone, Copy, PartialEq, Eq)]
pub enum Ma20ExitReason {
    /// Long upper shadow + volume spike above EMA20 in uptrend.
    MainWaveTopExhaustion,
    /// The bar's low reaches the stop price.
    StopLoss,
    /// The bar's high reaches the target price.
    ProfitTake,
    /// No check fired within the window: close at its last bar.
    MaxHolding,
}

/// The name under which each exit reason is reported.
pub open spec fn exit_reason_text(r: Ma20ExitReason) -> Seq<char> {
    match r {
        Ma20ExitReason::MainWaveTopExhaustion => "main_wave_top_exhaustion"@,
        Ma20ExitReason::StopLoss => "stop_loss"@,
        Ma20ExitReason::ProfitTake => "profit_take"@,
        Ma20ExitReason::MaxHolding => "max_holding"@,
    }
}

impl Ma20ExitReason {
    pub fn as_str(&self) -> (r: &'static str)
        ensures
            r@ == exit_reason_text(*self),
    {
        match self {
            Ma20ExitReason::MainWaveTopExhaustion => "main_wave_top_exhaustion",
            Ma20ExitReason::StopLoss => "stop_loss",
            Ma20ExitReason::ProfitTake => "profit_take",
            Ma20ExitReason::MaxHolding => "max_holding",
        }
    }
}

/// The exit chosen among bars `[from, end)`: the first bar on which a check
/// fires, the checks of one bar taken in the order top exhaustion, stop loss,
/// profit take; the window's last bar when none fires.
pub open spec fn first_exit(
    top_exhaustion: Seq<bool>,
    stop_hit: Seq<bool>,
    target_hit: Seq<bool>,
    from: int,
    end: int,
) -> (int, Ma20ExitReason)
    decreases end - from,
{
    if from >= end {
        (end - 1, Ma20ExitReason::MaxHolding)
    } else if top_exhaustion[from] {
        (from, Ma20ExitReason::MainWaveTopExhaustion)
    } else if stop_hit[from] {
        (from, Ma20ExitReason::StopLoss)
    } else if target_hit[from] {
        (from, Ma20ExitReason::ProfitTake)
    } else {
        first_exit(top_exhaustion, stop_hit, target_hit, from + 1, end)
    }
}

proof fn lemma_first_exit_in_window(top: Seq<bool>, stop: Seq<bool>, target: Seq<bool>, from: int, end: int)
    requires
        from < end,
    ensures
        from <= first_exit(top, stop, target, from, end).0 < end,
    decreases end - from,
{
    if !top[from] && !stop[from] && !target[from] {
        if from + 1 < end {
            lemma_first_exit_in_window(top, stop, target, from + 1, end);
        } else {
            assert(first_exit(top, stop, target, from + 1, end) == (end - 1, Ma20ExitReason::MaxHolding));
        }
    }
}

/// No check fires on any bar of `[lo, hi)`.
pub open spec fn no_check_fires(top: Seq<bool>, stop: Seq<bool>, target: Seq<bool>, lo: int, hi: int) -> bool {
    forall|j: int| lo <= j < hi ==> !(#[trigger] top[j]) && !stop[j] && !target[j]
}

/// The exit choice within a window `[from, end)`: the chosen bar lies in the
/// window and no check fires on any bar before it; a check reason is the
/// first check, in the order top exhaustion, stop loss, profit take, that
/// fires on the chosen bar; and the reason is max holding, at the window's
/// last bar, exactly when no check fires on any bar of the window.
pub proof fn lemma_exit_is_first_firing_check(
    top: Seq<bool>,
    stop: Seq<bool>,
    target: Seq<bool>,
    from: int,
    end: int,
)
    requires
        from < end,
    ensures
        from <= first_exit(top, stop, target, from, end).0 < end,
        no_check_fires(top, stop, target, from, first_exit(top, stop, target, from, end).0),
        first_exit(top, stop, target, from, end).1 is MainWaveTopExhaustion ==> top[first_exit(top, stop, target, from, end).0],
        first_exit(top, stop, target, from, end).1 is StopLoss ==> !top[first_exit(top, stop, target, from, end).0]
            && stop[first_exit(top, stop, target, from, end).0],
        first_exit(top, stop, target, from, end).1 is ProfitTake ==> !top[first_exit(top, stop, target, from, end).0]
            && !stop[first_exit(top, stop, target, from, end).0] && target[first_exit(top, stop, target, from, end).0],
        first_exit(top, stop, target, from, end).1 is MaxHolding ==> first_exit(top, stop, target, from, end).0 == end - 1,
        first_exit(top, stop, target, from, end).1 is MaxHolding <==> no_check_fires(top, stop, target, from, end),
    decreases end - from,
{
    if !top[from] && !stop[from] && !target[from] {
        if from + 1 < end {
            lemma_exit_is_first_firing_check(top, stop, target, from + 1, end);
            let k = first_exit(top, stop, target, from, end).0;
            assert(no_check_fires(top, stop, target, from, k)) by {
                assert forall|j: int| from <= j < k implies !(#[trigger] top[j]) && !stop[j] && !target[j] by {
                    if j > from {
                        assert(from + 1 <= j < k);
                    }
                }
            }
            if no_check_fires(top, stop, target, from + 1, end) {
                assert(no_check_fires(top, stop, target, from, end)) by {
                    assert forall|j: int| from <= j < end implies !(#[trigger] top[j]) && !stop[j] && !target[j] by {
                        if j > from {
                            assert(from + 1 <= j < end);
                        }
                    }
                }
            }
        } else {
            assert(first_exit(top, stop, target, from + 1, end) == (end - 1, Ma20ExitReason::MaxHolding));
            assert(no_check_fires(top, stop, target, from, end)) by {
                assert forall|j: int| from <= j < end implies !(#[trigger] top[j]) && !stop[j] && !target[j] by {
                    assert(j == from);
                }
            }
        }
    } else {
        assert(no_check_fires(top, stop, target, from, from));
    }
}

/// The exit bar and reason of a position whose exit window is
/// `[exit_start, exit_window_end)`, given for each bar whether the top
/// exhaustion pattern shows, whether the low reaches the stop price and
/// whether the high reaches the target price.
pub fn ma20_exit_decision(
    exit_start: usize,
    exit_window_end: usize,
    top_exhaustion: &Vec<bool>,
    stop_hit: &Vec<bool>,
    target_hit: &Vec<bool>,
) -> (r: (usize, Ma20ExitReason))
    requires
        exit_start < exit_window_end,
        exit_window_end <= top_exhaustion@.len(),
        exit_window_end <= stop_hit@.len(),
        exit_window_end <= target_hit@.len(),
    ensures
        (r.0 as int, r.1) == first_exit(
            top_exhaustion@,
            stop_hit@,
            target_hit@,
            exit_start as int,
            exit_window_end as int,
        ),
        exit_start <= r.0 < exit_window_end,
        // no check fires on a bar of the window before the exit bar
        no_check_fires(top_exhaustion@, stop_hit@, target_hit@, exit_start as int, r.0 as int),
        // the reason is the first check that fires on the exit bar
        r.1 is MainWaveTopExhaustion ==> top_exhaustion@[r.0 as int],
        r.1 is StopLoss ==> !top_exhaustion@[r.0 as int] && stop_hit@[r.0 as int],
        r.1 is ProfitTake ==> !top_exhaustion@[r.0 as int] && !stop_hit@[r.0 as int] && target_hit@[r.0 as int],
        // max holding, at the window's last bar, exactly when no check fires in the window
        no_check_fires(top_exhaustion@, stop_hit@, target_hit@, exit_start as int, exit_window_end as int)
            ==> r.0 == exit_window_end - 1 && r.1 is MaxHolding,
        r.1 is MaxHolding ==> no_check_fires(top_exhaustion@, stop_hit@, target_hit@, exit_start as int, exit_window_end as int),
{
    proof {
        lemma_first_exit_in_window(top_exhaustion@, stop_hit@, target_hit@, exit_start as int, exit_window_end as int);
        lemma_exit_is_first_firing_check(top_exhaustion@, stop_hit@, target_hit@, exit_start as int, exit_window_end as int);
    }
    let mut j = exit_start;
    while j < exit_window_end
        invariant
            exit_start <= j <= exit_window_end,
            exit_window_end <= top_exhaustion@.len(),
            exit_window_end <= stop_hit@.len(),
            exit_window_end <= target_hit@.len(),
            first_exit(top_exhaustion@, stop_hit@, target_hit@, exit_start as int, exit_window_end as int)
                == first_exit(top_exhaustion@, stop_hit@, target_hit@, j as int, exit_window_end as int),
        decreases exit_window_end - j,
    {
        if top_exhaustion[j] {
            proof {
                lemma_exit_is_first_firing_check(top_exhaustion@, stop_hit@, target_hit@, exit_start as int, exit_window_end as int);
            }
            return (j, Ma20ExitReason::MainWaveTopExhaustion);
        }
        if stop_hit[j] {
            proof {
                lemma_exit_is_first_firing_check(top_exhaustion@, stop_hit@, target_hit@, exit_start as int, exit_window_end as int);
            }
            return (j, Ma20ExitReason::StopLoss);
        }
        if target_hit[j] {
            proof {
                lemma_exit_is_first_firing_check(top_exhaustion@, stop_hit@, target_hit@, exit_start as int, exit_window_end as int);
            }
            return (j, Ma20ExitReason::ProfitTake);
        }
        j = j + 1;
    }
    proof {
        lemma_exit_is_first_firing_check(top_exhaustion@, stop_hit@, target_hit@, exit_start as int, exit_window_end as int);
    }
    (exit_window_end - 1, Ma20ExitReason::MaxHolding)
}

} // verus!
