//! Window, gate and settlement parameters of the volume_trigger strategy.
//!
//! These are the integer and switch parameters: the dual-window volume
//! baseline lengths, the direction look-back, the entry gates, the cascade
//! direction windows, the daily buy limit, T+1 settlement and the number of
//! bars per day.  Every window is at least one long and each slow window is
//! longer than its fast window.

use vstd::prelude::*;
use crate::param_bag::{lookup, value_as_bool, value_as_str, value_as_u64, ParamBag, ParamValue};

verus! {

/// Integer and switch parameters of the volume_trigger signal detection.
#[derive(Debug, Clone, Copy, PartialEq, Eq)]
pub struct VolumeTriggerSettings {
    /// Fast window: number of past trading days for rolling average of daily max volume.
    pub fast_window_days: usize,
    /// Slow window: number of past trading days for rolling max of daily max volume.
    pub slow_window_days: usize,
    /// Number of bars before the current bar used as price reference window.
    pub direction_lookback_bars: usize,
    /// MA120 > MA200 daily trend gate.
    pub daily_ma120_ma200_gate_enabled: bool,
    /// EMA fast/slow direction cascade filter. Default: true
    pub cascade_direction_enabled: bool,
    /// Fast EMA window for cascade direction.
    pub cascade_direction_fast: usize,
    /// Slow EMA window for cascade direction.
    pub cascade_direction_slow: usize,
    /// Maximum number of buy entries per trading day.
    pub max_daily_buys: usize,
    /// T+1 settlement rule.
    pub t_plus_one: bool,
    /// Master switch: true = volume_trigger path, false = traditional multi-signal path.
    pub volume_trigger_signal_enabled: bool,
    /// Bars per trading day (15-minute bars: 16).
    pub bars_per_day: usize,
}

impl VolumeTriggerSettings {
    /// Every window is at least one long, each slow window is longer than its
    /// fast window, and the cascade fast window spans at least two days.
    pub open spec fn well_formed(self) -> bool {
        &&& self.fast_window_days >= 1
        &&& self.slow_window_days > self.fast_window_days
        &&& self.direction_lookback_bars >= 1
        &&& self.cascade_direction_fast >= 2
        &&& self.cascade_direction_slow > self.cascade_direction_fast
        &&& self.max_daily_buys >= 1
        &&& self.bars_per_day >= 1
    }

    /// The number of bars before signal detection can begin.
    pub open spec fn warmup(self) -> int {
        self.slow_window_days * self.bars_per_day + self.direction_lookback_bars
    }

    /// The defaults: windows 3/15 days, 6-bar direction, daily gate on,
    /// cascade direction on with windows 5/20, one buy per day, T+1, 16 bars per day.
    pub open spec fn spec_default() -> VolumeTriggerSettings {
        VolumeTriggerSettings {
            fast_window_days: 3,
            slow_window_days: 15,
            direction_lookback_bars: 6,
            daily_ma120_ma200_gate_enabled: true,
            cascade_direction_enabled: true,
            cascade_direction_fast: 5,
            cascade_direction_slow: 20,
            max_daily_buys: 1,
            t_plus_one: true,
            volume_trigger_signal_enabled: true,
            bars_per_day: 16,
        }
    }

    pub fn default_settings() -> (r: VolumeTriggerSettings)
        ensures
            r == Self::spec_default(),
            r.well_formed(),
    {
        VolumeTriggerSettings {
            fast_window_days: 3,
            slow_window_days: 15,
            direction_lookback_bars: 6,
            daily_ma120_ma200_gate_enabled: true,
            cascade_direction_enabled: true,
            cascade_direction_fast: 5,
            cascade_direction_slow: 20,
            max_daily_buys: 1,
            t_plus_one: true,
            volume_trigger_signal_enabled: true,
            bars_per_day: 16,
        }
    }

    /// Returns the minimum window size needed (in bars) before signal detection can begin.
    pub fn min_warmup_bars(&self) -> (r: usize)
        requires
            self.warmup() <= usize::MAX,
        ensures
            r == self.warmup(),
            // every bar from the warm-up on has a full direction reference window before it
            r >= self.direction_lookback_bars,
    {
        proof {
            vstd::arithmetic::mul::lemma_mul_nonnegative(
                self.slow_window_days as int,
                self.bars_per_day as int,
            );
        }
        self.slow_window_days * self.bars_per_day + self.direction_lookback_bars
    }

    /// Built from a parameter object (see `settings_from`).
    ///
    /// Handles the legacy DSL→worker parameter mapping:
    /// - `fast_window_days` before `trigger_fast_window_days`, and as the cascade fast window
    /// - `slow_window_days` before `trigger_slow_window_days`, and as the cascade slow window
    ///
    /// `None` when a fast window is the largest `usize`, so that the slow
    /// window, which must exceed it, cannot be formed.
    pub fn from_params(params: &ParamBag) -> (r: Option<VolumeTriggerSettings>)
        ensures
            r is None <==> (fast_window_of(params.entries@) >= usize::MAX || cascade_fast_of(params.entries@) >= usize::MAX),
            r matches Some(s) ==> s == settings_from(params.entries@) && s.well_formed(),
    {
        let d = Self::default_settings();
        let volume_trigger_signal_enabled = match params.get_bool("volume_trigger_signal_enabled") {
            Some(v) => v,
            None => d.volume_trigger_signal_enabled,
        };
        let fast_window_days = at_least(
            u64_or(first_present(params, "fast_window_days", "trigger_fast_window_days"), d.fast_window_days),
            1,
        );
        if fast_window_days == usize::MAX {
            return None;
        }
        let slow_window_days = at_least(
            u64_or(first_present(params, "slow_window_days", "trigger_slow_window_days"), d.slow_window_days),
            fast_window_days + 1,
        );
        let direction_lookback_bars = at_least(
            u64_or(params.get("direction_lookback_bars"), d.direction_lookback_bars),
            1,
        );
        let daily_ma120_ma200_gate_enabled = match params.get_bool("daily_ma120_ma200_buy_gate_enabled") {
            Some(v) => v,
            None => d.daily_ma120_ma200_gate_enabled,
        };
        let cascade_direction_enabled = match params.get_bool("cascade_direction_enabled") {
            Some(v) => v,
            None => d.cascade_direction_enabled,
        };
        let cascade_direction_fast = at_least(
            u64_or(first_present(params, "cascade_direction_fast_window", "fast_window_days"), d.cascade_direction_fast),
            2,
        );
        if cascade_direction_fast == usize::MAX {
            return None;
        }
        let cascade_direction_slow = at_least(
            u64_or(first_present(params, "cascade_direction_slow_window", "slow_window_days"), d.cascade_direction_slow),
            cascade_direction_fast + 1,
        );
        let max_daily_buys = at_least(u64_or(params.get("max_daily_buys"), d.max_daily_buys), 1);
        let t_plus_one = match params.get_str("settlement_rule") {
            Some(s) => crate::text::str_eq(s, "t_plus_one"),
            None => d.t_plus_one,
        };
        let bars_per_day = at_least(u64_or(params.get("bars_per_day"), d.bars_per_day), 1);
        Some(VolumeTriggerSettings {
            fast_window_days,
            slow_window_days,
            direction_lookback_bars,
            daily_ma120_ma200_gate_enabled,
            cascade_direction_enabled,
            cascade_direction_fast,
            cascade_direction_slow,
            max_daily_buys,
            t_plus_one,
            volume_trigger_signal_enabled,
            bars_per_day,
        })
    }
}

/// The larger of two numbers.
pub open spec fn larger(a: int, b: int) -> int {
    if a >= b {
        a
    } else {
        b
    }
}

/// Each setting reads its own parameter key.  A switch takes a boolean given
/// under its key and is on otherwise; T+1 holds unless a `settlement_rule`
/// string other than `t_plus_one` is given; a count takes an unsigned integer
/// given under its key (the first of two keys when that one is present at
/// all), raised to its lower bound, and its default otherwise.  Each slow
/// window is raised to one more than its fast window.
pub proof fn lemma_settings_read_their_keys(e: Seq<(String, ParamValue)>)
    ensures
        lookup(e, "volume_trigger_signal_enabled"@) matches Some(ParamValue::Bool(b)) ==> settings_from(e).volume_trigger_signal_enabled == b,
        !(lookup(e, "volume_trigger_signal_enabled"@) matches Some(ParamValue::Bool(_))) ==> settings_from(e).volume_trigger_signal_enabled,
        lookup(e, "daily_ma120_ma200_buy_gate_enabled"@) matches Some(ParamValue::Bool(b)) ==> settings_from(e).daily_ma120_ma200_gate_enabled == b,
        !(lookup(e, "daily_ma120_ma200_buy_gate_enabled"@) matches Some(ParamValue::Bool(_))) ==> settings_from(e).daily_ma120_ma200_gate_enabled,
        lookup(e, "cascade_direction_enabled"@) matches Some(ParamValue::Bool(b)) ==> settings_from(e).cascade_direction_enabled == b,
        !(lookup(e, "cascade_direction_enabled"@) matches Some(ParamValue::Bool(_))) ==> settings_from(e).cascade_direction_enabled,
        lookup(e, "settlement_rule"@) matches Some(ParamValue::Str(rule)) ==> settings_from(e).t_plus_one == (rule@ == "t_plus_one"@),
        !(lookup(e, "settlement_rule"@) matches Some(ParamValue::Str(_))) ==> settings_from(e).t_plus_one,
        lookup(e, "fast_window_days"@) matches Some(ParamValue::UInt(n)) ==> settings_from(e).fast_window_days == larger((n as usize) as int, 1),
        lookup(e, "fast_window_days"@) is Some && !(lookup(e, "fast_window_days"@) matches Some(ParamValue::UInt(_))) ==> settings_from(e).fast_window_days == 3,
        lookup(e, "fast_window_days"@) is None ==> (lookup(e, "trigger_fast_window_days"@) matches Some(ParamValue::UInt(n)) ==> settings_from(e).fast_window_days == larger((n as usize) as int, 1)),
        lookup(e, "fast_window_days"@) is None && !(lookup(e, "trigger_fast_window_days"@) matches Some(ParamValue::UInt(_))) ==> settings_from(e).fast_window_days == 3,
        settings_from(e).fast_window_days < usize::MAX ==> (lookup(e, "slow_window_days"@) matches Some(ParamValue::UInt(n)) ==> settings_from(e).slow_window_days == larger((n as usize) as int, settings_from(e).fast_window_days + 1)),
        settings_from(e).fast_window_days < usize::MAX && lookup(e, "slow_window_days"@) is Some && !(lookup(e, "slow_window_days"@) matches Some(ParamValue::UInt(_))) ==> settings_from(e).slow_window_days == larger(15, settings_from(e).fast_window_days + 1),
        settings_from(e).fast_window_days < usize::MAX && lookup(e, "slow_window_days"@) is None ==> (lookup(e, "trigger_slow_window_days"@) matches Some(ParamValue::UInt(n)) ==> settings_from(e).slow_window_days == larger((n as usize) as int, settings_from(e).fast_window_days + 1)),
        settings_from(e).fast_window_days < usize::MAX && lookup(e, "slow_window_days"@) is None && !(lookup(e, "trigger_slow_window_days"@) matches Some(ParamValue::UInt(_))) ==> settings_from(e).slow_window_days == larger(15, settings_from(e).fast_window_days + 1),
        lookup(e, "direction_lookback_bars"@) matches Some(ParamValue::UInt(n)) ==> settings_from(e).direction_lookback_bars == larger((n as usize) as int, 1),
        !(lookup(e, "direction_lookback_bars"@) matches Some(ParamValue::UInt(_))) ==> settings_from(e).direction_lookback_bars == 6,
        lookup(e, "cascade_direction_fast_window"@) matches Some(ParamValue::UInt(n)) ==> settings_from(e).cascade_direction_fast == larger((n as usize) as int, 2),
        lookup(e, "cascade_direction_fast_window"@) is Some && !(lookup(e, "cascade_direction_fast_window"@) matches Some(ParamValue::UInt(_))) ==> settings_from(e).cascade_direction_fast == 5,
        lookup(e, "cascade_direction_fast_window"@) is None ==> (lookup(e, "fast_window_days"@) matches Some(ParamValue::UInt(n)) ==> settings_from(e).cascade_direction_fast == larger((n as usize) as int, 2)),
        lookup(e, "cascade_direction_fast_window"@) is None && !(lookup(e, "fast_window_days"@) matches Some(ParamValue::UInt(_))) ==> settings_from(e).cascade_direction_fast == 5,
        settings_from(e).cascade_direction_fast < usize::MAX ==> (lookup(e, "cascade_direction_slow_window"@) matches Some(ParamValue::UInt(n)) ==> settings_from(e).cascade_direction_slow == larger((n as usize) as int, settings_from(e).cascade_direction_fast + 1)),
        settings_from(e).cascade_direction_fast < usize::MAX && lookup(e, "cascade_direction_slow_window"@) is Some && !(lookup(e, "cascade_direction_slow_window"@) matches Some(ParamValue::UInt(_))) ==> settings_from(e).cascade_direction_slow == larger(20, settings_from(e).cascade_direction_fast + 1),
        settings_from(e).cascade_direction_fast < usize::MAX && lookup(e, "cascade_direction_slow_window"@) is None ==> (lookup(e, "slow_window_days"@) matches Some(ParamValue::UInt(n)) ==> settings_from(e).cascade_direction_slow == larger((n as usize) as int, settings_from(e).cascade_direction_fast + 1)),
        settings_from(e).cascade_direction_fast < usize::MAX && lookup(e, "cascade_direction_slow_window"@) is None && !(lookup(e, "slow_window_days"@) matches Some(ParamValue::UInt(_))) ==> settings_from(e).cascade_direction_slow == larger(20, settings_from(e).cascade_direction_fast + 1),
        lookup(e, "max_daily_buys"@) matches Some(ParamValue::UInt(n)) ==> settings_from(e).max_daily_buys == larger((n as usize) as int, 1),
        !(lookup(e, "max_daily_buys"@) matches Some(ParamValue::UInt(_))) ==> settings_from(e).max_daily_buys == 1,
        lookup(e, "bars_per_day"@) matches Some(ParamValue::UInt(n)) ==> settings_from(e).bars_per_day == larger((n as usize) as int, 1),
        !(lookup(e, "bars_per_day"@) matches Some(ParamValue::UInt(_))) ==> settings_from(e).bars_per_day == 16,
{
}

/// The value under `k1` if that key is present (whatever its value), else the value under `k2`.
pub open spec fn present_first(entries: Seq<(String, ParamValue)>, k1: Seq<char>, k2: Seq<char>) -> Option<ParamValue> {
    match lookup(entries, k1) {
        Some(v) => Some(v),
        None => lookup(entries, k2),
    }
}

/// The value as an unsigned integer taken as `usize`, or `d` when it is not one.
pub open spec fn count_or(v: Option<ParamValue>, d: usize) -> usize {
    match value_as_u64(v) {
        Some(n) => n as usize,
        None => d,
    }
}

/// `max(a, b)` on counts.
pub open spec fn max_count(a: usize, b: int) -> int {
    if a >= b {
        a as int
    } else {
        b
    }
}

/// The fast baseline window in days.
pub open spec fn fast_window_of(entries: Seq<(String, ParamValue)>) -> int {
    max_count(count_or(present_first(entries, "fast_window_days"@, "trigger_fast_window_days"@), 3), 1)
}

/// The cascade fast EMA window.
pub open spec fn cascade_fast_of(entries: Seq<(String, ParamValue)>) -> int {
    max_count(count_or(present_first(entries, "cascade_direction_fast_window"@, "fast_window_days"@), 5), 2)
}

/// The settings that a parameter object asks for; absent or unusable values keep their defaults.
pub open spec fn settings_from(entries: Seq<(String, ParamValue)>) -> VolumeTriggerSettings {
    let fast = fast_window_of(entries);
    let cfast = cascade_fast_of(entries);
    VolumeTriggerSettings {
        fast_window_days: fast as usize,
        slow_window_days: max_count(
            count_or(present_first(entries, "slow_window_days"@, "trigger_slow_window_days"@), 15),
            fast + 1,
        ) as usize,
        direction_lookback_bars: max_count(count_or(lookup(entries, "direction_lookback_bars"@), 6), 1) as usize,
        daily_ma120_ma200_gate_enabled: match value_as_bool(lookup(entries, "daily_ma120_ma200_buy_gate_enabled"@)) {
            Some(b) => b,
            None => true,
        },
        cascade_direction_enabled: match value_as_bool(lookup(entries, "cascade_direction_enabled"@)) {
            Some(b) => b,
            None => true,
        },
        cascade_direction_fast: cfast as usize,
        cascade_direction_slow: max_count(
            count_or(present_first(entries, "cascade_direction_slow_window"@, "slow_window_days"@), 20),
            cfast + 1,
        ) as usize,
        max_daily_buys: max_count(count_or(lookup(entries, "max_daily_buys"@), 1), 1) as usize,
        t_plus_one: match value_as_str(lookup(entries, "settlement_rule"@)) {
            Some(s) => s == "t_plus_one"@,
            None => true,
        },
        volume_trigger_signal_enabled: match value_as_bool(lookup(entries, "volume_trigger_signal_enabled"@)) {
            Some(b) => b,
            None => true,
        },
        bars_per_day: max_count(count_or(lookup(entries, "bars_per_day"@), 16), 1) as usize,
    }
}

/// `params.get(k1).or_else(|| params.get(k2))`.
fn first_present<'a>(params: &'a ParamBag, k1: &str, k2: &str) -> (r: Option<&'a ParamValue>)
    ensures
        match r {
            Some(v) => present_first(params.entries@, k1@, k2@) == Some(*v),
            None => present_first(params.entries@, k1@, k2@) is None,
        },
{
    match params.get(k1) {
        Some(v) => Some(v),
        None => params.get(k2),
    }
}

/// `.and_then(|v| v.as_u64()).map(|v| v as usize).unwrap_or(d)`.
fn u64_or(v: Option<&ParamValue>, d: usize) -> (r: usize)
    ensures
        r == count_or(
            match v {
                Some(x) => Some(*x),
                None => None,
            },
            d,
        ),
{
    match v {
        Some(ParamValue::UInt(n)) => *n as usize,
        _ => d,
    }
}

/// `a.max(b)`.
fn at_least(a: usize, b: usize) -> (r: usize)
    ensures
        r == max_count(a, b as int),
{
    if a >= b {
        a
    } else {
        b
    }
}

} // verus!
