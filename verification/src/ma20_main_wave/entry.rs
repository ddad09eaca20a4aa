//! Entry signal kinds of the MA20 main-wave strategy.
//!
//! Three entry kinds, all backward-looking:
//! - **boll_lower_rebound**: price touches then rebounds from Bollinger lower band
//! - **ema_pullback**: price pulls back to EMA20 in uptrend
//! - **strong_accumulation**: volume spike with price above Bollinger mid in uptrend
//!
//! and one exit kind produced by the traditional path.

use vstd::prelude::*;

verus! {

/// Signal type detected per bar.
#[derive(Debug, Clone, Copy, PartialEq, Eq)]
pub enum Ma20SignalKind {
    BollLowerRebound,
    EmaPullback,
    StrongAccumulation,
    /// volume_trigger_short (exit signal, only produced in traditional path)
    VolumeTriggerShort,
}

/// The name under which each signal kind is reported.
pub open spec fn ma20_signal_name(kind: Ma20SignalKind) -> Seq<char> {
    match kind {
        Ma20SignalKind::BollLowerRebound => "boll_lower_rebound"@,
        Ma20SignalKind::EmaPullback => "ema_pullback"@,
        Ma20SignalKind::StrongAccumulation => "strong_accumulation"@,
        Ma20SignalKind::VolumeTriggerShort => "volume_trigger_short"@,
    }
}

impl Ma20SignalKind {
    pub fn as_str(&self) -> (r: &'static str)
        ensures
            r@ == ma20_signal_name(*self),
    {
        match self {
            Ma20SignalKind::BollLowerRebound => "boll_lower_rebound",
            Ma20SignalKind::EmaPullback => "ema_pullback",
            Ma20SignalKind::StrongAccumulation => "strong_accumulation",
            Ma20SignalKind::VolumeTriggerShort => "volume_trigger_short",
        }
    }
}

} // verus!
