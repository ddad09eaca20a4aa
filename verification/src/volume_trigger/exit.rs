//! Volume trigger exit matching — reverse signal exit + end-of-data fallback.
//!
//! - Reverse exit: the next short signal of the same symbol whose bar lies
//!   after the entry bar.
//! - T+1: with T+1 settlement the exit lies on another trading day.
//! - End of data: the position is closed at the symbol's last bar, if that
//!   bar lies after the entry and, with T+1, on another trading day.

use vstd::prelude::*;
use vstd::string::StringSliceAdditionalSpecFns;
use crate::text::lex_lt;
use crate::volume_trigger::signal::VolumeTriggerSignalType;

verus! {

/// What exit matching reads of a signal: its symbol, the per-symbol bar
/// index of its bar, its trading day and its type.
pub struct SignalMark {
    pub symbol: String,
    /// Index into per-symbol bars (not global bar index)
    pub bar_idx: usize,
    pub trading_day: String,
    pub signal_type: VolumeTriggerSignalType,
}

/// How a long entry is closed.
#[derive(Debug, Clone, Copy, PartialEq, Eq)]
pub enum ExitChoice {
    /// At the exit signal at position `signal_pos` of the exit signal list.
    ReverseShort { signal_pos: usize, holding_bars: usize },
    /// At the last bar of the symbol, per-symbol index `last_local_idx`.
    EndOfData { last_local_idx: usize, holding_bars: usize },
}

/// The exit reason reported for each kind of exit.
pub open spec fn exit_reason_name(c: ExitChoice) -> Seq<char> {
    match c {
        ExitChoice::ReverseShort { .. } => "volume_trigger_reverse_short"@,
        ExitChoice::EndOfData { .. } => "volume_trigger_eod"@,
    }
}

impl ExitChoice {
    /// "volume_trigger_reverse_short" or "volume_trigger_eod".
    pub fn exit_reason(&self) -> (r: &'static str)
        ensures
            r@ == exit_reason_name(*self),
    {
        match self {
            ExitChoice::ReverseShort { .. } => "volume_trigger_reverse_short",
            ExitChoice::EndOfData { .. } => "volume_trigger_eod",
        }
    }
}

/// An exit signal may close the entry: it is a short signal of the entry's
/// symbol, it lies after the entry bar; with T+1 it lies on another trading
/// day, without T+1 not on an earlier day.
pub open spec fn closes_entry(entry: SignalMark, s: SignalMark, t_plus_one: bool) -> bool {
    &&& s.symbol@ == entry.symbol@
    &&& s.signal_type == VolumeTriggerSignalType::Short
    &&& s.bar_idx > entry.bar_idx
    &&& !(t_plus_one && s.trading_day@ == entry.trading_day@)
    &&& !(!t_plus_one && lex_lt(
        vstd::utf8::encode_utf8(s.trading_day@),
        vstd::utf8::encode_utf8(entry.trading_day@),
    ))
}

/// The last bar may close the entry: it lies after the entry bar and, with
/// T+1, its trading day `last_day` is not the entry's.
pub open spec fn last_bar_closes(entry: SignalMark, n_bars: int, last_day: Seq<char>, t_plus_one: bool) -> bool {
    &&& n_bars >= 1
    &&& n_bars - 1 > entry.bar_idx
    &&& !(t_plus_one && last_day == entry.trading_day@)
}

/// The exit that matching chooses: the first exit signal that may close the
/// entry; failing that, the last of `n_bars` bars if it may close it; failing
/// that, none.
pub open spec fn chosen_exit(entry: SignalMark, exits: Seq<SignalMark>, n_bars: int, last_day: Seq<char>, t_plus_one: bool) -> Option<ExitChoice>
    decreases exits.len(),
{
    if exits.len() > 0 {
        if closes_entry(entry, exits[0], t_plus_one) {
            Some(ExitChoice::ReverseShort {
                signal_pos: 0,
                holding_bars: (exits[0].bar_idx - entry.bar_idx) as usize,
            })
        } else {
            match chosen_exit(entry, exits.drop_first(), n_bars, last_day, t_plus_one) {
                Some(ExitChoice::ReverseShort { signal_pos, holding_bars }) => Some(
                    ExitChoice::ReverseShort { signal_pos: (signal_pos + 1) as usize, holding_bars },
                ),
                other => other,
            }
        }
    } else if last_bar_closes(entry, n_bars, last_day, t_plus_one) {
        Some(ExitChoice::EndOfData {
            last_local_idx: (n_bars - 1) as usize,
            holding_bars: (n_bars - 1 - entry.bar_idx) as usize,
        })
    } else {
        None
    }
}

/// The per-symbol bar index at which a chosen exit happens.
pub open spec fn exit_local_idx(c: ExitChoice, exits: Seq<SignalMark>) -> int {
    match c {
        ExitChoice::ReverseShort { signal_pos, .. } => exits[signal_pos as int].bar_idx as int,
        ExitChoice::EndOfData { last_local_idx, .. } => last_local_idx as int,
    }
}

proof fn lemma_chosen_exit_facts(entry: SignalMark, exits: Seq<SignalMark>, n_bars: int, last_day: Seq<char>, t_plus_one: bool)
    requires
        exits.len() <= usize::MAX,
        n_bars <= usize::MAX,
    ensures
        chosen_exit(entry, exits, n_bars, last_day, t_plus_one) matches Some(c) ==> ({
            &&& c matches ExitChoice::ReverseShort { signal_pos, holding_bars } ==> {
                &&& signal_pos < exits.len()
                &&& closes_entry(entry, exits[signal_pos as int], t_plus_one)
                &&& forall|k: int| 0 <= k < signal_pos ==> !closes_entry(entry, #[trigger] exits[k], t_plus_one)
                &&& holding_bars == exits[signal_pos as int].bar_idx - entry.bar_idx
            }
            &&& c matches ExitChoice::EndOfData { last_local_idx, holding_bars } ==> {
                &&& forall|k: int| 0 <= k < exits.len() ==> !closes_entry(entry, #[trigger] exits[k], t_plus_one)
                &&& last_local_idx == n_bars - 1
                &&& holding_bars == n_bars - 1 - entry.bar_idx
                &&& last_bar_closes(entry, n_bars, last_day, t_plus_one)
            }
        }),
        chosen_exit(entry, exits, n_bars, last_day, t_plus_one) is None ==> (forall|k: int|
            0 <= k < exits.len() ==> !closes_entry(entry, #[trigger] exits[k], t_plus_one)),
        chosen_exit(entry, exits, n_bars, last_day, t_plus_one) is None ==> !last_bar_closes(entry, n_bars, last_day, t_plus_one),
    decreases exits.len(),
{
    if exits.len() > 0 {
        lemma_chosen_exit_facts(entry, exits.drop_first(), n_bars, last_day, t_plus_one);
        assert forall|k: int| 1 <= k < exits.len() implies exits[k] == exits.drop_first()[k - 1] by {}
    }
}

/// Match a long entry to its exit.
///
/// 1. The next exit signal (same symbol) after the entry bar that T+1 allows
/// 2. T+1 enforcement: if `t_plus_one`, the exit must be on a different trading day
/// 3. If none is found, the last of the symbol's `n_bars` bars (end of data),
///    whose trading day is `last_bar_day`, under the same rules
///
/// Returns `None` only if no valid exit can be found.
pub fn choose_volume_trigger_exit(
    entry: &SignalMark,
    exit_signals: &[SignalMark],
    n_bars: usize,
    last_bar_day: &str,
    t_plus_one: bool,
) -> (r: Option<ExitChoice>)
    ensures
        r == chosen_exit(*entry, exit_signals@, n_bars as int, last_bar_day@, t_plus_one),
        // the exit lies strictly after the entry, and the position is held at least one bar
        r matches Some(c) ==> exit_local_idx(c, exit_signals@) > entry.bar_idx,
        r matches Some(ExitChoice::ReverseShort { signal_pos, holding_bars }) ==> {
            &&& signal_pos < exit_signals@.len()
            &&& holding_bars >= 1
            &&& (t_plus_one ==> exit_signals@[signal_pos as int].trading_day@ != entry.trading_day@)
        },
        r matches Some(ExitChoice::EndOfData { holding_bars, .. }) ==> {
            &&& holding_bars >= 1
            &&& (t_plus_one ==> last_bar_day@ != entry.trading_day@)
        },
        // a reverse exit is a short signal of the entry's symbol
        r matches Some(ExitChoice::ReverseShort { signal_pos, .. }) ==> {
            &&& exit_signals@[signal_pos as int].symbol@ == entry.symbol@
            &&& exit_signals@[signal_pos as int].signal_type == VolumeTriggerSignalType::Short
        },
        // it lies after the entry bar, without T+1 not on an earlier day, and
        // no signal before it in the list is such a short
        r matches Some(ExitChoice::ReverseShort { signal_pos, holding_bars }) ==> {
            &&& exit_signals@[signal_pos as int].bar_idx > entry.bar_idx
            &&& holding_bars == exit_signals@[signal_pos as int].bar_idx - entry.bar_idx
            &&& (!t_plus_one ==> !lex_lt(
                vstd::utf8::encode_utf8(exit_signals@[signal_pos as int].trading_day@),
                vstd::utf8::encode_utf8(entry.trading_day@),
            ))
            &&& forall|k: int| 0 <= k < signal_pos ==> !(
                (#[trigger] exit_signals@[k]).symbol@ == entry.symbol@
                && exit_signals@[k].signal_type == VolumeTriggerSignalType::Short
                && exit_signals@[k].bar_idx > entry.bar_idx
                && (t_plus_one ==> exit_signals@[k].trading_day@ != entry.trading_day@)
                && (!t_plus_one ==> !lex_lt(
                    vstd::utf8::encode_utf8(exit_signals@[k].trading_day@),
                    vstd::utf8::encode_utf8(entry.trading_day@),
                ))
            )
        },
        // the end of data closes only when no signal does, at the last bar
        r matches Some(ExitChoice::EndOfData { last_local_idx, holding_bars }) ==> {
            &&& last_local_idx == n_bars - 1
            &&& holding_bars == n_bars - 1 - entry.bar_idx
            &&& forall|k: int| 0 <= k < exit_signals@.len() ==> !(
                (#[trigger] exit_signals@[k]).symbol@ == entry.symbol@
                && exit_signals@[k].signal_type == VolumeTriggerSignalType::Short
                && exit_signals@[k].bar_idx > entry.bar_idx
                && (t_plus_one ==> exit_signals@[k].trading_day@ != entry.trading_day@)
                && (!t_plus_one ==> !lex_lt(
                    vstd::utf8::encode_utf8(exit_signals@[k].trading_day@),
                    vstd::utf8::encode_utf8(entry.trading_day@),
                ))
            )
        },
        // no exit: no signal closes, and the last bar is the entry's or, with
        // T+1, lies on the entry's day
        r is None ==> {
            &&& forall|k: int| 0 <= k < exit_signals@.len() ==> !(
                (#[trigger] exit_signals@[k]).symbol@ == entry.symbol@
                && exit_signals@[k].signal_type == VolumeTriggerSignalType::Short
                && exit_signals@[k].bar_idx > entry.bar_idx
                && (t_plus_one ==> exit_signals@[k].trading_day@ != entry.trading_day@)
                && (!t_plus_one ==> !lex_lt(
                    vstd::utf8::encode_utf8(exit_signals@[k].trading_day@),
                    vstd::utf8::encode_utf8(entry.trading_day@),
                ))
            )
            &&& !(n_bars >= 1 && n_bars - 1 > entry.bar_idx && !(t_plus_one && last_bar_day@ == entry.trading_day@))
        },
{
    proof {
        assert(exit_signals@.len() == exit_signals.len());
        lemma_chosen_exit_facts(*entry, exit_signals@, n_bars as int, last_bar_day@, t_plus_one);
    }
    let mut k: usize = 0;
    while k < exit_signals.len()
        invariant
            k <= exit_signals@.len(),
            forall|j: int| 0 <= j < k ==> !closes_entry(*entry, #[trigger] exit_signals@[j], t_plus_one),
        decreases exit_signals@.len() - k,
    {
        let s = &exit_signals[k];
        // Must be a short signal of the same symbol
        let same_symbol = crate::text::str_eq(s.symbol.as_str(), entry.symbol.as_str());
        let is_short = match s.signal_type {
            VolumeTriggerSignalType::Short => true,
            VolumeTriggerSignalType::Long => false,
        };
        // Must be after the entry bar
        let later = s.bar_idx > entry.bar_idx;
        // T+1: exit must be on a different trading day
        let same_day = crate::text::str_eq(s.trading_day.as_str(), entry.trading_day.as_str());
        // Without T+1: exit must be on the same day or later
        let earlier_day = crate::text::str_lt(s.trading_day.as_str(), entry.trading_day.as_str());
        if same_symbol && is_short && later && !(t_plus_one && same_day) && !(!t_plus_one && earlier_day) {
            proof {
                assert(closes_entry(*entry, exit_signals@[k as int], t_plus_one));
                lemma_first_closing_is_chosen(*entry, exit_signals@, n_bars as int, last_bar_day@, t_plus_one, k as int);
            }
            return Some(ExitChoice::ReverseShort { signal_pos: k, holding_bars: s.bar_idx - entry.bar_idx });
        }
        k = k + 1;
    }
    proof {
        lemma_none_closing(*entry, exit_signals@, n_bars as int, last_bar_day@, t_plus_one);
    }
    // Fallback: hold until end of data, T+1 permitting
    let last_on_entry_day = crate::text::str_eq(last_bar_day, entry.trading_day.as_str());
    if n_bars >= 1 && n_bars - 1 > entry.bar_idx && !(t_plus_one && last_on_entry_day) {
        Some(ExitChoice::EndOfData { last_local_idx: n_bars - 1, holding_bars: n_bars - 1 - entry.bar_idx })
    } else {
        // Entry at the very last bar, or T+1 forbids the last bar — cannot exit
        None
    }
}

proof fn lemma_first_closing_is_chosen(entry: SignalMark, exits: Seq<SignalMark>, n_bars: int, last_day: Seq<char>, t_plus_one: bool, k: int)
    requires
        0 <= k < exits.len(),
        exits.len() <= usize::MAX,
        closes_entry(entry, exits[k], t_plus_one),
        forall|j: int| 0 <= j < k ==> !closes_entry(entry, #[trigger] exits[j], t_plus_one),
    ensures
        chosen_exit(entry, exits, n_bars, last_day, t_plus_one) == Some(ExitChoice::ReverseShort {
            signal_pos: k as usize,
            holding_bars: (exits[k].bar_idx - entry.bar_idx) as usize,
        }),
    decreases k,
{
    if k > 0 {
        assert(!closes_entry(entry, exits[0], t_plus_one));
        assert forall|j: int| 0 <= j < k - 1 implies !closes_entry(entry, #[trigger] exits.drop_first()[j], t_plus_one) by {
            assert(exits.drop_first()[j] == exits[j + 1]);
        }
        lemma_first_closing_is_chosen(entry, exits.drop_first(), n_bars, last_day, t_plus_one, k - 1);
    }
}

proof fn lemma_none_closing(entry: SignalMark, exits: Seq<SignalMark>, n_bars: int, last_day: Seq<char>, t_plus_one: bool)
    requires
        forall|j: int| 0 <= j < exits.len() ==> !closes_entry(entry, #[trigger] exits[j], t_plus_one),
    ensures
        chosen_exit(entry, exits, n_bars, last_day, t_plus_one) == chosen_exit(entry, Seq::<SignalMark>::empty(), n_bars, last_day, t_plus_one),
    decreases exits.len(),
{
    if exits.len() > 0 {
        assert(!closes_entry(entry, exits[0], t_plus_one));
        assert forall|j: int| 0 <= j < exits.len() - 1 implies !closes_entry(entry, #[trigger] exits.drop_first()[j], t_plus_one) by {
            assert(exits.drop_first()[j] == exits[j + 1]);
        }
        lemma_none_closing(entry, exits.drop_first(), n_bars, last_day, t_plus_one);
    }
}

} // verus!
