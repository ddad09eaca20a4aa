//! Laws of the registry: every registered key resolves to itself and every
//! alias to the key of its entry, resolution is idempotent, and every
//! operator inferred from a plan name is registered.

use vstd::prelude::*;
use super::{
    first_match, first_match_from, first_rule_key, inferred_key, names_match, operator_names, plan_name_rules,
    resolved_key,
};
use crate::text::{has_infix, lemma_trim_idempotent};
use crate::text::{is_white_space, trim, trim_end, trim_start};

verus! {

proof fn lemma_first_match_is_key(table: Seq<(Seq<char>, Seq<Seq<char>>)>, name: Seq<char>, from: int)
    requires
        0 <= from,
    ensures
        first_match_from(table, name, from) matches Some(k) ==> exists|i: int| 0 <= i < table.len() && (#[trigger] table[i]).0 == k,
    decreases table.len() - from,
{
    if from < table.len() {
        if names_match(table[from], name) {
            assert(table[from].0 == first_match_from(table, name, from).unwrap());
        } else {
            lemma_first_match_is_key(table, name, from + 1);
        }
    }
}

// The names of the registry, character by character: their lengths, how each
// key and alias differs from the names before it, and that none starts or
// ends with white space.  Each lemma covers a few entries.

#[verifier::rlimit(80)]
proof fn lemma_registry_names_0_5(i: int)
    requires
        0 <= i < 5,
    ensures
        first_match(operator_names(), operator_names()[i].0)
                == Some(operator_names()[i].0) && first_match(operator_names(), operator_names()[i].1[0])
                == Some(operator_names()[i].0) && trim(operator_names()[i].0) == operator_names()[i].0
                && trim(operator_names()[i].1[0]) == operator_names()[i].1[0],
{
    broadcast use vstd::string::group_string_axioms;

    reveal_strlit("atr_breakout_v1");
    reveal_strlit("bollinger_bands_v1");
    reveal_strlit("bollinger_bands");
    reveal_strlit("boll_upper_top_v1");
    reveal_strlit("rust_builtin.boll_upper_top_v1");
    reveal_strlit("daily_score_weighted_sizing_v1");
    reveal_strlit("rust_builtin.daily_score_weighted_sizing_v1");
    reveal_strlit("ema5_ema10_adhesion_signal");
    assert("atr_breakout_v1"@.len() == 15);
    assert("bollinger_bands_v1"@.len() == 18);
    assert("bollinger_bands"@.len() == 15);
    assert("boll_upper_top_v1"@.len() == 17);
    assert("rust_builtin.boll_upper_top_v1"@.len() == 30);
    assert("daily_score_weighted_sizing_v1"@.len() == 30);
    assert("rust_builtin.daily_score_weighted_sizing_v1"@.len() == 43);
    assert("ema5_ema10_adhesion_signal"@.len() == 26);
    assert(!is_white_space("atr_breakout_v1"@[0]) && !is_white_space("atr_breakout_v1"@[14]));
    assert(!is_white_space("atr_breakout_v1"@[0]) && !is_white_space("atr_breakout_v1"@[14]));
    assert("atr_breakout_v1"@[0] != "bollinger_bands"@[0]);
    assert(!is_white_space("bollinger_bands_v1"@[0]) && !is_white_space("bollinger_bands_v1"@[17]));
    assert(!is_white_space("bollinger_bands"@[0]) && !is_white_space("bollinger_bands"@[14]));
    assert(!is_white_space("boll_upper_top_v1"@[0]) && !is_white_space("boll_upper_top_v1"@[16]));
    assert(!is_white_space("rust_builtin.boll_upper_top_v1"@[0]) && !is_white_space("rust_builtin.boll_upper_top_v1"@[29]));
    assert("rust_builtin.boll_upper_top_v1"@[0] != "daily_score_weighted_sizing_v1"@[0]);
    assert(!is_white_space("daily_score_weighted_sizing_v1"@[0]) && !is_white_space("daily_score_weighted_sizing_v1"@[29]));
    assert(!is_white_space("rust_builtin.daily_score_weighted_sizing_v1"@[0]) && !is_white_space("rust_builtin.daily_score_weighted_sizing_v1"@[42]));
    assert(!is_white_space("ema5_ema10_adhesion_signal"@[0]) && !is_white_space("ema5_ema10_adhesion_signal"@[25]));
    assert(!is_white_space("ema5_ema10_adhesion_signal"@[0]) && !is_white_space("ema5_ema10_adhesion_signal"@[25]));
    reveal_with_fuel(trim_start, 2);
    reveal_with_fuel(trim_end, 2);
    if i == 0 {
        reveal_with_fuel(first_match_from, 2);
    } else if i == 1 {
        reveal_with_fuel(first_match_from, 3);
    } else if i == 2 {
        reveal_with_fuel(first_match_from, 4);
    } else if i == 3 {
        reveal_with_fuel(first_match_from, 5);
    } else if i == 4 {
        reveal_with_fuel(first_match_from, 6);
    }
}

#[verifier::rlimit(80)]
proof fn lemma_registry_names_5_10(i: int)
    requires
        5 <= i < 10,
    ensures
        first_match(operator_names(), operator_names()[i].0)
                == Some(operator_names()[i].0) && first_match(operator_names(), operator_names()[i].1[0])
                == Some(operator_names()[i].0) && trim(operator_names()[i].0) == operator_names()[i].0
                && trim(operator_names()[i].1[0]) == operator_names()[i].1[0],
{
    broadcast use vstd::string::group_string_axioms;

    reveal_strlit("atr_breakout_v1");
    reveal_strlit("bollinger_bands_v1");
    reveal_strlit("bollinger_bands");
    reveal_strlit("boll_upper_top_v1");
    reveal_strlit("rust_builtin.boll_upper_top_v1");
    reveal_strlit("daily_score_weighted_sizing_v1");
    reveal_strlit("rust_builtin.daily_score_weighted_sizing_v1");
    reveal_strlit("ema5_ema10_adhesion_signal");
    reveal_strlit("ema_slope_v1");
    reveal_strlit("ema_slope");
    reveal_strlit("end_of_backtest_liquidation_v1");
    reveal_strlit("rust_builtin.end_of_backtest_liquidation_v1");
    reveal_strlit("history_signal_volume_entry_v1");
    reveal_strlit("rust_builtin.history_signal_volume_entry_v1");
    reveal_strlit("history_signal_volume_gate_v1");
    reveal_strlit("rust_builtin.history_signal_volume_gate_v1");
    reveal_strlit("kline_dataset_v1");
    reveal_strlit("rust_builtin.kline_dataset_v1");
    assert("atr_breakout_v1"@.len() == 15);
    assert("bollinger_bands_v1"@.len() == 18);
    assert("bollinger_bands"@.len() == 15);
    assert("boll_upper_top_v1"@.len() == 17);
    assert("rust_builtin.boll_upper_top_v1"@.len() == 30);
    assert("daily_score_weighted_sizing_v1"@.len() == 30);
    assert("rust_builtin.daily_score_weighted_sizing_v1"@.len() == 43);
    assert("ema5_ema10_adhesion_signal"@.len() == 26);
    assert("ema_slope_v1"@.len() == 12);
    assert("ema_slope"@.len() == 9);
    assert("end_of_backtest_liquidation_v1"@.len() == 30);
    assert("rust_builtin.end_of_backtest_liquidation_v1"@.len() == 43);
    assert("history_signal_volume_entry_v1"@.len() == 30);
    assert("rust_builtin.history_signal_volume_entry_v1"@.len() == 43);
    assert("history_signal_volume_gate_v1"@.len() == 29);
    assert("rust_builtin.history_signal_volume_gate_v1"@.len() == 42);
    assert("kline_dataset_v1"@.len() == 16);
    assert("rust_builtin.kline_dataset_v1"@.len() == 29);
    assert(!is_white_space("ema_slope_v1"@[0]) && !is_white_space("ema_slope_v1"@[11]));
    assert(!is_white_space("ema_slope"@[0]) && !is_white_space("ema_slope"@[8]));
    assert("rust_builtin.boll_upper_top_v1"@[0] != "end_of_backtest_liquidation_v1"@[0]);
    assert("daily_score_weighted_sizing_v1"@[0] != "end_of_backtest_liquidation_v1"@[0]);
    assert("rust_builtin.daily_score_weighted_sizing_v1"@[13] != "rust_builtin.end_of_backtest_liquidation_v1"@[13]);
    assert(!is_white_space("end_of_backtest_liquidation_v1"@[0]) && !is_white_space("end_of_backtest_liquidation_v1"@[29]));
    assert(!is_white_space("rust_builtin.end_of_backtest_liquidation_v1"@[0]) && !is_white_space("rust_builtin.end_of_backtest_liquidation_v1"@[42]));
    assert("rust_builtin.boll_upper_top_v1"@[0] != "history_signal_volume_entry_v1"@[0]);
    assert("daily_score_weighted_sizing_v1"@[0] != "history_signal_volume_entry_v1"@[0]);
    assert("rust_builtin.daily_score_weighted_sizing_v1"@[13] != "rust_builtin.history_signal_volume_entry_v1"@[13]);
    assert("end_of_backtest_liquidation_v1"@[0] != "history_signal_volume_entry_v1"@[0]);
    assert("rust_builtin.end_of_backtest_liquidation_v1"@[13] != "rust_builtin.history_signal_volume_entry_v1"@[13]);
    assert(!is_white_space("history_signal_volume_entry_v1"@[0]) && !is_white_space("history_signal_volume_entry_v1"@[29]));
    assert(!is_white_space("rust_builtin.history_signal_volume_entry_v1"@[0]) && !is_white_space("rust_builtin.history_signal_volume_entry_v1"@[42]));
    assert(!is_white_space("history_signal_volume_gate_v1"@[0]) && !is_white_space("history_signal_volume_gate_v1"@[28]));
    assert(!is_white_space("rust_builtin.history_signal_volume_gate_v1"@[0]) && !is_white_space("rust_builtin.history_signal_volume_gate_v1"@[41]));
    assert("history_signal_volume_gate_v1"@[0] != "rust_builtin.kline_dataset_v1"@[0]);
    assert(!is_white_space("kline_dataset_v1"@[0]) && !is_white_space("kline_dataset_v1"@[15]));
    assert(!is_white_space("rust_builtin.kline_dataset_v1"@[0]) && !is_white_space("rust_builtin.kline_dataset_v1"@[28]));
    reveal_with_fuel(trim_start, 2);
    reveal_with_fuel(trim_end, 2);
    if i == 5 {
        reveal_with_fuel(first_match_from, 7);
    } else if i == 6 {
        reveal_with_fuel(first_match_from, 8);
    } else if i == 7 {
        reveal_with_fuel(first_match_from, 9);
    } else if i == 8 {
        reveal_with_fuel(first_match_from, 10);
    } else if i == 9 {
        reveal_with_fuel(first_match_from, 11);
    }
}

#[verifier::rlimit(80)]
proof fn lemma_registry_names_10_15(i: int)
    requires
        10 <= i < 15,
    ensures
        first_match(operator_names(), operator_names()[i].0)
                == Some(operator_names()[i].0) && first_match(operator_names(), operator_names()[i].1[0])
                == Some(operator_names()[i].0) && trim(operator_names()[i].0) == operator_names()[i].0
                && trim(operator_names()[i].1[0]) == operator_names()[i].1[0],
{
    broadcast use vstd::string::group_string_axioms;

    reveal_strlit("atr_breakout_v1");
    reveal_strlit("bollinger_bands_v1");
    reveal_strlit("bollinger_bands");
    reveal_strlit("boll_upper_top_v1");
    reveal_strlit("rust_builtin.boll_upper_top_v1");
    reveal_strlit("daily_score_weighted_sizing_v1");
    reveal_strlit("rust_builtin.daily_score_weighted_sizing_v1");
    reveal_strlit("ema5_ema10_adhesion_signal");
    reveal_strlit("ema_slope_v1");
    reveal_strlit("ema_slope");
    reveal_strlit("end_of_backtest_liquidation_v1");
    reveal_strlit("rust_builtin.end_of_backtest_liquidation_v1");
    reveal_strlit("history_signal_volume_entry_v1");
    reveal_strlit("rust_builtin.history_signal_volume_entry_v1");
    reveal_strlit("history_signal_volume_gate_v1");
    reveal_strlit("rust_builtin.history_signal_volume_gate_v1");
    reveal_strlit("kline_dataset_v1");
    reveal_strlit("rust_builtin.kline_dataset_v1");
    reveal_strlit("low_buy_recovery_v1");
    reveal_strlit("rust_builtin.low_buy_recovery_v1");
    reveal_strlit("ma20_entry_signal_v1");
    reveal_strlit("ma20_entry_signal");
    reveal_strlit("ma20_exit_signal_v1");
    reveal_strlit("ma20_exit_signal");
    reveal_strlit("ma20_trend_break_v1");
    reveal_strlit("rust_builtin.ma20_trend_break_v1");
    reveal_strlit("ma_cross_v1");
    reveal_strlit("ma_cross");
    assert("atr_breakout_v1"@.len() == 15);
    assert("bollinger_bands_v1"@.len() == 18);
    assert("bollinger_bands"@.len() == 15);
    assert("boll_upper_top_v1"@.len() == 17);
    assert("rust_builtin.boll_upper_top_v1"@.len() == 30);
    assert("daily_score_weighted_sizing_v1"@.len() == 30);
    assert("rust_builtin.daily_score_weighted_sizing_v1"@.len() == 43);
    assert("ema5_ema10_adhesion_signal"@.len() == 26);
    assert("ema_slope_v1"@.len() == 12);
    assert("ema_slope"@.len() == 9);
    assert("end_of_backtest_liquidation_v1"@.len() == 30);
    assert("rust_builtin.end_of_backtest_liquidation_v1"@.len() == 43);
    assert("history_signal_volume_entry_v1"@.len() == 30);
    assert("rust_builtin.history_signal_volume_entry_v1"@.len() == 43);
    assert("history_signal_volume_gate_v1"@.len() == 29);
    assert("rust_builtin.history_signal_volume_gate_v1"@.len() == 42);
    assert("kline_dataset_v1"@.len() == 16);
    assert("rust_builtin.kline_dataset_v1"@.len() == 29);
    assert("low_buy_recovery_v1"@.len() == 19);
    assert("rust_builtin.low_buy_recovery_v1"@.len() == 32);
    assert("ma20_entry_signal_v1"@.len() == 20);
    assert("ma20_entry_signal"@.len() == 17);
    assert("ma20_exit_signal_v1"@.len() == 19);
    assert("ma20_exit_signal"@.len() == 16);
    assert("ma20_trend_break_v1"@.len() == 19);
    assert("rust_builtin.ma20_trend_break_v1"@.len() == 32);
    assert("ma_cross_v1"@.len() == 11);
    assert("ma_cross"@.len() == 8);
    assert(!is_white_space("low_buy_recovery_v1"@[0]) && !is_white_space("low_buy_recovery_v1"@[18]));
    assert(!is_white_space("rust_builtin.low_buy_recovery_v1"@[0]) && !is_white_space("rust_builtin.low_buy_recovery_v1"@[31]));
    assert("boll_upper_top_v1"@[0] != "ma20_entry_signal"@[0]);
    assert(!is_white_space("ma20_entry_signal_v1"@[0]) && !is_white_space("ma20_entry_signal_v1"@[19]));
    assert(!is_white_space("ma20_entry_signal"@[0]) && !is_white_space("ma20_entry_signal"@[16]));
    assert("kline_dataset_v1"@[0] != "ma20_exit_signal"@[0]);
    assert("low_buy_recovery_v1"@[0] != "ma20_exit_signal_v1"@[0]);
    assert(!is_white_space("ma20_exit_signal_v1"@[0]) && !is_white_space("ma20_exit_signal_v1"@[18]));
    assert(!is_white_space("ma20_exit_signal"@[0]) && !is_white_space("ma20_exit_signal"@[15]));
    assert("low_buy_recovery_v1"@[0] != "ma20_trend_break_v1"@[0]);
    assert("rust_builtin.low_buy_recovery_v1"@[13] != "rust_builtin.ma20_trend_break_v1"@[13]);
    assert("ma20_exit_signal_v1"@[5] != "ma20_trend_break_v1"@[5]);
    assert(!is_white_space("ma20_trend_break_v1"@[0]) && !is_white_space("ma20_trend_break_v1"@[18]));
    assert(!is_white_space("rust_builtin.ma20_trend_break_v1"@[0]) && !is_white_space("rust_builtin.ma20_trend_break_v1"@[31]));
    assert(!is_white_space("ma_cross_v1"@[0]) && !is_white_space("ma_cross_v1"@[10]));
    assert(!is_white_space("ma_cross"@[0]) && !is_white_space("ma_cross"@[7]));
    reveal_with_fuel(trim_start, 2);
    reveal_with_fuel(trim_end, 2);
    if i == 10 {
        reveal_with_fuel(first_match_from, 12);
    } else if i == 11 {
        reveal_with_fuel(first_match_from, 13);
    } else if i == 12 {
        reveal_with_fuel(first_match_from, 14);
    } else if i == 13 {
        reveal_with_fuel(first_match_from, 15);
    } else if i == 14 {
        reveal_with_fuel(first_match_from, 16);
    }
}

#[verifier::rlimit(80)]
proof fn lemma_registry_names_15_20(i: int)
    requires
        15 <= i < 20,
    ensures
        first_match(operator_names(), operator_names()[i].0)
                == Some(operator_names()[i].0) && first_match(operator_names(), operator_names()[i].1[0])
                == Some(operator_names()[i].0) && trim(operator_names()[i].0) == operator_names()[i].0
                && trim(operator_names()[i].1[0]) == operator_names()[i].1[0],
{
    broadcast use vstd::string::group_string_axioms;

    reveal_strlit("atr_breakout_v1");
    reveal_strlit("bollinger_bands_v1");
    reveal_strlit("bollinger_bands");
    reveal_strlit("boll_upper_top_v1");
    reveal_strlit("rust_builtin.boll_upper_top_v1");
    reveal_strlit("daily_score_weighted_sizing_v1");
    reveal_strlit("rust_builtin.daily_score_weighted_sizing_v1");
    reveal_strlit("ema5_ema10_adhesion_signal");
    reveal_strlit("ema_slope_v1");
    reveal_strlit("ema_slope");
    reveal_strlit("end_of_backtest_liquidation_v1");
    reveal_strlit("rust_builtin.end_of_backtest_liquidation_v1");
    reveal_strlit("history_signal_volume_entry_v1");
    reveal_strlit("rust_builtin.history_signal_volume_entry_v1");
    reveal_strlit("history_signal_volume_gate_v1");
    reveal_strlit("rust_builtin.history_signal_volume_gate_v1");
    reveal_strlit("kline_dataset_v1");
    reveal_strlit("rust_builtin.kline_dataset_v1");
    reveal_strlit("low_buy_recovery_v1");
    reveal_strlit("rust_builtin.low_buy_recovery_v1");
    reveal_strlit("ma20_entry_signal_v1");
    reveal_strlit("ma20_entry_signal");
    reveal_strlit("ma20_exit_signal_v1");
    reveal_strlit("ma20_exit_signal");
    reveal_strlit("ma20_trend_break_v1");
    reveal_strlit("rust_builtin.ma20_trend_break_v1");
    reveal_strlit("ma_cross_v1");
    reveal_strlit("ma_cross");
    reveal_strlit("main_wave_exit_v1");
    reveal_strlit("main_wave_exit");
    reveal_strlit("max_holding_v1");
    reveal_strlit("rust_builtin.max_holding_v1");
    reveal_strlit("stop_loss_exit_v1");
    reveal_strlit("rust_builtin.stop_loss_exit_v1");
    reveal_strlit("trailing_stop_v1");
    reveal_strlit("rust_builtin.trailing_stop_v1");
    reveal_strlit("tail_low_rebound_entry_v1");
    reveal_strlit("rust_builtin.tail_low_rebound_entry_v1");
    assert("atr_breakout_v1"@.len() == 15);
    assert("bollinger_bands_v1"@.len() == 18);
    assert("bollinger_bands"@.len() == 15);
    assert("boll_upper_top_v1"@.len() == 17);
    assert("rust_builtin.boll_upper_top_v1"@.len() == 30);
    assert("daily_score_weighted_sizing_v1"@.len() == 30);
    assert("rust_builtin.daily_score_weighted_sizing_v1"@.len() == 43);
    assert("ema5_ema10_adhesion_signal"@.len() == 26);
    assert("ema_slope_v1"@.len() == 12);
    assert("ema_slope"@.len() == 9);
    assert("end_of_backtest_liquidation_v1"@.len() == 30);
    assert("rust_builtin.end_of_backtest_liquidation_v1"@.len() == 43);
    assert("history_signal_volume_entry_v1"@.len() == 30);
    assert("rust_builtin.history_signal_volume_entry_v1"@.len() == 43);
    assert("history_signal_volume_gate_v1"@.len() == 29);
    assert("rust_builtin.history_signal_volume_gate_v1"@.len() == 42);
    assert("kline_dataset_v1"@.len() == 16);
    assert("rust_builtin.kline_dataset_v1"@.len() == 29);
    assert("low_buy_recovery_v1"@.len() == 19);
    assert("rust_builtin.low_buy_recovery_v1"@.len() == 32);
    assert("ma20_entry_signal_v1"@.len() == 20);
    assert("ma20_entry_signal"@.len() == 17);
    assert("ma20_exit_signal_v1"@.len() == 19);
    assert("ma20_exit_signal"@.len() == 16);
    assert("ma20_trend_break_v1"@.len() == 19);
    assert("rust_builtin.ma20_trend_break_v1"@.len() == 32);
    assert("ma_cross_v1"@.len() == 11);
    assert("ma_cross"@.len() == 8);
    assert("main_wave_exit_v1"@.len() == 17);
    assert("main_wave_exit"@.len() == 14);
    assert("max_holding_v1"@.len() == 14);
    assert("rust_builtin.max_holding_v1"@.len() == 27);
    assert("stop_loss_exit_v1"@.len() == 17);
    assert("rust_builtin.stop_loss_exit_v1"@.len() == 30);
    assert("trailing_stop_v1"@.len() == 16);
    assert("rust_builtin.trailing_stop_v1"@.len() == 29);
    assert("tail_low_rebound_entry_v1"@.len() == 25);
    assert("rust_builtin.tail_low_rebound_entry_v1"@.len() == 38);
    assert("boll_upper_top_v1"@[0] != "main_wave_exit_v1"@[0]);
    assert("ma20_entry_signal"@[2] != "main_wave_exit_v1"@[2]);
    assert(!is_white_space("main_wave_exit_v1"@[0]) && !is_white_space("main_wave_exit_v1"@[16]));
    assert(!is_white_space("main_wave_exit"@[0]) && !is_white_space("main_wave_exit"@[13]));
    assert("main_wave_exit"@[2] != "max_holding_v1"@[2]);
    assert(!is_white_space("max_holding_v1"@[0]) && !is_white_space("max_holding_v1"@[13]));
    assert(!is_white_space("rust_builtin.max_holding_v1"@[0]) && !is_white_space("rust_builtin.max_holding_v1"@[26]));
    assert("boll_upper_top_v1"@[0] != "stop_loss_exit_v1"@[0]);
    assert("rust_builtin.boll_upper_top_v1"@[13] != "rust_builtin.stop_loss_exit_v1"@[13]);
    assert("daily_score_weighted_sizing_v1"@[0] != "rust_builtin.stop_loss_exit_v1"@[0]);
    assert("end_of_backtest_liquidation_v1"@[0] != "rust_builtin.stop_loss_exit_v1"@[0]);
    assert("history_signal_volume_entry_v1"@[0] != "rust_builtin.stop_loss_exit_v1"@[0]);
    assert("ma20_entry_signal"@[0] != "stop_loss_exit_v1"@[0]);
    assert("main_wave_exit_v1"@[0] != "stop_loss_exit_v1"@[0]);
    assert(!is_white_space("stop_loss_exit_v1"@[0]) && !is_white_space("stop_loss_exit_v1"@[16]));
    assert(!is_white_space("rust_builtin.stop_loss_exit_v1"@[0]) && !is_white_space("rust_builtin.stop_loss_exit_v1"@[29]));
    assert("history_signal_volume_gate_v1"@[0] != "rust_builtin.trailing_stop_v1"@[0]);
    assert("kline_dataset_v1"@[0] != "trailing_stop_v1"@[0]);
    assert("rust_builtin.kline_dataset_v1"@[13] != "rust_builtin.trailing_stop_v1"@[13]);
    assert("ma20_exit_signal"@[0] != "trailing_stop_v1"@[0]);
    assert(!is_white_space("trailing_stop_v1"@[0]) && !is_white_space("trailing_stop_v1"@[15]));
    assert(!is_white_space("rust_builtin.trailing_stop_v1"@[0]) && !is_white_space("rust_builtin.trailing_stop_v1"@[28]));
    assert(!is_white_space("tail_low_rebound_entry_v1"@[0]) && !is_white_space("tail_low_rebound_entry_v1"@[24]));
    assert(!is_white_space("rust_builtin.tail_low_rebound_entry_v1"@[0]) && !is_white_space("rust_builtin.tail_low_rebound_entry_v1"@[37]));
    reveal_with_fuel(trim_start, 2);
    reveal_with_fuel(trim_end, 2);
    if i == 15 {
        reveal_with_fuel(first_match_from, 17);
    } else if i == 16 {
        reveal_with_fuel(first_match_from, 18);
    } else if i == 17 {
        reveal_with_fuel(first_match_from, 19);
    } else if i == 18 {
        reveal_with_fuel(first_match_from, 20);
    } else if i == 19 {
        reveal_with_fuel(first_match_from, 21);
    }
}

#[verifier::rlimit(80)]
proof fn lemma_registry_names_20_25(i: int)
    requires
        20 <= i < 25,
    ensures
        first_match(operator_names(), operator_names()[i].0)
                == Some(operator_names()[i].0) && first_match(operator_names(), operator_names()[i].1[0])
                == Some(operator_names()[i].0) && trim(operator_names()[i].0) == operator_names()[i].0
                && trim(operator_names()[i].1[0]) == operator_names()[i].1[0],
{
    broadcast use vstd::string::group_string_axioms;

    reveal_strlit("atr_breakout_v1");
    reveal_strlit("bollinger_bands_v1");
    reveal_strlit("bollinger_bands");
    reveal_strlit("boll_upper_top_v1");
    reveal_strlit("rust_builtin.boll_upper_top_v1");
    reveal_strlit("daily_score_weighted_sizing_v1");
    reveal_strlit("rust_builtin.daily_score_weighted_sizing_v1");
    reveal_strlit("ema5_ema10_adhesion_signal");
    reveal_strlit("ema_slope_v1");
    reveal_strlit("ema_slope");
    reveal_strlit("end_of_backtest_liquidation_v1");
    reveal_strlit("rust_builtin.end_of_backtest_liquidation_v1");
    reveal_strlit("history_signal_volume_entry_v1");
    reveal_strlit("rust_builtin.history_signal_volume_entry_v1");
    reveal_strlit("history_signal_volume_gate_v1");
    reveal_strlit("rust_builtin.history_signal_volume_gate_v1");
    reveal_strlit("kline_dataset_v1");
    reveal_strlit("rust_builtin.kline_dataset_v1");
    reveal_strlit("low_buy_recovery_v1");
    reveal_strlit("rust_builtin.low_buy_recovery_v1");
    reveal_strlit("ma20_entry_signal_v1");
    reveal_strlit("ma20_entry_signal");
    reveal_strlit("ma20_exit_signal_v1");
    reveal_strlit("ma20_exit_signal");
    reveal_strlit("ma20_trend_break_v1");
    reveal_strlit("rust_builtin.ma20_trend_break_v1");
    reveal_strlit("ma_cross_v1");
    reveal_strlit("ma_cross");
    reveal_strlit("main_wave_exit_v1");
    reveal_strlit("main_wave_exit");
    reveal_strlit("max_holding_v1");
    reveal_strlit("rust_builtin.max_holding_v1");
    reveal_strlit("stop_loss_exit_v1");
    reveal_strlit("rust_builtin.stop_loss_exit_v1");
    reveal_strlit("trailing_stop_v1");
    reveal_strlit("rust_builtin.trailing_stop_v1");
    reveal_strlit("tail_low_rebound_entry_v1");
    reveal_strlit("rust_builtin.tail_low_rebound_entry_v1");
    reveal_strlit("position_manager_v1");
    reveal_strlit("position_manager");
    reveal_strlit("profit_take_v1");
    reveal_strlit("rust_builtin.profit_take_v1");
    reveal_strlit("red_green_ratio_16_v1");
    reveal_strlit("red_green_ratio_16");
    reveal_strlit("red_green_ratio_signal_v1");
    reveal_strlit("red_green_ratio_signal");
    reveal_strlit("rsi_reversal_v1");
    reveal_strlit("rsi_14");
    assert("atr_breakout_v1"@.len() == 15);
    assert("bollinger_bands_v1"@.len() == 18);
    assert("bollinger_bands"@.len() == 15);
    assert("boll_upper_top_v1"@.len() == 17);
    assert("rust_builtin.boll_upper_top_v1"@.len() == 30);
    assert("daily_score_weighted_sizing_v1"@.len() == 30);
    assert("rust_builtin.daily_score_weighted_sizing_v1"@.len() == 43);
    assert("ema5_ema10_adhesion_signal"@.len() == 26);
    assert("ema_slope_v1"@.len() == 12);
    assert("ema_slope"@.len() == 9);
    assert("end_of_backtest_liquidation_v1"@.len() == 30);
    assert("rust_builtin.end_of_backtest_liquidation_v1"@.len() == 43);
    assert("history_signal_volume_entry_v1"@.len() == 30);
    assert("rust_builtin.history_signal_volume_entry_v1"@.len() == 43);
    assert("history_signal_volume_gate_v1"@.len() == 29);
    assert("rust_builtin.history_signal_volume_gate_v1"@.len() == 42);
    assert("kline_dataset_v1"@.len() == 16);
    assert("rust_builtin.kline_dataset_v1"@.len() == 29);
    assert("low_buy_recovery_v1"@.len() == 19);
    assert("rust_builtin.low_buy_recovery_v1"@.len() == 32);
    assert("ma20_entry_signal_v1"@.len() == 20);
    assert("ma20_entry_signal"@.len() == 17);
    assert("ma20_exit_signal_v1"@.len() == 19);
    assert("ma20_exit_signal"@.len() == 16);
    assert("ma20_trend_break_v1"@.len() == 19);
    assert("rust_builtin.ma20_trend_break_v1"@.len() == 32);
    assert("ma_cross_v1"@.len() == 11);
    assert("ma_cross"@.len() == 8);
    assert("main_wave_exit_v1"@.len() == 17);
    assert("main_wave_exit"@.len() == 14);
    assert("max_holding_v1"@.len() == 14);
    assert("rust_builtin.max_holding_v1"@.len() == 27);
    assert("stop_loss_exit_v1"@.len() == 17);
    assert("rust_builtin.stop_loss_exit_v1"@.len() == 30);
    assert("trailing_stop_v1"@.len() == 16);
    assert("rust_builtin.trailing_stop_v1"@.len() == 29);
    assert("tail_low_rebound_entry_v1"@.len() == 25);
    assert("rust_builtin.tail_low_rebound_entry_v1"@.len() == 38);
    assert("position_manager_v1"@.len() == 19);
    assert("position_manager"@.len() == 16);
    assert("profit_take_v1"@.len() == 14);
    assert("rust_builtin.profit_take_v1"@.len() == 27);
    assert("red_green_ratio_16_v1"@.len() == 21);
    assert("red_green_ratio_16"@.len() == 18);
    assert("red_green_ratio_signal_v1"@.len() == 25);
    assert("red_green_ratio_signal"@.len() == 22);
    assert("rsi_reversal_v1"@.len() == 15);
    assert("rsi_14"@.len() == 6);
    assert("kline_dataset_v1"@[0] != "position_manager"@[0]);
    assert("low_buy_recovery_v1"@[0] != "position_manager_v1"@[0]);
    assert("ma20_exit_signal_v1"@[0] != "position_manager_v1"@[0]);
    assert("ma20_exit_signal"@[0] != "position_manager"@[0]);
    assert("ma20_trend_break_v1"@[0] != "position_manager_v1"@[0]);
    assert("trailing_stop_v1"@[0] != "position_manager"@[0]);
    assert(!is_white_space("position_manager_v1"@[0]) && !is_white_space("position_manager_v1"@[18]));
    assert(!is_white_space("position_manager"@[0]) && !is_white_space("position_manager"@[15]));
    assert("main_wave_exit"@[0] != "profit_take_v1"@[0]);
    assert("max_holding_v1"@[0] != "profit_take_v1"@[0]);
    assert("rust_builtin.max_holding_v1"@[13] != "rust_builtin.profit_take_v1"@[13]);
    assert(!is_white_space("profit_take_v1"@[0]) && !is_white_space("profit_take_v1"@[13]));
    assert(!is_white_space("rust_builtin.profit_take_v1"@[0]) && !is_white_space("rust_builtin.profit_take_v1"@[26]));
    assert("bollinger_bands_v1"@[0] != "red_green_ratio_16"@[0]);
    assert(!is_white_space("red_green_ratio_16_v1"@[0]) && !is_white_space("red_green_ratio_16_v1"@[20]));
    assert(!is_white_space("red_green_ratio_16"@[0]) && !is_white_space("red_green_ratio_16"@[17]));
    assert("tail_low_rebound_entry_v1"@[0] != "red_green_ratio_signal_v1"@[0]);
    assert(!is_white_space("red_green_ratio_signal_v1"@[0]) && !is_white_space("red_green_ratio_signal_v1"@[24]));
    assert(!is_white_space("red_green_ratio_signal"@[0]) && !is_white_space("red_green_ratio_signal"@[21]));
    assert("atr_breakout_v1"@[0] != "rsi_reversal_v1"@[0]);
    assert("bollinger_bands"@[0] != "rsi_reversal_v1"@[0]);
    assert(!is_white_space("rsi_reversal_v1"@[0]) && !is_white_space("rsi_reversal_v1"@[14]));
    assert(!is_white_space("rsi_14"@[0]) && !is_white_space("rsi_14"@[5]));
    reveal_with_fuel(trim_start, 2);
    reveal_with_fuel(trim_end, 2);
    if i == 20 {
        reveal_with_fuel(first_match_from, 22);
    } else if i == 21 {
        reveal_with_fuel(first_match_from, 23);
    } else if i == 22 {
        reveal_with_fuel(first_match_from, 24);
    } else if i == 23 {
        reveal_with_fuel(first_match_from, 25);
    } else if i == 24 {
        reveal_with_fuel(first_match_from, 26);
    }
}

#[verifier::rlimit(80)]
proof fn lemma_registry_names_25_30(i: int)
    requires
        25 <= i < 30,
    ensures
        first_match(operator_names(), operator_names()[i].0)
                == Some(operator_names()[i].0) && first_match(operator_names(), operator_names()[i].1[0])
                == Some(operator_names()[i].0) && trim(operator_names()[i].0) == operator_names()[i].0
                && trim(operator_names()[i].1[0]) == operator_names()[i].1[0],
{
    broadcast use vstd::string::group_string_axioms;

    reveal_strlit("atr_breakout_v1");
    reveal_strlit("bollinger_bands_v1");
    reveal_strlit("bollinger_bands");
    reveal_strlit("boll_upper_top_v1");
    reveal_strlit("rust_builtin.boll_upper_top_v1");
    reveal_strlit("daily_score_weighted_sizing_v1");
    reveal_strlit("rust_builtin.daily_score_weighted_sizing_v1");
    reveal_strlit("ema5_ema10_adhesion_signal");
    reveal_strlit("ema_slope_v1");
    reveal_strlit("ema_slope");
    reveal_strlit("end_of_backtest_liquidation_v1");
    reveal_strlit("rust_builtin.end_of_backtest_liquidation_v1");
    reveal_strlit("history_signal_volume_entry_v1");
    reveal_strlit("rust_builtin.history_signal_volume_entry_v1");
    reveal_strlit("history_signal_volume_gate_v1");
    reveal_strlit("rust_builtin.history_signal_volume_gate_v1");
    reveal_strlit("kline_dataset_v1");
    reveal_strlit("rust_builtin.kline_dataset_v1");
    reveal_strlit("low_buy_recovery_v1");
    reveal_strlit("rust_builtin.low_buy_recovery_v1");
    reveal_strlit("ma20_entry_signal_v1");
    reveal_strlit("ma20_entry_signal");
    reveal_strlit("ma20_exit_signal_v1");
    reveal_strlit("ma20_exit_signal");
    reveal_strlit("ma20_trend_break_v1");
    reveal_strlit("rust_builtin.ma20_trend_break_v1");
    reveal_strlit("ma_cross_v1");
    reveal_strlit("ma_cross");
    reveal_strlit("main_wave_exit_v1");
    reveal_strlit("main_wave_exit");
    reveal_strlit("max_holding_v1");
    reveal_strlit("rust_builtin.max_holding_v1");
    reveal_strlit("stop_loss_exit_v1");
    reveal_strlit("rust_builtin.stop_loss_exit_v1");
    reveal_strlit("trailing_stop_v1");
    reveal_strlit("rust_builtin.trailing_stop_v1");
    reveal_strlit("tail_low_rebound_entry_v1");
    reveal_strlit("rust_builtin.tail_low_rebound_entry_v1");
    reveal_strlit("position_manager_v1");
    reveal_strlit("position_manager");
    reveal_strlit("profit_take_v1");
    reveal_strlit("rust_builtin.profit_take_v1");
    reveal_strlit("red_green_ratio_16_v1");
    reveal_strlit("red_green_ratio_16");
    reveal_strlit("red_green_ratio_signal_v1");
    reveal_strlit("red_green_ratio_signal");
    reveal_strlit("rsi_reversal_v1");
    reveal_strlit("rsi_14");
    reveal_strlit("strong_accumulation_context_v1");
    reveal_strlit("rust_builtin.strong_accumulation_context_v1");
    reveal_strlit("volume_profile_v1");
    reveal_strlit("volume_profile");
    reveal_strlit("volume_trigger_v1");
    reveal_strlit("volume_trigger");
    reveal_strlit("window_kline_updown_stats_v1");
    reveal_strlit("window_kline_updown_stats");
    reveal_strlit("window_up_buy_signal_v1");
    reveal_strlit("window_up_buy_signal");
    assert("atr_breakout_v1"@.len() == 15);
    assert("bollinger_bands_v1"@.len() == 18);
    assert("bollinger_bands"@.len() == 15);
    assert("boll_upper_top_v1"@.len() == 17);
    assert("rust_builtin.boll_upper_top_v1"@.len() == 30);
    assert("daily_score_weighted_sizing_v1"@.len() == 30);
    assert("rust_builtin.daily_score_weighted_sizing_v1"@.len() == 43);
    assert("ema5_ema10_adhesion_signal"@.len() == 26);
    assert("ema_slope_v1"@.len() == 12);
    assert("ema_slope"@.len() == 9);
    assert("end_of_backtest_liquidation_v1"@.len() == 30);
    assert("rust_builtin.end_of_backtest_liquidation_v1"@.len() == 43);
    assert("history_signal_volume_entry_v1"@.len() == 30);
    assert("rust_builtin.history_signal_volume_entry_v1"@.len() == 43);
    assert("history_signal_volume_gate_v1"@.len() == 29);
    assert("rust_builtin.history_signal_volume_gate_v1"@.len() == 42);
    assert("kline_dataset_v1"@.len() == 16);
    assert("rust_builtin.kline_dataset_v1"@.len() == 29);
    assert("low_buy_recovery_v1"@.len() == 19);
    assert("rust_builtin.low_buy_recovery_v1"@.len() == 32);
    assert("ma20_entry_signal_v1"@.len() == 20);
    assert("ma20_entry_signal"@.len() == 17);
    assert("ma20_exit_signal_v1"@.len() == 19);
    assert("ma20_exit_signal"@.len() == 16);
    assert("ma20_trend_break_v1"@.len() == 19);
    assert("rust_builtin.ma20_trend_break_v1"@.len() == 32);
    assert("ma_cross_v1"@.len() == 11);
    assert("ma_cross"@.len() == 8);
    assert("main_wave_exit_v1"@.len() == 17);
    assert("main_wave_exit"@.len() == 14);
    assert("max_holding_v1"@.len() == 14);
    assert("rust_builtin.max_holding_v1"@.len() == 27);
    assert("stop_loss_exit_v1"@.len() == 17);
    assert("rust_builtin.stop_loss_exit_v1"@.len() == 30);
    assert("trailing_stop_v1"@.len() == 16);
    assert("rust_builtin.trailing_stop_v1"@.len() == 29);
    assert("tail_low_rebound_entry_v1"@.len() == 25);
    assert("rust_builtin.tail_low_rebound_entry_v1"@.len() == 38);
    assert("position_manager_v1"@.len() == 19);
    assert("position_manager"@.len() == 16);
    assert("profit_take_v1"@.len() == 14);
    assert("rust_builtin.profit_take_v1"@.len() == 27);
    assert("red_green_ratio_16_v1"@.len() == 21);
    assert("red_green_ratio_16"@.len() == 18);
    assert("red_green_ratio_signal_v1"@.len() == 25);
    assert("red_green_ratio_signal"@.len() == 22);
    assert("rsi_reversal_v1"@.len() == 15);
    assert("rsi_14"@.len() == 6);
    assert("strong_accumulation_context_v1"@.len() == 30);
    assert("rust_builtin.strong_accumulation_context_v1"@.len() == 43);
    assert("volume_profile_v1"@.len() == 17);
    assert("volume_profile"@.len() == 14);
    assert("volume_trigger_v1"@.len() == 17);
    assert("volume_trigger"@.len() == 14);
    assert("window_kline_updown_stats_v1"@.len() == 28);
    assert("window_kline_updown_stats"@.len() == 25);
    assert("window_up_buy_signal_v1"@.len() == 23);
    assert("window_up_buy_signal"@.len() == 20);
    assert("rust_builtin.boll_upper_top_v1"@[0] != "strong_accumulation_context_v1"@[0]);
    assert("daily_score_weighted_sizing_v1"@[0] != "strong_accumulation_context_v1"@[0]);
    assert("rust_builtin.daily_score_weighted_sizing_v1"@[13] != "rust_builtin.strong_accumulation_context_v1"@[13]);
    assert("end_of_backtest_liquidation_v1"@[0] != "strong_accumulation_context_v1"@[0]);
    assert("rust_builtin.end_of_backtest_liquidation_v1"@[13] != "rust_builtin.strong_accumulation_context_v1"@[13]);
    assert("history_signal_volume_entry_v1"@[0] != "strong_accumulation_context_v1"@[0]);
    assert("rust_builtin.history_signal_volume_entry_v1"@[13] != "rust_builtin.strong_accumulation_context_v1"@[13]);
    assert("rust_builtin.stop_loss_exit_v1"@[0] != "strong_accumulation_context_v1"@[0]);
    assert(!is_white_space("strong_accumulation_context_v1"@[0]) && !is_white_space("strong_accumulation_context_v1"@[29]));
    assert(!is_white_space("rust_builtin.strong_accumulation_context_v1"@[0]) && !is_white_space("rust_builtin.strong_accumulation_context_v1"@[42]));
    assert("boll_upper_top_v1"@[0] != "volume_profile_v1"@[0]);
    assert("ma20_entry_signal"@[0] != "volume_profile_v1"@[0]);
    assert("main_wave_exit_v1"@[0] != "volume_profile_v1"@[0]);
    assert("main_wave_exit"@[0] != "volume_profile"@[0]);
    assert("max_holding_v1"@[0] != "volume_profile"@[0]);
    assert("stop_loss_exit_v1"@[0] != "volume_profile_v1"@[0]);
    assert("profit_take_v1"@[0] != "volume_profile"@[0]);
    assert(!is_white_space("volume_profile_v1"@[0]) && !is_white_space("volume_profile_v1"@[16]));
    assert(!is_white_space("volume_profile"@[0]) && !is_white_space("volume_profile"@[13]));
    assert("boll_upper_top_v1"@[0] != "volume_trigger_v1"@[0]);
    assert("ma20_entry_signal"@[0] != "volume_trigger_v1"@[0]);
    assert("main_wave_exit_v1"@[0] != "volume_trigger_v1"@[0]);
    assert("main_wave_exit"@[0] != "volume_trigger"@[0]);
    assert("max_holding_v1"@[0] != "volume_trigger"@[0]);
    assert("stop_loss_exit_v1"@[0] != "volume_trigger_v1"@[0]);
    assert("profit_take_v1"@[0] != "volume_trigger"@[0]);
    assert("volume_profile_v1"@[7] != "volume_trigger_v1"@[7]);
    assert("volume_profile"@[7] != "volume_trigger"@[7]);
    assert(!is_white_space("volume_trigger_v1"@[0]) && !is_white_space("volume_trigger_v1"@[16]));
    assert(!is_white_space("volume_trigger"@[0]) && !is_white_space("volume_trigger"@[13]));
    assert("tail_low_rebound_entry_v1"@[0] != "window_kline_updown_stats"@[0]);
    assert("red_green_ratio_signal_v1"@[0] != "window_kline_updown_stats"@[0]);
    assert(!is_white_space("window_kline_updown_stats_v1"@[0]) && !is_white_space("window_kline_updown_stats_v1"@[27]));
    assert(!is_white_space("window_kline_updown_stats"@[0]) && !is_white_space("window_kline_updown_stats"@[24]));
    assert("ma20_entry_signal_v1"@[0] != "window_up_buy_signal"@[0]);
    assert(!is_white_space("window_up_buy_signal_v1"@[0]) && !is_white_space("window_up_buy_signal_v1"@[22]));
    assert(!is_white_space("window_up_buy_signal"@[0]) && !is_white_space("window_up_buy_signal"@[19]));
    reveal_with_fuel(trim_start, 2);
    reveal_with_fuel(trim_end, 2);
    if i == 25 {
        reveal_with_fuel(first_match_from, 27);
    } else if i == 26 {
        reveal_with_fuel(first_match_from, 28);
    } else if i == 27 {
        reveal_with_fuel(first_match_from, 29);
    } else if i == 28 {
        reveal_with_fuel(first_match_from, 30);
    } else if i == 29 {
        reveal_with_fuel(first_match_from, 31);
    }
}

#[verifier::rlimit(80)]
proof fn lemma_registry_names_30_35(i: int)
    requires
        30 <= i < 35,
    ensures
        first_match(operator_names(), operator_names()[i].0)
                == Some(operator_names()[i].0) && first_match(operator_names(), operator_names()[i].1[0])
                == Some(operator_names()[i].0) && trim(operator_names()[i].0) == operator_names()[i].0
                && trim(operator_names()[i].1[0]) == operator_names()[i].1[0],
{
    broadcast use vstd::string::group_string_axioms;

    reveal_strlit("atr_breakout_v1");
    reveal_strlit("bollinger_bands_v1");
    reveal_strlit("bollinger_bands");
    reveal_strlit("boll_upper_top_v1");
    reveal_strlit("rust_builtin.boll_upper_top_v1");
    reveal_strlit("daily_score_weighted_sizing_v1");
    reveal_strlit("rust_builtin.daily_score_weighted_sizing_v1");
    reveal_strlit("ema5_ema10_adhesion_signal");
    reveal_strlit("ema_slope_v1");
    reveal_strlit("ema_slope");
    reveal_strlit("end_of_backtest_liquidation_v1");
    reveal_strlit("rust_builtin.end_of_backtest_liquidation_v1");
    reveal_strlit("history_signal_volume_entry_v1");
    reveal_strlit("rust_builtin.history_signal_volume_entry_v1");
    reveal_strlit("history_signal_volume_gate_v1");
    reveal_strlit("rust_builtin.history_signal_volume_gate_v1");
    reveal_strlit("kline_dataset_v1");
    reveal_strlit("rust_builtin.kline_dataset_v1");
    reveal_strlit("low_buy_recovery_v1");
    reveal_strlit("rust_builtin.low_buy_recovery_v1");
    reveal_strlit("ma20_entry_signal_v1");
    reveal_strlit("ma20_entry_signal");
    reveal_strlit("ma20_exit_signal_v1");
    reveal_strlit("ma20_exit_signal");
    reveal_strlit("ma20_trend_break_v1");
    reveal_strlit("rust_builtin.ma20_trend_break_v1");
    reveal_strlit("ma_cross_v1");
    reveal_strlit("ma_cross");
    reveal_strlit("main_wave_exit_v1");
    reveal_strlit("main_wave_exit");
    reveal_strlit("max_holding_v1");
    reveal_strlit("rust_builtin.max_holding_v1");
    reveal_strlit("stop_loss_exit_v1");
    reveal_strlit("rust_builtin.stop_loss_exit_v1");
    reveal_strlit("trailing_stop_v1");
    reveal_strlit("rust_builtin.trailing_stop_v1");
    reveal_strlit("tail_low_rebound_entry_v1");
    reveal_strlit("rust_builtin.tail_low_rebound_entry_v1");
    reveal_strlit("position_manager_v1");
    reveal_strlit("position_manager");
    reveal_strlit("profit_take_v1");
    reveal_strlit("rust_builtin.profit_take_v1");
    reveal_strlit("red_green_ratio_16_v1");
    reveal_strlit("red_green_ratio_16");
    reveal_strlit("red_green_ratio_signal_v1");
    reveal_strlit("red_green_ratio_signal");
    reveal_strlit("rsi_reversal_v1");
    reveal_strlit("rsi_14");
    reveal_strlit("strong_accumulation_context_v1");
    reveal_strlit("rust_builtin.strong_accumulation_context_v1");
    reveal_strlit("volume_profile_v1");
    reveal_strlit("volume_profile");
    reveal_strlit("volume_trigger_v1");
    reveal_strlit("volume_trigger");
    reveal_strlit("window_kline_updown_stats_v1");
    reveal_strlit("window_kline_updown_stats");
    reveal_strlit("window_up_buy_signal_v1");
    reveal_strlit("window_up_buy_signal");
    reveal_strlit("ma20_composite_v1");
    reveal_strlit("ma20_composite");
    reveal_strlit("daily_trend_gate_v1");
    reveal_strlit("daily_trend_gate");
    reveal_strlit("regime_calendar_gate_v1");
    reveal_strlit("regime_calendar_gate");
    reveal_strlit("regime_index_gate_v1");
    reveal_strlit("regime_index_gate");
    reveal_strlit("cascade_gate_v1");
    reveal_strlit("cascade_gate");
    assert("atr_breakout_v1"@.len() == 15);
    assert("bollinger_bands_v1"@.len() == 18);
    assert("bollinger_bands"@.len() == 15);
    assert("boll_upper_top_v1"@.len() == 17);
    assert("rust_builtin.boll_upper_top_v1"@.len() == 30);
    assert("daily_score_weighted_sizing_v1"@.len() == 30);
    assert("rust_builtin.daily_score_weighted_sizing_v1"@.len() == 43);
    assert("ema5_ema10_adhesion_signal"@.len() == 26);
    assert("ema_slope_v1"@.len() == 12);
    assert("ema_slope"@.len() == 9);
    assert("end_of_backtest_liquidation_v1"@.len() == 30);
    assert("rust_builtin.end_of_backtest_liquidation_v1"@.len() == 43);
    assert("history_signal_volume_entry_v1"@.len() == 30);
    assert("rust_builtin.history_signal_volume_entry_v1"@.len() == 43);
    assert("history_signal_volume_gate_v1"@.len() == 29);
    assert("rust_builtin.history_signal_volume_gate_v1"@.len() == 42);
    assert("kline_dataset_v1"@.len() == 16);
    assert("rust_builtin.kline_dataset_v1"@.len() == 29);
    assert("low_buy_recovery_v1"@.len() == 19);
    assert("rust_builtin.low_buy_recovery_v1"@.len() == 32);
    assert("ma20_entry_signal_v1"@.len() == 20);
    assert("ma20_entry_signal"@.len() == 17);
    assert("ma20_exit_signal_v1"@.len() == 19);
    assert("ma20_exit_signal"@.len() == 16);
    assert("ma20_trend_break_v1"@.len() == 19);
    assert("rust_builtin.ma20_trend_break_v1"@.len() == 32);
    assert("ma_cross_v1"@.len() == 11);
    assert("ma_cross"@.len() == 8);
    assert("main_wave_exit_v1"@.len() == 17);
    assert("main_wave_exit"@.len() == 14);
    assert("max_holding_v1"@.len() == 14);
    assert("rust_builtin.max_holding_v1"@.len() == 27);
    assert("stop_loss_exit_v1"@.len() == 17);
    assert("rust_builtin.stop_loss_exit_v1"@.len() == 30);
    assert("trailing_stop_v1"@.len() == 16);
    assert("rust_builtin.trailing_stop_v1"@.len() == 29);
    assert("tail_low_rebound_entry_v1"@.len() == 25);
    assert("rust_builtin.tail_low_rebound_entry_v1"@.len() == 38);
    assert("position_manager_v1"@.len() == 19);
    assert("position_manager"@.len() == 16);
    assert("profit_take_v1"@.len() == 14);
    assert("rust_builtin.profit_take_v1"@.len() == 27);
    assert("red_green_ratio_16_v1"@.len() == 21);
    assert("red_green_ratio_16"@.len() == 18);
    assert("red_green_ratio_signal_v1"@.len() == 25);
    assert("red_green_ratio_signal"@.len() == 22);
    assert("rsi_reversal_v1"@.len() == 15);
    assert("rsi_14"@.len() == 6);
    assert("strong_accumulation_context_v1"@.len() == 30);
    assert("rust_builtin.strong_accumulation_context_v1"@.len() == 43);
    assert("volume_profile_v1"@.len() == 17);
    assert("volume_profile"@.len() == 14);
    assert("volume_trigger_v1"@.len() == 17);
    assert("volume_trigger"@.len() == 14);
    assert("window_kline_updown_stats_v1"@.len() == 28);
    assert("window_kline_updown_stats"@.len() == 25);
    assert("window_up_buy_signal_v1"@.len() == 23);
    assert("window_up_buy_signal"@.len() == 20);
    assert("ma20_composite_v1"@.len() == 17);
    assert("ma20_composite"@.len() == 14);
    assert("daily_trend_gate_v1"@.len() == 19);
    assert("daily_trend_gate"@.len() == 16);
    assert("regime_calendar_gate_v1"@.len() == 23);
    assert("regime_calendar_gate"@.len() == 20);
    assert("regime_index_gate_v1"@.len() == 20);
    assert("regime_index_gate"@.len() == 17);
    assert("cascade_gate_v1"@.len() == 15);
    assert("cascade_gate"@.len() == 12);
    assert("boll_upper_top_v1"@[0] != "ma20_composite_v1"@[0]);
    assert("ma20_entry_signal"@[5] != "ma20_composite_v1"@[5]);
    assert("main_wave_exit_v1"@[2] != "ma20_composite_v1"@[2]);
    assert("main_wave_exit"@[2] != "ma20_composite"@[2]);
    assert("max_holding_v1"@[2] != "ma20_composite"@[2]);
    assert("stop_loss_exit_v1"@[0] != "ma20_composite_v1"@[0]);
    assert("profit_take_v1"@[0] != "ma20_composite"@[0]);
    assert("volume_profile_v1"@[0] != "ma20_composite_v1"@[0]);
    assert("volume_profile"@[0] != "ma20_composite"@[0]);
    assert("volume_trigger_v1"@[0] != "ma20_composite_v1"@[0]);
    assert("volume_trigger"@[0] != "ma20_composite"@[0]);
    assert(!is_white_space("ma20_composite_v1"@[0]) && !is_white_space("ma20_composite_v1"@[16]));
    assert(!is_white_space("ma20_composite"@[0]) && !is_white_space("ma20_composite"@[13]));
    assert("kline_dataset_v1"@[0] != "daily_trend_gate"@[0]);
    assert("low_buy_recovery_v1"@[0] != "daily_trend_gate_v1"@[0]);
    assert("ma20_exit_signal_v1"@[0] != "daily_trend_gate_v1"@[0]);
    assert("ma20_exit_signal"@[0] != "daily_trend_gate"@[0]);
    assert("ma20_trend_break_v1"@[0] != "daily_trend_gate_v1"@[0]);
    assert("trailing_stop_v1"@[0] != "daily_trend_gate"@[0]);
    assert("position_manager_v1"@[0] != "daily_trend_gate_v1"@[0]);
    assert("position_manager"@[0] != "daily_trend_gate"@[0]);
    assert(!is_white_space("daily_trend_gate_v1"@[0]) && !is_white_space("daily_trend_gate_v1"@[18]));
    assert(!is_white_space("daily_trend_gate"@[0]) && !is_white_space("daily_trend_gate"@[15]));
    assert("ma20_entry_signal_v1"@[0] != "regime_calendar_gate"@[0]);
    assert("window_up_buy_signal_v1"@[0] != "regime_calendar_gate_v1"@[0]);
    assert("window_up_buy_signal"@[0] != "regime_calendar_gate"@[0]);
    assert(!is_white_space("regime_calendar_gate_v1"@[0]) && !is_white_space("regime_calendar_gate_v1"@[22]));
    assert(!is_white_space("regime_calendar_gate"@[0]) && !is_white_space("regime_calendar_gate"@[19]));
    assert("boll_upper_top_v1"@[0] != "regime_index_gate"@[0]);
    assert("ma20_entry_signal_v1"@[0] != "regime_index_gate_v1"@[0]);
    assert("ma20_entry_signal"@[0] != "regime_index_gate"@[0]);
    assert("main_wave_exit_v1"@[0] != "regime_index_gate"@[0]);
    assert("stop_loss_exit_v1"@[0] != "regime_index_gate"@[0]);
    assert("volume_profile_v1"@[0] != "regime_index_gate"@[0]);
    assert("volume_trigger_v1"@[0] != "regime_index_gate"@[0]);
    assert("window_up_buy_signal"@[0] != "regime_index_gate_v1"@[0]);
    assert("ma20_composite_v1"@[0] != "regime_index_gate"@[0]);
    assert("regime_calendar_gate"@[7] != "regime_index_gate_v1"@[7]);
    assert(!is_white_space("regime_index_gate_v1"@[0]) && !is_white_space("regime_index_gate_v1"@[19]));
    assert(!is_white_space("regime_index_gate"@[0]) && !is_white_space("regime_index_gate"@[16]));
    assert("atr_breakout_v1"@[0] != "cascade_gate_v1"@[0]);
    assert("bollinger_bands"@[0] != "cascade_gate_v1"@[0]);
    assert("ema_slope_v1"@[0] != "cascade_gate"@[0]);
    assert("rsi_reversal_v1"@[0] != "cascade_gate_v1"@[0]);
    assert(!is_white_space("cascade_gate_v1"@[0]) && !is_white_space("cascade_gate_v1"@[14]));
    assert(!is_white_space("cascade_gate"@[0]) && !is_white_space("cascade_gate"@[11]));
    reveal_with_fuel(trim_start, 2);
    reveal_with_fuel(trim_end, 2);
    if i == 30 {
        reveal_with_fuel(first_match_from, 32);
    } else if i == 31 {
        reveal_with_fuel(first_match_from, 33);
    } else if i == 32 {
        reveal_with_fuel(first_match_from, 34);
    } else if i == 33 {
        reveal_with_fuel(first_match_from, 35);
    } else if i == 34 {
        reveal_with_fuel(first_match_from, 36);
    }
}

#[verifier::rlimit(80)]
proof fn lemma_registry_names_35_40(i: int)
    requires
        35 <= i < 40,
    ensures
        first_match(operator_names(), operator_names()[i].0)
                == Some(operator_names()[i].0) && first_match(operator_names(), operator_names()[i].1[0])
                == Some(operator_names()[i].0) && trim(operator_names()[i].0) == operator_names()[i].0
                && trim(operator_names()[i].1[0]) == operator_names()[i].1[0],
{
    broadcast use vstd::string::group_string_axioms;

    reveal_strlit("atr_breakout_v1");
    reveal_strlit("bollinger_bands_v1");
    reveal_strlit("bollinger_bands");
    reveal_strlit("boll_upper_top_v1");
    reveal_strlit("rust_builtin.boll_upper_top_v1");
    reveal_strlit("daily_score_weighted_sizing_v1");
    reveal_strlit("rust_builtin.daily_score_weighted_sizing_v1");
    reveal_strlit("ema5_ema10_adhesion_signal");
    reveal_strlit("ema_slope_v1");
    reveal_strlit("ema_slope");
    reveal_strlit("end_of_backtest_liquidation_v1");
    reveal_strlit("rust_builtin.end_of_backtest_liquidation_v1");
    reveal_strlit("history_signal_volume_entry_v1");
    reveal_strlit("rust_builtin.history_signal_volume_entry_v1");
    reveal_strlit("history_signal_volume_gate_v1");
    reveal_strlit("rust_builtin.history_signal_volume_gate_v1");
    reveal_strlit("kline_dataset_v1");
    reveal_strlit("rust_builtin.kline_dataset_v1");
    reveal_strlit("low_buy_recovery_v1");
    reveal_strlit("rust_builtin.low_buy_recovery_v1");
    reveal_strlit("ma20_entry_signal_v1");
    reveal_strlit("ma20_entry_signal");
    reveal_strlit("ma20_exit_signal_v1");
    reveal_strlit("ma20_exit_signal");
    reveal_strlit("ma20_trend_break_v1");
    reveal_strlit("rust_builtin.ma20_trend_break_v1");
    reveal_strlit("ma_cross_v1");
    reveal_strlit("ma_cross");
    reveal_strlit("main_wave_exit_v1");
    reveal_strlit("main_wave_exit");
    reveal_strlit("max_holding_v1");
    reveal_strlit("rust_builtin.max_holding_v1");
    reveal_strlit("stop_loss_exit_v1");
    reveal_strlit("rust_builtin.stop_loss_exit_v1");
    reveal_strlit("trailing_stop_v1");
    reveal_strlit("rust_builtin.trailing_stop_v1");
    reveal_strlit("tail_low_rebound_entry_v1");
    reveal_strlit("rust_builtin.tail_low_rebound_entry_v1");
    reveal_strlit("position_manager_v1");
    reveal_strlit("position_manager");
    reveal_strlit("profit_take_v1");
    reveal_strlit("rust_builtin.profit_take_v1");
    reveal_strlit("red_green_ratio_16_v1");
    reveal_strlit("red_green_ratio_16");
    reveal_strlit("red_green_ratio_signal_v1");
    reveal_strlit("red_green_ratio_signal");
    reveal_strlit("rsi_reversal_v1");
    reveal_strlit("rsi_14");
    reveal_strlit("strong_accumulation_context_v1");
    reveal_strlit("rust_builtin.strong_accumulation_context_v1");
    reveal_strlit("volume_profile_v1");
    reveal_strlit("volume_profile");
    reveal_strlit("volume_trigger_v1");
    reveal_strlit("volume_trigger");
    reveal_strlit("window_kline_updown_stats_v1");
    reveal_strlit("window_kline_updown_stats");
    reveal_strlit("window_up_buy_signal_v1");
    reveal_strlit("window_up_buy_signal");
    reveal_strlit("ma20_composite_v1");
    reveal_strlit("ma20_composite");
    reveal_strlit("daily_trend_gate_v1");
    reveal_strlit("daily_trend_gate");
    reveal_strlit("regime_calendar_gate_v1");
    reveal_strlit("regime_calendar_gate");
    reveal_strlit("regime_index_gate_v1");
    reveal_strlit("regime_index_gate");
    reveal_strlit("cascade_gate_v1");
    reveal_strlit("cascade_gate");
    reveal_strlit("ema_cluster_breakout_v1");
    reveal_strlit("ema_cluster_breakout");
    reveal_strlit("main_wave_continuation_v1");
    reveal_strlit("rust_builtin.main_wave_continuation_v1");
    reveal_strlit("main_wave_verifier_v1");
    reveal_strlit("main_wave_verifier");
    reveal_strlit("ma20_slope_bollinger_scale_v1");
    reveal_strlit("ma20_slope_bollinger_scale");
    reveal_strlit("tail_low_rebound_boll_shadow_v1");
    reveal_strlit("tail_low_rebound_boll_shadow");
    assert("atr_breakout_v1"@.len() == 15);
    assert("bollinger_bands_v1"@.len() == 18);
    assert("bollinger_bands"@.len() == 15);
    assert("boll_upper_top_v1"@.len() == 17);
    assert("rust_builtin.boll_upper_top_v1"@.len() == 30);
    assert("daily_score_weighted_sizing_v1"@.len() == 30);
    assert("rust_builtin.daily_score_weighted_sizing_v1"@.len() == 43);
    assert("ema5_ema10_adhesion_signal"@.len() == 26);
    assert("ema_slope_v1"@.len() == 12);
    assert("ema_slope"@.len() == 9);
    assert("end_of_backtest_liquidation_v1"@.len() == 30);
    assert("rust_builtin.end_of_backtest_liquidation_v1"@.len() == 43);
    assert("history_signal_volume_entry_v1"@.len() == 30);
    assert("rust_builtin.history_signal_volume_entry_v1"@.len() == 43);
    assert("history_signal_volume_gate_v1"@.len() == 29);
    assert("rust_builtin.history_signal_volume_gate_v1"@.len() == 42);
    assert("kline_dataset_v1"@.len() == 16);
    assert("rust_builtin.kline_dataset_v1"@.len() == 29);
    assert("low_buy_recovery_v1"@.len() == 19);
    assert("rust_builtin.low_buy_recovery_v1"@.len() == 32);
    assert("ma20_entry_signal_v1"@.len() == 20);
    assert("ma20_entry_signal"@.len() == 17);
    assert("ma20_exit_signal_v1"@.len() == 19);
    assert("ma20_exit_signal"@.len() == 16);
    assert("ma20_trend_break_v1"@.len() == 19);
    assert("rust_builtin.ma20_trend_break_v1"@.len() == 32);
    assert("ma_cross_v1"@.len() == 11);
    assert("ma_cross"@.len() == 8);
    assert("main_wave_exit_v1"@.len() == 17);
    assert("main_wave_exit"@.len() == 14);
    assert("max_holding_v1"@.len() == 14);
    assert("rust_builtin.max_holding_v1"@.len() == 27);
    assert("stop_loss_exit_v1"@.len() == 17);
    assert("rust_builtin.stop_loss_exit_v1"@.len() == 30);
    assert("trailing_stop_v1"@.len() == 16);
    assert("rust_builtin.trailing_stop_v1"@.len() == 29);
    assert("tail_low_rebound_entry_v1"@.len() == 25);
    assert("rust_builtin.tail_low_rebound_entry_v1"@.len() == 38);
    assert("position_manager_v1"@.len() == 19);
    assert("position_manager"@.len() == 16);
    assert("profit_take_v1"@.len() == 14);
    assert("rust_builtin.profit_take_v1"@.len() == 27);
    assert("red_green_ratio_16_v1"@.len() == 21);
    assert("red_green_ratio_16"@.len() == 18);
    assert("red_green_ratio_signal_v1"@.len() == 25);
    assert("red_green_ratio_signal"@.len() == 22);
    assert("rsi_reversal_v1"@.len() == 15);
    assert("rsi_14"@.len() == 6);
    assert("strong_accumulation_context_v1"@.len() == 30);
    assert("rust_builtin.strong_accumulation_context_v1"@.len() == 43);
    assert("volume_profile_v1"@.len() == 17);
    assert("volume_profile"@.len() == 14);
    assert("volume_trigger_v1"@.len() == 17);
    assert("volume_trigger"@.len() == 14);
    assert("window_kline_updown_stats_v1"@.len() == 28);
    assert("window_kline_updown_stats"@.len() == 25);
    assert("window_up_buy_signal_v1"@.len() == 23);
    assert("window_up_buy_signal"@.len() == 20);
    assert("ma20_composite_v1"@.len() == 17);
    assert("ma20_composite"@.len() == 14);
    assert("daily_trend_gate_v1"@.len() == 19);
    assert("daily_trend_gate"@.len() == 16);
    assert("regime_calendar_gate_v1"@.len() == 23);
    assert("regime_calendar_gate"@.len() == 20);
    assert("regime_index_gate_v1"@.len() == 20);
    assert("regime_index_gate"@.len() == 17);
    assert("cascade_gate_v1"@.len() == 15);
    assert("cascade_gate"@.len() == 12);
    assert("ema_cluster_breakout_v1"@.len() == 23);
    assert("ema_cluster_breakout"@.len() == 20);
    assert("main_wave_continuation_v1"@.len() == 25);
    assert("rust_builtin.main_wave_continuation_v1"@.len() == 38);
    assert("main_wave_verifier_v1"@.len() == 21);
    assert("main_wave_verifier"@.len() == 18);
    assert("ma20_slope_bollinger_scale_v1"@.len() == 29);
    assert("ma20_slope_bollinger_scale"@.len() == 26);
    assert("tail_low_rebound_boll_shadow_v1"@.len() == 31);
    assert("tail_low_rebound_boll_shadow"@.len() == 28);
    assert("ma20_entry_signal_v1"@[0] != "ema_cluster_breakout"@[0]);
    assert("window_up_buy_signal_v1"@[0] != "ema_cluster_breakout_v1"@[0]);
    assert("window_up_buy_signal"@[0] != "ema_cluster_breakout"@[0]);
    assert("regime_calendar_gate_v1"@[0] != "ema_cluster_breakout_v1"@[0]);
    assert("regime_calendar_gate"@[0] != "ema_cluster_breakout"@[0]);
    assert("regime_index_gate_v1"@[0] != "ema_cluster_breakout"@[0]);
    assert(!is_white_space("ema_cluster_breakout_v1"@[0]) && !is_white_space("ema_cluster_breakout_v1"@[22]));
    assert(!is_white_space("ema_cluster_breakout"@[0]) && !is_white_space("ema_cluster_breakout"@[19]));
    assert("tail_low_rebound_entry_v1"@[0] != "main_wave_continuation_v1"@[0]);
    assert("rust_builtin.tail_low_rebound_entry_v1"@[13] != "rust_builtin.main_wave_continuation_v1"@[13]);
    assert("red_green_ratio_signal_v1"@[0] != "main_wave_continuation_v1"@[0]);
    assert("window_kline_updown_stats"@[0] != "main_wave_continuation_v1"@[0]);
    assert(!is_white_space("main_wave_continuation_v1"@[0]) && !is_white_space("main_wave_continuation_v1"@[24]));
    assert(!is_white_space("rust_builtin.main_wave_continuation_v1"@[0]) && !is_white_space("rust_builtin.main_wave_continuation_v1"@[37]));
    assert("bollinger_bands_v1"@[0] != "main_wave_verifier"@[0]);
    assert("red_green_ratio_16_v1"@[0] != "main_wave_verifier_v1"@[0]);
    assert("red_green_ratio_16"@[0] != "main_wave_verifier"@[0]);
    assert(!is_white_space("main_wave_verifier_v1"@[0]) && !is_white_space("main_wave_verifier_v1"@[20]));
    assert(!is_white_space("main_wave_verifier"@[0]) && !is_white_space("main_wave_verifier"@[17]));
    assert("ema5_ema10_adhesion_signal"@[0] != "ma20_slope_bollinger_scale"@[0]);
    assert("history_signal_volume_gate_v1"@[0] != "ma20_slope_bollinger_scale_v1"@[0]);
    assert("rust_builtin.kline_dataset_v1"@[0] != "ma20_slope_bollinger_scale_v1"@[0]);
    assert("rust_builtin.trailing_stop_v1"@[0] != "ma20_slope_bollinger_scale_v1"@[0]);
    assert(!is_white_space("ma20_slope_bollinger_scale_v1"@[0]) && !is_white_space("ma20_slope_bollinger_scale_v1"@[28]));
    assert(!is_white_space("ma20_slope_bollinger_scale"@[0]) && !is_white_space("ma20_slope_bollinger_scale"@[25]));
    assert("window_kline_updown_stats_v1"@[0] != "tail_low_rebound_boll_shadow"@[0]);
    assert(!is_white_space("tail_low_rebound_boll_shadow_v1"@[0]) && !is_white_space("tail_low_rebound_boll_shadow_v1"@[30]));
    assert(!is_white_space("tail_low_rebound_boll_shadow"@[0]) && !is_white_space("tail_low_rebound_boll_shadow"@[27]));
    reveal_with_fuel(trim_start, 2);
    reveal_with_fuel(trim_end, 2);
    if i == 35 {
        reveal_with_fuel(first_match_from, 37);
    } else if i == 36 {
        reveal_with_fuel(first_match_from, 38);
    } else if i == 37 {
        reveal_with_fuel(first_match_from, 39);
    } else if i == 38 {
        reveal_with_fuel(first_match_from, 40);
    } else if i == 39 {
        reveal_with_fuel(first_match_from, 41);
    }
}

/// Each registered key is matched first by its own entry, and so is each alias.
proof fn lemma_registry_names(i: int)
    requires
        0 <= i < operator_names().len(),
    ensures
        first_match(operator_names(), operator_names()[i].0)
                == Some(operator_names()[i].0) && first_match(operator_names(), operator_names()[i].1[0])
                == Some(operator_names()[i].0) && trim(operator_names()[i].0) == operator_names()[i].0
                && trim(operator_names()[i].1[0]) == operator_names()[i].1[0],
{
    if i < 5 {
        lemma_registry_names_0_5(i);
    } else if i < 10 {
        lemma_registry_names_5_10(i);
    } else if i < 15 {
        lemma_registry_names_10_15(i);
    } else if i < 20 {
        lemma_registry_names_15_20(i);
    } else if i < 25 {
        lemma_registry_names_20_25(i);
    } else if i < 30 {
        lemma_registry_names_25_30(i);
    } else if i < 35 {
        lemma_registry_names_30_35(i);
    } else if i < 40 {
        lemma_registry_names_35_40(i);
    }
}

/// Every registered key resolves to itself, and every alias to the key of its entry.
pub proof fn lemma_registered_names_resolve(i: int)
    requires
        0 <= i < operator_names().len(),
    ensures
        resolved_key(operator_names()[i].0) == Some(operator_names()[i].0),
        forall|a: int| 0 <= a < operator_names()[i].1.len() ==> resolved_key(#[trigger] operator_names()[i].1[a]) == Some(operator_names()[i].0),
{
    lemma_registry_names(i);
    assert(first_match(operator_names(), operator_names()[i].0) == Some(operator_names()[i].0));
    assert(operator_names()[i].1.len() == 1);
}

/// Resolution is idempotent: what a raw name resolves to is a canonical key,
/// which resolves to itself.
pub proof fn lemma_resolve_alias_idempotent(raw: Seq<char>)
    ensures
        resolved_key(raw) matches Some(k) ==> resolved_key(k) == Some(k),
{
    lemma_first_match_is_key(operator_names(), trim(raw), 0);
    if resolved_key(raw) is Some {
        let i = choose|i: int| 0 <= i < operator_names().len() && (#[trigger] operator_names()[i]).0 == resolved_key(raw).unwrap();
        lemma_registered_names_resolve(i);
    }
}


/// White space around a name never changes what it resolves to.
pub proof fn lemma_resolution_ignores_surrounding_white_space(raw: Seq<char>)
    ensures
        resolved_key(raw) == resolved_key(trim(raw)),
{
    lemma_trim_idempotent(raw);
}

/// Every operator that a legacy plan name points to is registered under that
/// key: the inferred key resolves to itself.
pub proof fn lemma_inferred_keys_resolve(plan_name: Seq<u8>)
    ensures
        inferred_key(plan_name) matches Some(k) ==> resolved_key(k) == Some(k),
{
    lemma_registered_names_resolve(39);
    assert(operator_names()[39].0 == "tail_low_rebound_boll_shadow_v1"@);
    lemma_registered_names_resolve(27);
    assert(operator_names()[27].0 == "volume_trigger_v1"@);
    lemma_registered_names_resolve(35);
    assert(operator_names()[35].0 == "ema_cluster_breakout_v1"@);
    lemma_registered_names_resolve(37);
    assert(operator_names()[37].0 == "main_wave_verifier_v1"@);
    lemma_registered_names_resolve(1);
    assert(operator_names()[1].0 == "bollinger_bands_v1"@);
    lemma_registered_names_resolve(26);
    assert(operator_names()[26].0 == "volume_profile_v1"@);
    lemma_registered_names_resolve(5);
    assert(operator_names()[5].0 == "ema_slope_v1"@);
    lemma_registered_names_resolve(11);
    assert(operator_names()[11].0 == "ma20_entry_signal_v1"@);
    lemma_registered_names_resolve(12);
    assert(operator_names()[12].0 == "ma20_exit_signal_v1"@);
    lemma_registered_names_resolve(20);
    assert(operator_names()[20].0 == "position_manager_v1"@);
    lemma_registered_names_resolve(30);
    assert(operator_names()[30].0 == "ma20_composite_v1"@);
    lemma_registered_names_resolve(14);
    assert(operator_names()[14].0 == "ma_cross_v1"@);
    lemma_registered_names_resolve(4);
    assert(operator_names()[4].0 == "ema5_ema10_adhesion_signal"@);
    lemma_registered_names_resolve(0);
    assert(operator_names()[0].0 == "atr_breakout_v1"@);
    lemma_registered_names_resolve(28);
    assert(operator_names()[28].0 == "window_kline_updown_stats_v1"@);
    lemma_registered_names_resolve(29);
    assert(operator_names()[29].0 == "window_up_buy_signal_v1"@);
    lemma_registered_names_resolve(24);
    assert(operator_names()[24].0 == "rsi_reversal_v1"@);
    lemma_registered_names_resolve(38);
    assert(operator_names()[38].0 == "ma20_slope_bollinger_scale_v1"@);
}

/// A legacy plan name points to the operator of the first rule whose
/// fragment occurs in it, and to none when no fragment occurs.
pub proof fn lemma_inferred_key_is_first_matching_rule(p: Seq<u8>)
    ensures
        inferred_key(p) == first_rule_key(p, plan_name_rules(), 0),
{
    reveal_with_fuel(first_rule_key, 19);
}

/// Each rule points to a registered operator whose key begins with the
/// rule's fragment.
pub proof fn lemma_plan_name_rule_names_its_operator(i: int)
    requires
        0 <= i < plan_name_rules().len(),
    ensures
        plan_name_rules()[i].0.len() <= plan_name_rules()[i].1.len(),
        plan_name_rules()[i].1.subrange(0, plan_name_rules()[i].0.len() as int) == plan_name_rules()[i].0,
        resolved_key(plan_name_rules()[i].1) == Some(plan_name_rules()[i].1),
{
    if i == 0 {
        reveal_strlit("tail_low_rebound_boll_shadow");
        reveal_strlit("tail_low_rebound_boll_shadow_v1");
        assert("tail_low_rebound_boll_shadow_v1"@.subrange(0, "tail_low_rebound_boll_shadow"@.len() as int) =~= "tail_low_rebound_boll_shadow"@);
        lemma_registered_names_resolve(39);
        assert(operator_names()[39].0 == "tail_low_rebound_boll_shadow_v1"@);
    } else if i == 1 {
        reveal_strlit("volume_trigger");
        reveal_strlit("volume_trigger_v1");
        assert("volume_trigger_v1"@.subrange(0, "volume_trigger"@.len() as int) =~= "volume_trigger"@);
        lemma_registered_names_resolve(27);
        assert(operator_names()[27].0 == "volume_trigger_v1"@);
    } else if i == 2 {
        reveal_strlit("ema_cluster_breakout");
        reveal_strlit("ema_cluster_breakout_v1");
        assert("ema_cluster_breakout_v1"@.subrange(0, "ema_cluster_breakout"@.len() as int) =~= "ema_cluster_breakout"@);
        lemma_registered_names_resolve(35);
        assert(operator_names()[35].0 == "ema_cluster_breakout_v1"@);
    } else if i == 3 {
        reveal_strlit("main_wave_verifier");
        reveal_strlit("main_wave_verifier_v1");
        assert("main_wave_verifier_v1"@.subrange(0, "main_wave_verifier"@.len() as int) =~= "main_wave_verifier"@);
        lemma_registered_names_resolve(37);
        assert(operator_names()[37].0 == "main_wave_verifier_v1"@);
    } else if i == 4 {
        reveal_strlit("bollinger_bands");
        reveal_strlit("bollinger_bands_v1");
        assert("bollinger_bands_v1"@.subrange(0, "bollinger_bands"@.len() as int) =~= "bollinger_bands"@);
        lemma_registered_names_resolve(1);
        assert(operator_names()[1].0 == "bollinger_bands_v1"@);
    } else if i == 5 {
        reveal_strlit("volume_profile");
        reveal_strlit("volume_profile_v1");
        assert("volume_profile_v1"@.subrange(0, "volume_profile"@.len() as int) =~= "volume_profile"@);
        lemma_registered_names_resolve(26);
        assert(operator_names()[26].0 == "volume_profile_v1"@);
    } else if i == 6 {
        reveal_strlit("ema_slope");
        reveal_strlit("ema_slope_v1");
        assert("ema_slope_v1"@.subrange(0, "ema_slope"@.len() as int) =~= "ema_slope"@);
        lemma_registered_names_resolve(5);
        assert(operator_names()[5].0 == "ema_slope_v1"@);
    } else if i == 7 {
        reveal_strlit("ma20_entry_signal");
        reveal_strlit("ma20_entry_signal_v1");
        assert("ma20_entry_signal_v1"@.subrange(0, "ma20_entry_signal"@.len() as int) =~= "ma20_entry_signal"@);
        lemma_registered_names_resolve(11);
        assert(operator_names()[11].0 == "ma20_entry_signal_v1"@);
    } else if i == 8 {
        reveal_strlit("ma20_exit_signal");
        reveal_strlit("ma20_exit_signal_v1");
        assert("ma20_exit_signal_v1"@.subrange(0, "ma20_exit_signal"@.len() as int) =~= "ma20_exit_signal"@);
        lemma_registered_names_resolve(12);
        assert(operator_names()[12].0 == "ma20_exit_signal_v1"@);
    } else if i == 9 {
        reveal_strlit("position_manager");
        reveal_strlit("position_manager_v1");
        assert("position_manager_v1"@.subrange(0, "position_manager"@.len() as int) =~= "position_manager"@);
        lemma_registered_names_resolve(20);
        assert(operator_names()[20].0 == "position_manager_v1"@);
    } else if i == 10 {
        reveal_strlit("ma20_composite");
        reveal_strlit("ma20_composite_v1");
        assert("ma20_composite_v1"@.subrange(0, "ma20_composite"@.len() as int) =~= "ma20_composite"@);
        lemma_registered_names_resolve(30);
        assert(operator_names()[30].0 == "ma20_composite_v1"@);
    } else if i == 11 {
        reveal_strlit("ma_cross");
        reveal_strlit("ma_cross_v1");
        assert("ma_cross_v1"@.subrange(0, "ma_cross"@.len() as int) =~= "ma_cross"@);
        lemma_registered_names_resolve(14);
        assert(operator_names()[14].0 == "ma_cross_v1"@);
    } else if i == 12 {
        reveal_strlit("ema5_ema10_adhesion");
        reveal_strlit("ema5_ema10_adhesion_signal");
        assert("ema5_ema10_adhesion_signal"@.subrange(0, "ema5_ema10_adhesion"@.len() as int) =~= "ema5_ema10_adhesion"@);
        lemma_registered_names_resolve(4);
        assert(operator_names()[4].0 == "ema5_ema10_adhesion_signal"@);
    } else if i == 13 {
        reveal_strlit("atr_breakout");
        reveal_strlit("atr_breakout_v1");
        assert("atr_breakout_v1"@.subrange(0, "atr_breakout"@.len() as int) =~= "atr_breakout"@);
        lemma_registered_names_resolve(0);
        assert(operator_names()[0].0 == "atr_breakout_v1"@);
    } else if i == 14 {
        reveal_strlit("window_kline_updown_stats");
        reveal_strlit("window_kline_updown_stats_v1");
        assert("window_kline_updown_stats_v1"@.subrange(0, "window_kline_updown_stats"@.len() as int) =~= "window_kline_updown_stats"@);
        lemma_registered_names_resolve(28);
        assert(operator_names()[28].0 == "window_kline_updown_stats_v1"@);
    } else if i == 15 {
        reveal_strlit("window_up_buy_signal");
        reveal_strlit("window_up_buy_signal_v1");
        assert("window_up_buy_signal_v1"@.subrange(0, "window_up_buy_signal"@.len() as int) =~= "window_up_buy_signal"@);
        lemma_registered_names_resolve(29);
        assert(operator_names()[29].0 == "window_up_buy_signal_v1"@);
    } else if i == 16 {
        reveal_strlit("rsi");
        reveal_strlit("rsi_reversal_v1");
        assert("rsi_reversal_v1"@.subrange(0, "rsi"@.len() as int) =~= "rsi"@);
        lemma_registered_names_resolve(24);
        assert(operator_names()[24].0 == "rsi_reversal_v1"@);
    } else if i == 17 {
        reveal_strlit("ma20");
        reveal_strlit("ma20_slope_bollinger_scale_v1");
        assert("ma20_slope_bollinger_scale_v1"@.subrange(0, "ma20"@.len() as int) =~= "ma20"@);
        lemma_registered_names_resolve(38);
        assert(operator_names()[38].0 == "ma20_slope_bollinger_scale_v1"@);
    }
}

proof fn lemma_first_rule_key_found(p: Seq<u8>, rules: Seq<(Seq<char>, Seq<char>)>, i: int)
    requires
        0 <= i <= rules.len(),
    ensures
        first_rule_key(p, rules, i) matches Some(k) ==> exists|m: int|
            i <= m < rules.len() && #[trigger] has_infix(p, vstd::utf8::encode_utf8(rules[m].0))
                && rules[m].1 == k && forall|j: int|
                i <= j < m ==> !has_infix(p, vstd::utf8::encode_utf8(#[trigger] rules[j].0)),
        first_rule_key(p, rules, i) is None ==> forall|j: int|
            i <= j < rules.len() ==> !has_infix(p, vstd::utf8::encode_utf8(#[trigger] rules[j].0)),
    decreases rules.len() - i,
{
    if i < rules.len() && !has_infix(p, vstd::utf8::encode_utf8(rules[i].0)) {
        lemma_first_rule_key_found(p, rules, i + 1);
        if first_rule_key(p, rules, i + 1) is Some {
            let m = choose|m: int|
                i + 1 <= m < rules.len() && #[trigger] has_infix(p, vstd::utf8::encode_utf8(rules[m].0))
                    && rules[m].1 == first_rule_key(p, rules, i + 1).unwrap() && forall|j: int|
                    i + 1 <= j < m ==> !has_infix(p, vstd::utf8::encode_utf8(#[trigger] rules[j].0));
            assert forall|j: int| i <= j < m implies !has_infix(p, vstd::utf8::encode_utf8(#[trigger] rules[j].0)) by {
                if j > i {
                    assert(i + 1 <= j < m);
                }
            }
        } else {
            assert forall|j: int| i <= j < rules.len() implies !has_infix(p, vstd::utf8::encode_utf8(#[trigger] rules[j].0)) by {
                if j > i {
                    assert(i + 1 <= j < rules.len());
                }
            }
        }
    } else if i < rules.len() {
        assert(forall|j: int| i <= j < i ==> !has_infix(p, vstd::utf8::encode_utf8(#[trigger] rules[j].0)));
    }
}

/// The operator inferred from a plan name is found by the first rule whose
/// fragment occurs in the name; it is registered and its key begins with that
/// fragment.  A name in which no fragment occurs points to no operator.
pub proof fn lemma_inferred_operator_begins_with_matched_fragment(p: Seq<u8>)
    ensures
        inferred_key(p) matches Some(k) ==> exists|i: int|
            0 <= i < plan_name_rules().len() && #[trigger] has_infix(p, vstd::utf8::encode_utf8(plan_name_rules()[i].0))
                && (forall|j: int|
                0 <= j < i ==> !has_infix(p, vstd::utf8::encode_utf8(#[trigger] plan_name_rules()[j].0)))
                && plan_name_rules()[i].1 == k
                && k.subrange(0, plan_name_rules()[i].0.len() as int) == plan_name_rules()[i].0
                && resolved_key(k) == Some(k),
        inferred_key(p) is None ==> forall|j: int|
            0 <= j < plan_name_rules().len() ==> !has_infix(
                p,
                vstd::utf8::encode_utf8(#[trigger] plan_name_rules()[j].0),
            ),
{
    lemma_inferred_key_is_first_matching_rule(p);
    lemma_first_rule_key_found(p, plan_name_rules(), 0);
    if inferred_key(p) is Some {
        let rules = plan_name_rules();
        let m = choose|m: int|
            0 <= m < rules.len() && #[trigger] has_infix(p, vstd::utf8::encode_utf8(rules[m].0))
                && rules[m].1 == first_rule_key(p, rules, 0).unwrap() && forall|j: int|
                0 <= j < m ==> !has_infix(p, vstd::utf8::encode_utf8(#[trigger] rules[j].0));
        lemma_plan_name_rule_names_its_operator(m);
    }
}

} // verus!
