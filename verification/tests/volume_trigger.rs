use mousehunter_operators::param_bag::{ParamBag, ParamValue};
use mousehunter_operators::volume_trigger::exit::{choose_volume_trigger_exit, ExitChoice, SignalMark};
use mousehunter_operators::volume_trigger::params::VolumeTriggerSettings;
use mousehunter_operators::volume_trigger::signal::{
    days_before_window, direction_reference_window, trading_day, volume_trigger_bar_windows, BarWindows,
    VolumeTriggerSignalType,
};

fn signal(symbol: &str, bar_idx: usize, day: &str, signal_type: VolumeTriggerSignalType) -> SignalMark {
    SignalMark {
        symbol: symbol.to_string(),
        bar_idx,
        trading_day: day.to_string(),
        signal_type,
    }
}

fn mark(bar_idx: usize, day: &str) -> SignalMark {
    signal("TEST", bar_idx, day, VolumeTriggerSignalType::Short)
}

fn entry_mark(bar_idx: usize, day: &str) -> SignalMark {
    signal("TEST", bar_idx, day, VolumeTriggerSignalType::Long)
}

#[test]
fn reverse_short_exit_matches_after_entry() {
    let entry = entry_mark(0, "2026-01-05");
    let exits = vec![mark(1, "2026-01-06")];
    let exit_closes = [11.0_f64];
    let indices: Vec<usize> = vec![0, 1];

    let result = choose_volume_trigger_exit(&entry, &exits, indices.len(), "2026-01-06", true);
    assert!(result.is_some());
    let matched = result.unwrap();
    assert_eq!(matched.exit_reason(), "volume_trigger_reverse_short");
    match matched {
        ExitChoice::ReverseShort { signal_pos, holding_bars } => {
            assert_eq!(exit_closes[signal_pos], 11.0);
            assert_eq!(holding_bars, 1);
        }
        ExitChoice::EndOfData { .. } => panic!("expected the reverse short exit"),
    }
}

#[test]
fn t_plus_one_blocks_same_day_exit() {
    let entry = entry_mark(0, "2026-01-05");
    let exit_same_day = vec![mark(1, "2026-01-05")];
    let indices: Vec<usize> = vec![0, 1, 2];

    // T+1: same-day exit should be blocked → falls back to EOD (last bar)
    let result = choose_volume_trigger_exit(&entry, &exit_same_day, indices.len(), "2026-01-06", true);
    assert!(result.is_some());
    let matched = result.unwrap();
    assert_eq!(matched.exit_reason(), "volume_trigger_eod");
}

#[test]
fn eod_fallback_when_no_short_signal() {
    let entry = entry_mark(0, "2026-01-05");
    let bar_closes = [10.0_f64, 11.0, 12.0];
    let indices: Vec<usize> = vec![0, 1, 2];

    // No exit signals at all → EOD
    let result = choose_volume_trigger_exit(&entry, &[], indices.len(), "2026-01-07", true);
    assert!(result.is_some());
    let matched = result.unwrap();
    assert_eq!(matched.exit_reason(), "volume_trigger_eod");
    match matched {
        ExitChoice::EndOfData { last_local_idx, holding_bars } => {
            assert_eq!(bar_closes[indices[last_local_idx]], 12.0); // last bar close
            assert_eq!(holding_bars, 2);
        }
        ExitChoice::ReverseShort { .. } => panic!("expected the end-of-data exit"),
    }
}

#[test]
fn same_day_exit_allowed_without_t_plus_one() {
    let entry = entry_mark(0, "2026-01-05");
    let exits = vec![mark(1, "2026-01-05")];
    let result = choose_volume_trigger_exit(&entry, &exits, 3, "2026-01-06", false);
    assert_eq!(result, Some(ExitChoice::ReverseShort { signal_pos: 0, holding_bars: 1 }));
}

#[test]
fn earlier_day_exit_skipped_without_t_plus_one() {
    let entry = entry_mark(2, "2026-01-05");
    let exits = vec![mark(1, "2026-01-06"), mark(3, "2026-01-04"), mark(4, "2026-01-07")];
    let result = choose_volume_trigger_exit(&entry, &exits, 6, "2026-01-08", false);
    assert_eq!(result, Some(ExitChoice::ReverseShort { signal_pos: 2, holding_bars: 2 }));
}

#[test]
fn entry_at_last_bar_has_no_exit() {
    let entry = entry_mark(2, "2026-01-05");
    assert_eq!(choose_volume_trigger_exit(&entry, &[], 3, "2026-01-05", true), None);
    assert_eq!(choose_volume_trigger_exit(&entry, &[], 0, "", true), None);
}

#[test]
fn exit_needs_a_short_of_the_same_symbol() {
    let entry = entry_mark(0, "2026-01-05");
    let exits = vec![
        signal("OTHER", 1, "2026-01-06", VolumeTriggerSignalType::Short),
        signal("TEST", 2, "2026-01-06", VolumeTriggerSignalType::Long),
        signal("TEST", 3, "2026-01-07", VolumeTriggerSignalType::Short),
    ];
    let result = choose_volume_trigger_exit(&entry, &exits, 5, "2026-01-08", true);
    assert_eq!(result, Some(ExitChoice::ReverseShort { signal_pos: 2, holding_bars: 3 }));
}

#[test]
fn end_of_data_exit_respects_t_plus_one() {
    // two bars on the entry's day: under T+1 there is no valid exit
    let entry = entry_mark(0, "2026-01-05");
    assert_eq!(choose_volume_trigger_exit(&entry, &[], 2, "2026-01-05", true), None);
    assert_eq!(
        choose_volume_trigger_exit(&entry, &[], 2, "2026-01-05", false),
        Some(ExitChoice::EndOfData { last_local_idx: 1, holding_bars: 1 })
    );
}

#[test]
fn default_params_are_backtest_v4_optimal() {
    let p = VolumeTriggerSettings::default_settings();
    assert_eq!(p.fast_window_days, 3);
    assert_eq!(p.slow_window_days, 15);
    assert!(p.volume_trigger_signal_enabled);
    assert_eq!(p.direction_lookback_bars, 6);
    assert_eq!(p.bars_per_day, 16);
    assert!(p.t_plus_one);
    assert!(p.cascade_direction_enabled);
    assert!(p.daily_ma120_ma200_gate_enabled);
}

#[test]
fn min_warmup_bars_sufficient() {
    let p = VolumeTriggerSettings::default_settings();
    // 15 days * 16 bars/day + 6 bars = 246 bars minimum
    assert_eq!(p.min_warmup_bars(), 246);
}

#[test]
fn from_value_handles_legacy_keys() {
    let mut bag = ParamBag::new();
    bag.push("fast_window_days".to_string(), ParamValue::UInt(3));
    bag.push("slow_window_days".to_string(), ParamValue::UInt(15));
    bag.push("volume_trigger_signal_enabled".to_string(), ParamValue::Bool(true));
    bag.push("settlement_rule".to_string(), ParamValue::Str("t_plus_one".to_string()));
    let p = VolumeTriggerSettings::from_params(&bag).unwrap();
    assert_eq!(p.fast_window_days, 3);
    assert_eq!(p.slow_window_days, 15);
    assert!(p.t_plus_one);
    // the windows also set the cascade direction windows
    assert_eq!(p.cascade_direction_fast, 3);
    assert_eq!(p.cascade_direction_slow, 15);
}

#[test]
fn settings_windows_are_kept_ordered() {
    let mut bag = ParamBag::new();
    bag.push("trigger_fast_window_days".to_string(), ParamValue::UInt(0));
    bag.push("slow_window_days".to_string(), ParamValue::UInt(0));
    bag.push("cascade_direction_fast_window".to_string(), ParamValue::UInt(1));
    bag.push("direction_lookback_bars".to_string(), ParamValue::UInt(0));
    bag.push("max_daily_buys".to_string(), ParamValue::Other);
    bag.push("bars_per_day".to_string(), ParamValue::UInt(4));
    bag.push("settlement_rule".to_string(), ParamValue::Str("t+1".to_string()));
    bag.push("cascade_direction_enabled".to_string(), ParamValue::Bool(true));
    let p = VolumeTriggerSettings::from_params(&bag).unwrap();
    assert_eq!(p.fast_window_days, 1);
    assert_eq!(p.slow_window_days, 2);
    assert_eq!(p.cascade_direction_fast, 2);
    // `slow_window_days` is present (0), so it stands in for the cascade slow window
    assert_eq!(p.cascade_direction_slow, 3);
    assert_eq!(p.direction_lookback_bars, 1);
    assert_eq!(p.max_daily_buys, 1);
    assert_eq!(p.bars_per_day, 4);
    assert!(!p.t_plus_one);
    assert!(p.cascade_direction_enabled);
    assert_eq!(p.min_warmup_bars(), 9);
}

#[test]
fn present_key_with_other_value_blocks_fallback() {
    let mut bag = ParamBag::new();
    bag.push("fast_window_days".to_string(), ParamValue::Other);
    bag.push("trigger_fast_window_days".to_string(), ParamValue::UInt(7));
    let p = VolumeTriggerSettings::from_params(&bag).unwrap();
    assert_eq!(p.fast_window_days, 3);
}

#[test]
fn largest_fast_window_cannot_form_slow_window() {
    let mut bag = ParamBag::new();
    bag.push("fast_window_days".to_string(), ParamValue::UInt(u64::MAX));
    assert!(VolumeTriggerSettings::from_params(&bag).is_none());
}

#[test]
fn signal_type_names() {
    assert_eq!(VolumeTriggerSignalType::Long.as_str(), "volume_trigger_long");
    assert_eq!(VolumeTriggerSignalType::Short.as_str(), "volume_trigger_short");
}

#[test]
fn trading_day_is_date_prefix() {
    assert_eq!(trading_day("2026-01-05T02:00:00Z"), "2026-01-05");
    assert_eq!(trading_day("2026-01"), "");
    assert_eq!(trading_day("2026-01-0é5"), "");
}

#[test]
fn no_look_ahead_baseline_uses_only_past_days() {
    let days: Vec<String> = ["2026-01-02", "2026-01-03", "2026-01-04", "2026-01-05"]
        .iter()
        .map(|s| s.to_string())
        .collect();
    // a bar of 2026-01-04 sees only the two days before it
    assert_eq!(days_before_window(&days, "2026-01-04", 2), Some((0, 2)));
    assert_eq!(days_before_window(&days, "2026-01-04", 3), None);
    assert_eq!(days_before_window(&days, "2026-01-06", 3), Some((1, 4)));
    assert_eq!(days_before_window(&days, "2026-01-01", 0), Some((0, 0)));
}

#[test]
fn reference_window_lies_before_the_bar() {
    assert_eq!(direction_reference_window(10, 6), Some((4, 10)));
    assert_eq!(direction_reference_window(5, 6), None);
    assert_eq!(direction_reference_window(6, 6), Some((0, 6)));
}

#[test]
fn fast_baseline_window_inside_slow() {
    let days: Vec<String> = (1..=20).map(|d| format!("2026-01-{:02}", d)).collect();
    let fast = days_before_window(&days, "2026-01-18", 3).unwrap();
    let slow = days_before_window(&days, "2026-01-18", 15).unwrap();
    assert_eq!(fast, (14, 17));
    assert_eq!(slow, (2, 17));
    assert!(slow.0 <= fast.0 && fast.1 == slow.1);
}

#[test]
fn bar_windows_follow_the_warm_up() {
    // four days of two bars each; windows of one and two days, one reference bar
    let bar_days: Vec<String> = ["2026-01-02", "2026-01-02", "2026-01-05", "2026-01-05", "2026-01-06", "2026-01-06", "2026-01-07", "2026-01-07"]
        .iter()
        .map(|s| s.to_string())
        .collect();
    let days: Vec<String> = ["2026-01-02", "2026-01-05", "2026-01-06", "2026-01-07"]
        .iter()
        .map(|s| s.to_string())
        .collect();
    let mut settings = VolumeTriggerSettings::default_settings();
    settings.fast_window_days = 1;
    settings.slow_window_days = 2;
    settings.bars_per_day = 1;
    settings.direction_lookback_bars = 1;
    // warm-up: 2 * 1 + 1 = 3 bars
    let w = volume_trigger_bar_windows(&bar_days, &days, &settings);
    assert_eq!(
        w,
        vec![
            BarWindows { bar_idx: 4, fast_days: (1, 2), slow_days: (0, 2), reference: (3, 4) },
            BarWindows { bar_idx: 5, fast_days: (1, 2), slow_days: (0, 2), reference: (4, 5) },
            BarWindows { bar_idx: 6, fast_days: (2, 3), slow_days: (1, 3), reference: (5, 6) },
            BarWindows { bar_idx: 7, fast_days: (2, 3), slow_days: (1, 3), reference: (6, 7) },
        ]
    );
    // fewer bars than the warm-up: nothing to check
    assert!(volume_trigger_bar_windows(&bar_days[..3].to_vec(), &days, &settings).is_empty());
}
