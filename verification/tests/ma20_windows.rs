use mousehunter_operators::ma20_main_wave::daily::{cascade_direction_flags, trend_gate_plan, TrendRule};
use mousehunter_operators::ma20_main_wave::exit::{ma20_exit_decision, ma20_exit_window, Ma20ExitReason};

fn stamps(list: &[&str]) -> Vec<String> {
    list.iter().map(|s| s.to_string()).collect()
}

#[test]
fn exit_window_spans_holding_days() {
    let ts = stamps(&[
        "2026-01-05T02:00:00Z",
        "2026-01-05T03:00:00Z",
        "2026-01-06T02:00:00Z",
        "2026-01-06T03:00:00Z",
        "2026-01-07T02:00:00Z",
        "2026-01-08T02:00:00Z",
    ]);
    // two trading days after the entry: bars 1..4 (05 and 06)
    assert_eq!(ma20_exit_window(0, &ts, 2, false), Some((1, 4)));
    // T+1 skips the rest of the entry day
    assert_eq!(ma20_exit_window(0, &ts, 2, true), Some((2, 4)));
    // one day, all of it the entry's day: nothing to exit on under T+1
    assert_eq!(ma20_exit_window(0, &ts, 1, true), None);
    assert_eq!(ma20_exit_window(0, &ts, 1, false), Some((1, 2)));
    // zero days: empty window
    assert_eq!(ma20_exit_window(0, &ts, 0, false), None);
    // entry at the last bar
    assert_eq!(ma20_exit_window(5, &ts, 3, true), None);
    // long holding: up to the end of the bars
    assert_eq!(ma20_exit_window(1, &ts, 10, true), Some((2, 6)));
}

#[test]
fn stamps_without_a_day_do_not_count() {
    let ts = stamps(&["2026-01-05T02:00:00Z", "bad", "x", "2026-01-06T02:00:00Z", "2026-01-07T02:00:00Z"]);
    assert_eq!(ma20_exit_window(0, &ts, 1, false), Some((1, 4)));
}

#[test]
fn trend_gate_by_history_length() {
    assert_eq!(trend_gate_plan(0), None);
    assert_eq!(trend_gate_plan(119), None);
    assert_eq!(trend_gate_plan(120), Some((TrendRule::Ema120AboveEma200, 119)));
    assert_eq!(trend_gate_plan(150), Some((TrendRule::Ema120AboveEma200, 119)));
    // a longer history gates the same dates the same way
    assert_eq!(trend_gate_plan(250), trend_gate_plan(150));
}

#[test]
fn persistent_direction_latches_on_golden_cross() {
    let above = vec![false, false, true, false, false, true];
    let below = vec![true, true, false, true, true, false];
    // dates from bar 1 on
    let flags = cascade_direction_flags(&above, &below, 2, true);
    assert_eq!(flags, vec![false, true, true, true, true]);
    let point = cascade_direction_flags(&above, &below, 2, false);
    assert_eq!(point, vec![false, true, false, false, true]);
}

#[test]
fn crossing_before_first_date_does_not_latch() {
    let above = vec![false, true, true, true];
    let below = vec![true, false, false, false];
    assert_eq!(cascade_direction_flags(&above, &below, 3, true), vec![false, false]);
    assert_eq!(cascade_direction_flags(&above, &below, 2, true), vec![true, true, true]);
    assert_eq!(cascade_direction_flags(&vec![], &vec![], 0, true), Vec::<bool>::new());
}

#[test]
fn undefined_comparison_never_crosses() {
    // neither above nor at-or-below (an undefined value) on bar 1
    let above = vec![false, false, true];
    let below = vec![true, false, false];
    assert_eq!(cascade_direction_flags(&above, &below, 1, true), vec![false, false, false]);
}

#[test]
fn exit_checks_in_priority_order() {
    let top = vec![false, false, false, true, false];
    let stop = vec![true, false, false, true, false];
    let target = vec![false, false, true, true, false];
    // bar 0 lies before the window and is not looked at
    assert_eq!(ma20_exit_decision(1, 5, &top, &stop, &target), (2, Ma20ExitReason::ProfitTake));
    assert_eq!(ma20_exit_decision(3, 5, &top, &stop, &target), (3, Ma20ExitReason::MainWaveTopExhaustion));
    assert_eq!(ma20_exit_decision(0, 5, &top, &stop, &target), (0, Ma20ExitReason::StopLoss));
    assert_eq!(ma20_exit_decision(4, 5, &top, &stop, &target), (4, Ma20ExitReason::MaxHolding));
    assert_eq!(ma20_exit_decision(1, 2, &top, &stop, &target), (1, Ma20ExitReason::MaxHolding));
    assert_eq!(Ma20ExitReason::MainWaveTopExhaustion.as_str(), "main_wave_top_exhaustion");
    assert_eq!(Ma20ExitReason::StopLoss.as_str(), "stop_loss");
    assert_eq!(Ma20ExitReason::ProfitTake.as_str(), "profit_take");
    assert_eq!(Ma20ExitReason::MaxHolding.as_str(), "max_holding");
}

#[test]
fn later_bars_do_not_change_earlier_directions() {
    let above1 = vec![false, true, false, false];
    let below1 = vec![true, false, true, true];
    let above2 = vec![false, true, true, false];
    let below2 = vec![true, false, false, false];
    let f1 = cascade_direction_flags(&above1, &below1, 1, true);
    let f2 = cascade_direction_flags(&above2, &below2, 1, true);
    assert_eq!(f1[..2], f2[..2]);
    let p1 = cascade_direction_flags(&above1, &below1, 1, false);
    let p2 = cascade_direction_flags(&above2, &below2, 1, false);
    assert_eq!(p1[..2], p2[..2]);
}

#[test]
fn t_plus_one_window_has_no_bar_of_the_entry_day() {
    let ts = stamps(&[
        "2026-01-05T02:00:00Z",
        "2026-01-05T03:00:00Z",
        "2026-01-05T06:00:00Z",
        "2026-01-06T02:00:00Z",
        "2026-01-06T03:00:00Z",
        "2026-01-07T02:00:00Z",
    ]);
    for days in 1..5 {
        if let Some((s, e)) = ma20_exit_window(0, &ts, days, true) {
            for k in s..e {
                assert!(!ts[k].starts_with("2026-01-05"));
            }
        }
    }
    assert_eq!(ma20_exit_window(0, &ts, 2, true), Some((3, 5)));
}
