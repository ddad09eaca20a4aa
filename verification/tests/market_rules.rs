use mousehunter_operators::ma20_main_wave::entry::Ma20SignalKind;
use mousehunter_operators::ma20_main_wave::utils::{
    bar_local_time_minutes, enforce_t_plus_one, is_market_close_bar, symbol_market, time_str_minutes,
};
use mousehunter_operators::param_bag::{ParamBag, ParamValue};

fn bag(entries: &[(&str, ParamValue)]) -> ParamBag {
    let mut b = ParamBag::new();
    for (k, v) in entries {
        let v = match v {
            ParamValue::Bool(x) => ParamValue::Bool(*x),
            ParamValue::UInt(x) => ParamValue::UInt(*x),
            ParamValue::Str(s) => ParamValue::Str(s.clone()),
            ParamValue::Other => ParamValue::Other,
        };
        b.push(k.to_string(), v);
    }
    b
}

fn s(x: &str) -> ParamValue {
    ParamValue::Str(x.to_string())
}

#[test]
fn symbol_market_by_prefix() {
    assert_eq!(symbol_market("HK00700"), "HK");
    assert_eq!(symbol_market("USAAPL"), "US");
    assert_eq!(symbol_market("SH600000"), "CN");
    assert_eq!(symbol_market("hk00700"), "CN");
    assert_eq!(symbol_market(""), "CN");
}

#[test]
fn local_time_of_bars() {
    // 06:30 UTC is 14:30 in CN and HK
    assert_eq!(bar_local_time_minutes("2026-06-01T06:30:00Z", "CN"), Some(870));
    assert_eq!(bar_local_time_minutes("2026-06-01T06:30:00Z", "HK"), Some(870));
    // 14:30 UTC is 09:30 in New York (EST)
    assert_eq!(bar_local_time_minutes("2026-06-01T14:30:00Z", "US"), Some(570));
    // wraps around midnight in both directions
    assert_eq!(bar_local_time_minutes("2026-06-01T20:00:00Z", "CN"), Some(240));
    assert_eq!(bar_local_time_minutes("2026-06-01T02:00:00Z", "US"), Some(1260));
    // other markets keep UTC
    assert_eq!(bar_local_time_minutes("2026-06-01T06:30:00Z", "JP"), Some(390));
    // market names are matched exactly
    assert_eq!(bar_local_time_minutes("2026-06-01T06:30:00Z", "cn"), Some(390));
    // malformed timestamps
    assert_eq!(bar_local_time_minutes("2026-06-01", "CN"), None);
    assert_eq!(bar_local_time_minutes("2026-06-01Tab:30:00Z", "CN"), None);
    // signs are accepted by integer parsing
    assert_eq!(bar_local_time_minutes("2026-06-01T+1:-5:00Z", "UTC"), Some(55));
}

#[test]
fn clock_strings_to_minutes() {
    assert_eq!(time_str_minutes("14:30"), Some(870));
    assert_eq!(time_str_minutes("00:00"), Some(0));
    assert_eq!(time_str_minutes("9:30"), None);
    assert_eq!(time_str_minutes("14-3"), None);
    assert_eq!(time_str_minutes(""), None);
}

#[test]
fn market_close_bars() {
    assert!(is_market_close_bar("CN", "2026-01-05T06:45:00Z"));
    assert!(is_market_close_bar("cn", "2026-01-05T07:00:00Z"));
    assert!(!is_market_close_bar("CN", "2026-01-05T06:30:00Z"));
    assert!(is_market_close_bar("HK", "2026-01-05T07:45:00Z"));
    assert!(!is_market_close_bar("hk", "2026-01-05T07:44:00Z"));
    assert!(is_market_close_bar("Us", "2026-01-05T19:45:00Z"));
    assert!(!is_market_close_bar("US", "2026-01-05T19:30:00Z"));
    assert!(!is_market_close_bar("JP", "2026-01-05T23:59:00Z"));
    assert!(!is_market_close_bar("CN", "2026-01-05"));
}

#[test]
fn t_plus_one_flag_wins() {
    let p = bag(&[("t_plus_one", ParamValue::Bool(true)), ("settlement_rule", s("t+0"))]);
    assert!(enforce_t_plus_one(&p, "USAAPL"));
}

#[test]
fn settlement_rule_decides() {
    assert!(enforce_t_plus_one(&bag(&[("settlement_rule", s("T+1"))]), "USAAPL"));
    assert!(enforce_t_plus_one(&bag(&[("settlement_rule", s("t1"))]), "USAAPL"));
    assert!(enforce_t_plus_one(&bag(&[("settlement_rule", s("T_Plus_One"))]), "USAAPL"));
    assert!(!enforce_t_plus_one(&bag(&[("settlement_rule", s("t+0"))]), "SH600000"));
    assert!(!enforce_t_plus_one(
        &bag(&[("t_plus_one", ParamValue::Bool(false)), ("settlement_rule", s("same_day"))]),
        "SH600000"
    ));
}

#[test]
fn market_parameter_decides() {
    assert!(enforce_t_plus_one(&bag(&[("market", s("cn"))]), "USAAPL"));
    assert!(enforce_t_plus_one(&bag(&[("backtest_market", s("CN"))]), "USAAPL"));
    assert!(!enforce_t_plus_one(&bag(&[("market", s("US"))]), "SH600000"));
    // a present but non-string market hides backtest_market and counts as empty
    assert!(!enforce_t_plus_one(
        &bag(&[("market", ParamValue::UInt(1)), ("backtest_market", s("CN"))]),
        "USAAPL"
    ));
    assert!(enforce_t_plus_one(
        &bag(&[("market", ParamValue::Other), ("backtest_market", s("CN"))]),
        "sz000001"
    ));
}

#[test]
fn symbol_heuristic_without_market() {
    let empty = ParamBag::new();
    assert!(enforce_t_plus_one(&empty, "SH600000"));
    assert!(enforce_t_plus_one(&empty, "  sz000001 "));
    assert!(enforce_t_plus_one(&empty, "600000.sh"));
    assert!(enforce_t_plus_one(&empty, "\u{3000}000001.SZ\t"));
    assert!(!enforce_t_plus_one(&empty, "HK00700"));
    assert!(!enforce_t_plus_one(&empty, "USAAPL"));
    assert!(!enforce_t_plus_one(&empty, ""));
}

#[test]
fn ma20_signal_kind_names() {
    assert_eq!(Ma20SignalKind::BollLowerRebound.as_str(), "boll_lower_rebound");
    assert_eq!(Ma20SignalKind::EmaPullback.as_str(), "ema_pullback");
    assert_eq!(Ma20SignalKind::StrongAccumulation.as_str(), "strong_accumulation");
    assert_eq!(Ma20SignalKind::VolumeTriggerShort.as_str(), "volume_trigger_short");
}

#[test]
fn local_minute_is_the_day_remainder() {
    // 20:30 UTC + 8 h = 04:30 the next day; 02:00 UTC - 5 h = 21:00 the day before
    assert_eq!(bar_local_time_minutes("2026-06-01T20:30:00Z", "CN"), Some((20 * 60 + 30 + 480) % 1440));
    assert_eq!(bar_local_time_minutes("2026-06-01T02:00:00Z", "US"), Some((2 * 60 - 300 + 1440) % 1440));
    // without an offset the local minute is the HH:MM reading of the clock field
    let ts = "2026-06-01T13:07:00Z";
    assert_eq!(bar_local_time_minutes(ts, "SG"), time_str_minutes(&ts[11..16]));
    assert_eq!(bar_local_time_minutes(ts, "SG"), Some(13 * 60 + 7));
}

#[test]
fn zero_padded_clock_texts_keep_their_order() {
    let texts = ["00:00", "00:59", "09:05", "09:30", "10:00", "14:45", "23:59"];
    for a in texts {
        for b in texts {
            let x = time_str_minutes(a).unwrap();
            let y = time_str_minutes(b).unwrap();
            assert!((0..1440).contains(&x));
            assert_eq!(a < b, x < y);
            assert_eq!(a == b, x == y);
        }
    }
}
