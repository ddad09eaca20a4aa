//! Static operator registry: the canonical list of known operators, alias
//! resolution and legacy plan-name inference.
//!
//! The registry holds each operator's metadata as plain strings; the JSON
//! parts (default parameters) are kept as JSON text for the host to parse.

pub mod laws;

use vstd::prelude::*;
use vstd::string::StringSliceAdditionalSpecFns;
use crate::text::{contains, has_infix, str_eq, trim, trim_str};

verus! {

/// Operator metadata entry in the shared registry.
pub struct OperatorEntry {
    pub operator_key: &'static str,
    pub operator_type: &'static str,
    /// "columnar" or "bars"
    pub execution_model: &'static str,
    pub aliases: &'static [&'static str],
    pub dependencies: &'static [&'static str],
    pub output_columns: &'static [&'static str],
    pub input_fields_zh: &'static [&'static str],
    pub output_fields_zh: &'static [&'static str],
    /// One-sentence Chinese description of what this operator does.
    pub description_zh: &'static str,
    /// Default parameter values as JSON object text: {"param": default_value, ...}
    pub default_params_json: &'static str,
    /// Per-parameter Chinese descriptions, in order.
    pub param_descriptions_zh: &'static [(&'static str, &'static str)],
}

/// The key and the aliases of an entry.
pub open spec fn entry_names(e: OperatorEntry) -> (Seq<char>, Seq<Seq<char>>) {
    (e.operator_key@, e.aliases@.map_values(|a: &str| a@))
}

/// An entry's metadata as character sequences.
#[verifier::ext_equal]
pub struct OperatorInfo {
    pub operator_key: Seq<char>,
    pub operator_type: Seq<char>,
    pub execution_model: Seq<char>,
    pub aliases: Seq<Seq<char>>,
    pub dependencies: Seq<Seq<char>>,
    pub output_columns: Seq<Seq<char>>,
    pub input_fields_zh: Seq<Seq<char>>,
    pub output_fields_zh: Seq<Seq<char>>,
    pub description_zh: Seq<char>,
    pub default_params_json: Seq<char>,
    pub param_descriptions_zh: Seq<(Seq<char>, Seq<char>)>,
}

/// The metadata of an entry, read as character sequences.
pub open spec fn entry_info(e: OperatorEntry) -> OperatorInfo {
    OperatorInfo {
        operator_key: e.operator_key@,
        operator_type: e.operator_type@,
        execution_model: e.execution_model@,
        aliases: e.aliases@.map_values(|a: &str| a@),
        dependencies: e.dependencies@.map_values(|a: &str| a@),
        output_columns: e.output_columns@.map_values(|a: &str| a@),
        input_fields_zh: e.input_fields_zh@.map_values(|a: &str| a@),
        output_fields_zh: e.output_fields_zh@.map_values(|a: &str| a@),
        description_zh: e.description_zh@,
        default_params_json: e.default_params_json@,
        param_descriptions_zh: e.param_descriptions_zh@.map_values(|p: (&str, &str)| (p.0@, p.1@)),
    }
}

/// Number of registered operators.
pub const OPERATOR_COUNT: usize = 40;

/// The metadata of the registry's `i`-th operator, in registry order.
pub open spec fn operator_info(i: int) -> OperatorInfo
    recommends
        0 <= i < OPERATOR_COUNT,
{
    if i == 0 {
        OperatorInfo {
            operator_key: "atr_breakout_v1"@,
            operator_type: "indicator"@,
            execution_model: "columnar"@,
            aliases: seq!["atr_breakout_v1"@],
            dependencies: seq![],
            output_columns: seq!["atr_value"@, "atr_upper"@, "atr_lower"@, "breakout_signal"@],
            input_fields_zh: seq!["价格"@, "成交量"@],
            output_fields_zh: seq!["ATR值"@, "ATR上轨"@, "ATR下轨"@, "突破信号"@],
            description_zh: "ATR真实波幅突破指标，价格波动率放大、突破ATR上下轨时产生交易信号"@,
            default_params_json: "{\"fast_window_days\": 14, \"slow_window_days\": 20}"@,
            param_descriptions_zh: seq![("fast_window_days"@, "快窗口周期（日）"@), ("slow_window_days"@, "慢窗口周期（日）"@)],
        }
    } else if i == 1 {
        OperatorInfo {
            operator_key: "bollinger_bands_v1"@,
            operator_type: "indicator"@,
            execution_model: "columnar"@,
            aliases: seq!["bollinger_bands"@],
            dependencies: seq![],
            output_columns: seq!["boll_mid"@, "boll_upper"@, "boll_lower"@, "boll_width"@, "boll_phase"@],
            input_fields_zh: seq!["价格"@],
            output_fields_zh: seq!["布林中轨"@, "布林上轨"@, "布林下轨"@, "布林带宽"@, "布林阶段"@],
            description_zh: "布林带通道指标，价格围绕MA20中轨波动，上轨=中轨+2倍标准差（压力位），下轨=中轨-2倍标准差（支撑位），带宽扩张=趋势启动，收缩=变盘前兆"@,
            default_params_json: "{\"boll_period\": 20, \"boll_std_multiplier\": 2.0}"@,
            param_descriptions_zh: seq![("boll_period"@, "布林带周期"@), ("boll_std_multiplier"@, "标准差倍数"@)],
        }
    } else if i == 2 {
        OperatorInfo {
            operator_key: "boll_upper_top_v1"@,
            operator_type: "exit"@,
            execution_model: "columnar"@,
            aliases: seq!["rust_builtin.boll_upper_top_v1"@],
            dependencies: seq!["bollinger_bands_v1"@],
            output_columns: seq!["boll_upper_top_signal"@],
            input_fields_zh: seq!["K线数据"@, "布林带"@],
            output_fields_zh: seq!["布林上轨出场信号"@],
            description_zh: "布林带上轨见顶出场，价格冲高到布林上轨后回落跌破中轨时触发卖出"@,
            default_params_json: "{\"boll_period\": 20, \"boll_std_multiplier\": 2.0, \"require_bearish_candle\": true}"@,
            param_descriptions_zh: seq![("boll_period"@, "布林带周期"@), ("boll_std_multiplier"@, "标准差倍数"@), ("require_bearish_candle"@, "要求阴线确认"@)],
        }
    } else if i == 3 {
        OperatorInfo {
            operator_key: "daily_score_weighted_sizing_v1"@,
            operator_type: "portfolio"@,
            execution_model: "columnar"@,
            aliases: seq!["rust_builtin.daily_score_weighted_sizing_v1"@],
            dependencies: seq![],
            output_columns: seq!["position_allocation"@],
            input_fields_zh: seq!["入场信号"@, "组合参数"@],
            output_fields_zh: seq!["仓位分配"@],
            description_zh: "仓位分配器，按信号强度排序分配每日买入额度，强度越高仓位越大"@,
            default_params_json: "{\"max_daily_buys\": 5, \"daily_buy_budget_ratio\": 0.9, \"target_position_per_trade\": 0.12, \"max_total_position_ratio\": 1.0}"@,
            param_descriptions_zh: seq![("max_daily_buys"@, "每日最大买入数"@), ("daily_buy_budget_ratio"@, "每日买入预算比例"@), ("target_position_per_trade"@, "单笔目标仓位比例"@), ("max_total_position_ratio"@, "最大总仓位比例"@)],
        }
    } else if i == 4 {
        OperatorInfo {
            operator_key: "ema5_ema10_adhesion_signal"@,
            operator_type: "indicator"@,
            execution_model: "columnar"@,
            aliases: seq!["ema5_ema10_adhesion_signal"@],
            dependencies: seq![],
            output_columns: seq!["adhesion_signal"@, "adhesion_strength"@, "ema5_value"@, "ema10_value"@, "gap_ratio"@],
            input_fields_zh: seq!["价格"@, "成交量"@],
            output_fields_zh: seq!["黏合信号"@, "黏合强度"@, "EMA5值"@, "EMA10值"@, "间隙比率"@],
            description_zh: "EMA均线黏合检测，快慢EMA接近缠绕时发出黏合信号，预示均线即将发散"@,
            default_params_json: "{\"fast_window_days\": 5, \"slow_window_days\": 10}"@,
            param_descriptions_zh: seq![("fast_window_days"@, "快窗口周期（日）"@), ("slow_window_days"@, "慢窗口周期（日）"@)],
        }
    } else if i == 5 {
        OperatorInfo {
            operator_key: "ema_slope_v1"@,
            operator_type: "indicator"@,
            execution_model: "columnar"@,
            aliases: seq!["ema_slope"@],
            dependencies: seq![],
            output_columns: seq!["ema5"@, "ema10"@, "ema20"@, "sma20"@, "ma20_slope"@, "ma20_slope_ratio"@, "ema5_ema20_diff"@],
            input_fields_zh: seq!["价格"@],
            output_fields_zh: seq!["EMA5"@, "EMA10"@, "EMA20"@, "SMA20"@, "MA20斜率"@, "MA20斜率比"@, "EMA5-EMA20差值"@],
            description_zh: "EMA均线组指标，计算EMA5/10/20、SMA20、MA20斜率，判断均线排列方向和趋势强弱"@,
            default_params_json: "{\"ma20_slope_lookback\": 5}"@,
            param_descriptions_zh: seq![("ma20_slope_lookback"@, "MA20斜率回看周期"@)],
        }
    } else if i == 6 {
        OperatorInfo {
            operator_key: "end_of_backtest_liquidation_v1"@,
            operator_type: "exit"@,
            execution_model: "columnar"@,
            aliases: seq!["rust_builtin.end_of_backtest_liquidation_v1"@],
            dependencies: seq![],
            output_columns: seq!["liquidation_signal"@],
            input_fields_zh: seq!["K线数据"@],
            output_fields_zh: seq!["回测结束清仓信号"@],
            description_zh: "回测结束清仓，在每只标的最后一根K线处发出清仓卖出信号，用于回测强制平仓"@,
            default_params_json: "{}"@,
            param_descriptions_zh: seq![],
        }
    } else if i == 7 {
        OperatorInfo {
            operator_key: "history_signal_volume_entry_v1"@,
            operator_type: "entry"@,
            execution_model: "columnar"@,
            aliases: seq!["rust_builtin.history_signal_volume_entry_v1"@],
            dependencies: seq![],
            output_columns: seq!["volume_entry_signal"@],
            input_fields_zh: seq!["K线数据"@],
            output_fields_zh: seq!["历史量能入场信号"@],
            description_zh: "复合条件放量入场信号，需要均线上涨趋势+成交量放大+阳线三个条件同时满足才触发买入，不是单纯的放量突破检测（纯放量突破请用volume_trigger）"@,
            default_params_json: "{\"ma20_slope_min_ratio\": 0.02, \"vol_ratio_min\": 1.2, \"require_bullish_candle\": true, \"require_above_ema20\": true}"@,
            param_descriptions_zh: seq![("ma20_slope_min_ratio"@, "MA20斜率最小比例"@), ("vol_ratio_min"@, "量比最小阈值"@), ("require_bullish_candle"@, "要求阳线"@), ("require_above_ema20"@, "要求站上EMA20"@)],
        }
    } else if i == 8 {
        OperatorInfo {
            operator_key: "history_signal_volume_gate_v1"@,
            operator_type: "signal"@,
            execution_model: "columnar"@,
            aliases: seq!["rust_builtin.history_signal_volume_gate_v1"@],
            dependencies: seq![],
            output_columns: seq!["volume_gate"@],
            input_fields_zh: seq!["K线数据"@, "历史信号"@],
            output_fields_zh: seq!["历史量能门控信号"@],
            description_zh: "成交量阈值过滤器，当前成交量超过均量N倍时允许通过（可配置倍数和均量窗口），防止缩量行情中入场"@,
            default_params_json: "{\"volume_gate_ratio\": 1.5, \"volume_gate_lookback\": 20}"@,
            param_descriptions_zh: seq![("volume_gate_ratio"@, "量能门控比率"@), ("volume_gate_lookback"@, "量能门控回看周期"@)],
        }
    } else if i == 9 {
        OperatorInfo {
            operator_key: "kline_dataset_v1"@,
            operator_type: "input"@,
            execution_model: "columnar"@,
            aliases: seq!["rust_builtin.kline_dataset_v1"@],
            dependencies: seq![],
            output_columns: seq!["ts_utc"@, "open"@, "high"@, "low"@, "close"@, "volume"@],
            input_fields_zh: seq![],
            output_fields_zh: seq!["K线数据帧"@],
            description_zh: "K线数据输入算子，直接透传K线数据集并统计总品种数和总K线条数"@,
            default_params_json: "{}"@,
            param_descriptions_zh: seq![],
        }
    } else if i == 10 {
        OperatorInfo {
            operator_key: "low_buy_recovery_v1"@,
            operator_type: "entry"@,
            execution_model: "columnar"@,
            aliases: seq!["rust_builtin.low_buy_recovery_v1"@],
            dependencies: seq!["bollinger_bands_v1"@, "ema_slope_v1"@],
            output_columns: seq!["low_buy_recovery_signal"@],
            input_fields_zh: seq!["K线数据"@, "布林带"@, "EMA斜率"@],
            output_fields_zh: seq!["低位回补入场信号"@],
            description_zh: "低位反弹抄底入场，价格跌到布林下轨附近出现长下影线反弹K线时买入"@,
            default_params_json: "{\"boll_period\": 20, \"boll_std_multiplier\": 2.0, \"near_boll_lower_threshold\": 1.03, \"lower_shadow_ratio_min\": 0.3, \"require_bullish_candle\": true}"@,
            param_descriptions_zh: seq![("boll_period"@, "布林带周期"@), ("boll_std_multiplier"@, "标准差倍数"@), ("near_boll_lower_threshold"@, "接近下轨阈值"@), ("lower_shadow_ratio_min"@, "下影线最小比例"@), ("require_bullish_candle"@, "要求阳线"@)],
        }
    } else if i == 11 {
        OperatorInfo {
            operator_key: "ma20_entry_signal_v1"@,
            operator_type: "signal"@,
            execution_model: "columnar"@,
            aliases: seq!["ma20_entry_signal"@],
            dependencies: seq!["bollinger_bands_v1"@, "ema_slope_v1"@, "volume_profile_v1"@, "volume_trigger_v1"@],
            output_columns: seq!["entry_signal"@, "entry_strength"@, "entry_price"@],
            input_fields_zh: seq!["价格"@, "成交量"@, "布林带"@, "EMA斜率"@, "成交量概况"@],
            output_fields_zh: seq!["入场信号"@, "入场强度"@, "入场价格"@],
            description_zh: "MA20入场信号检测器，识别三种买入形态：布林下轨反弹、EMA回踩反弹、强吸筹放量上涨"@,
            default_params_json: "{\"boll_lower_rebound_enabled\": true, \"ema_pullback_enabled\": true, \"strong_accumulation_enabled\": true, \"boll_lower_near_ratio\": 1.02, \"ema_pullback_premium_ratio\": 1.03, \"strong_acc_ma20_slope_min\": 0.05, \"ma_slope_min_ratio\": 0.05, \"strong_acc_vol_ratio_min\": 1.5, \"ema_pullback_vol_ratio_min\": 0.8, \"cooldown_bars\": 20, \"stock_volume_gate_enabled\": false, \"volume_trigger_ratio\": 2.0, \"volume_lookback_bars\": 20, \"boll_period\": 20, \"boll_std_multiplier\": 2.0}"@,
            param_descriptions_zh: seq![("boll_lower_rebound_enabled"@, "启用布林下轨反弹"@), ("ema_pullback_enabled"@, "启用EMA回踩"@), ("strong_accumulation_enabled"@, "启用强吸筹"@), ("boll_lower_near_ratio"@, "布林下轨接近比例"@), ("ema_pullback_premium_ratio"@, "EMA回踩溢价比例"@), ("strong_acc_ma20_slope_min"@, "强吸筹MA20斜率最小值"@), ("ma_slope_min_ratio"@, "MA斜率最小比例"@), ("strong_acc_vol_ratio_min"@, "强吸筹量比最小值"@), ("ema_pullback_vol_ratio_min"@, "EMA回踩量比最小值"@), ("cooldown_bars"@, "冷却K线数"@), ("stock_volume_gate_enabled"@, "启用个股量能门控"@), ("volume_trigger_ratio"@, "量能触发比率"@), ("volume_lookback_bars"@, "量能回看K线数"@), ("boll_period"@, "布林带周期"@), ("boll_std_multiplier"@, "标准差倍数"@)],
        }
    } else if i == 12 {
        OperatorInfo {
            operator_key: "ma20_exit_signal_v1"@,
            operator_type: "signal"@,
            execution_model: "columnar"@,
            aliases: seq!["ma20_exit_signal"@],
            dependencies: seq!["bollinger_bands_v1"@, "ema_slope_v1"@],
            output_columns: seq!["exit_signal"@, "exit_reason"@],
            input_fields_zh: seq!["价格"@, "布林带"@, "EMA斜率"@],
            output_fields_zh: seq!["出场信号"@, "出场原因"@],
            description_zh: "MA20出场信号检测器，识别两种卖出形态：趋势破坏（跌破EMA20+斜率转负）和布林上轨假突破"@,
            default_params_json: "{\"profit_take_threshold\": 0.03, \"max_holding_trading_days\": 5}"@,
            param_descriptions_zh: seq![("profit_take_threshold"@, "止盈阈值"@), ("max_holding_trading_days"@, "最大持仓交易日"@)],
        }
    } else if i == 13 {
        OperatorInfo {
            operator_key: "ma20_trend_break_v1"@,
            operator_type: "exit"@,
            execution_model: "columnar"@,
            aliases: seq!["rust_builtin.ma20_trend_break_v1"@],
            dependencies: seq!["ema_slope_v1"@],
            output_columns: seq!["trend_break_signal"@],
            input_fields_zh: seq!["K线数据"@, "EMA斜率"@],
            output_fields_zh: seq!["趋势破坏出场信号"@],
            description_zh: "趋势破坏出场，收盘价跌破EMA20+EMA20斜率转负+K线收阴，三条件同时满足时卖出"@,
            default_params_json: "{\"ma20_slope_max_ratio\": -0.02, \"require_bearish_candle\": true, \"require_below_ema20\": true}"@,
            param_descriptions_zh: seq![("ma20_slope_max_ratio"@, "MA20斜率最大比例"@), ("require_bearish_candle"@, "要求阴线"@), ("require_below_ema20"@, "要求跌破EMA20"@)],
        }
    } else if i == 14 {
        OperatorInfo {
            operator_key: "ma_cross_v1"@,
            operator_type: "signal"@,
            execution_model: "columnar"@,
            aliases: seq!["ma_cross"@],
            dependencies: seq![],
            output_columns: seq!["cross_signal"@, "cross_strength"@, "fast_ma"@, "slow_ma"@],
            input_fields_zh: seq!["价格"@],
            output_fields_zh: seq!["交叉信号"@, "交叉强度"@, "快线MA"@, "慢线MA"@],
            description_zh: "均线金叉死叉交易信号，快线(EMA5)上穿慢线(EMA20)=金叉买入，下穿=死叉卖出，经典双均线趋势跟踪策略"@,
            default_params_json: "{\"fast_window_days\": 5, \"slow_window_days\": 20, \"threshold\": 0.01}"@,
            param_descriptions_zh: seq![("fast_window_days"@, "快窗口周期（日）"@), ("slow_window_days"@, "慢窗口周期（日）"@), ("threshold"@, "交叉阈值"@)],
        }
    } else if i == 15 {
        OperatorInfo {
            operator_key: "main_wave_exit_v1"@,
            operator_type: "exit"@,
            execution_model: "columnar"@,
            aliases: seq!["main_wave_exit"@],
            dependencies: seq![],
            output_columns: seq!["exit_signal"@, "signals"@],
            input_fields_zh: seq!["K线数据"@],
            output_fields_zh: seq!["主升浪见顶退出信号"@],
            description_zh: "主升浪顶部卖出，长上影线+放量+阴线组合判断主力出货，顶部衰竭时离场"@,
            default_params_json: "{\"mw_exit_upper_shadow_ratio\": 0.6, \"mw_exit_volume_spike_ratio\": 2.0, \"mw_exit_require_bearish\": true, \"mw_exit_cooldown_bars\": 20}"@,
            param_descriptions_zh: seq![("mw_exit_upper_shadow_ratio"@, "上影线比例"@), ("mw_exit_volume_spike_ratio"@, "放量倍数"@), ("mw_exit_require_bearish"@, "要求阴线"@), ("mw_exit_cooldown_bars"@, "冷却K线数"@)],
        }
    } else if i == 16 {
        OperatorInfo {
            operator_key: "max_holding_v1"@,
            operator_type: "exit"@,
            execution_model: "columnar"@,
            aliases: seq!["rust_builtin.max_holding_v1"@],
            dependencies: seq![],
            output_columns: seq!["max_holding_signal"@],
            input_fields_zh: seq!["K线数据"@],
            output_fields_zh: seq!["最大持仓天数信号"@],
            description_zh: "最大持仓天数到期出场，每根K线携带可配置的最大持仓天数，超时强制平仓"@,
            default_params_json: "{\"max_holding_trading_days\": 5}"@,
            param_descriptions_zh: seq![("max_holding_trading_days"@, "最大持仓交易日"@)],
        }
    } else if i == 17 {
        OperatorInfo {
            operator_key: "stop_loss_exit_v1"@,
            operator_type: "exit"@,
            execution_model: "columnar"@,
            aliases: seq!["rust_builtin.stop_loss_exit_v1"@],
            dependencies: seq![],
            output_columns: seq!["stop_loss_signal"@],
            input_fields_zh: seq!["K线数据"@, "上游入场信号"@],
            output_fields_zh: seq!["止损出场信号"@],
            description_zh: "止损出场，接收上游入场信号，扫描入场后的K线找到第一根 low <= entry_price*(1-stop_loss_pct) 的bar发出场信号"@,
            default_params_json: "{\"stop_loss_pct\": 0.08}"@,
            param_descriptions_zh: seq![("stop_loss_pct"@, "止损百分比"@)],
        }
    } else if i == 18 {
        OperatorInfo {
            operator_key: "trailing_stop_v1"@,
            operator_type: "exit"@,
            execution_model: "columnar"@,
            aliases: seq!["rust_builtin.trailing_stop_v1"@],
            dependencies: seq![],
            output_columns: seq!["trailing_stop_signal"@],
            input_fields_zh: seq!["K线数据"@, "上游入场信号"@],
            output_fields_zh: seq!["移动止盈出场信号"@],
            description_zh: "移动止盈出场，接收上游入场信号，入场后跟踪最高价，从高点回落 trailing_stop_pct 时触发出场，动态锁定利润"@,
            default_params_json: "{\"trailing_stop_pct\": 0.05}"@,
            param_descriptions_zh: seq![("trailing_stop_pct"@, "回撤止盈百分比（从最高点回落幅度）"@)],
        }
    } else if i == 19 {
        OperatorInfo {
            operator_key: "tail_low_rebound_entry_v1"@,
            operator_type: "entry"@,
            execution_model: "columnar"@,
            aliases: seq!["rust_builtin.tail_low_rebound_entry_v1"@],
            dependencies: seq![],
            output_columns: seq!["tail_low_rebound_entry_signal"@],
            input_fields_zh: seq!["K线数据"@, "日线趋势门控结果"@, "级联方向门控结果"@],
            output_fields_zh: seq!["尾盘低位反弹入场信号"@],
            description_zh: "尾盘低位反弹入场检测，尾盘窗口(14:30-15:00)检测价格接近日低且EMA上行放量时发出入场信号"@,
            default_params_json: "{\"tail_start_time\": \"14:30\", \"tail_end_time\": \"15:00\", \"ma_slope_min_ratio\": 0.001, \"near_low_max_price_pct\": 0.01, \"near_low_max_day_range_ratio\": 0.2, \"volume_trigger_ratio\": 2.0, \"volume_lookback_bars\": 20, \"boll_period\": 20, \"boll_std_multiplier\": 2.0, \"cascade_direction_enabled\": true, \"cascade_volume_enabled\": true, \"daily_ma120_ma200_buy_gate_enabled\": false}"@,
            param_descriptions_zh: seq![("tail_start_time"@, "尾盘开始时间"@), ("tail_end_time"@, "尾盘结束时间"@), ("ma_slope_min_ratio"@, "MA斜率最小比例"@), ("near_low_max_price_pct"@, "接近日低最大价格百分比"@), ("near_low_max_day_range_ratio"@, "接近日低最大日振幅比例"@), ("volume_trigger_ratio"@, "量能触发比率"@), ("volume_lookback_bars"@, "量能回看K线数"@), ("boll_period"@, "布林带周期"@), ("boll_std_multiplier"@, "标准差倍数"@), ("cascade_direction_enabled"@, "启用级联方向门控"@), ("cascade_volume_enabled"@, "启用级联量能门控"@), ("daily_ma120_ma200_buy_gate_enabled"@, "启用MA120/MA200买入门控"@)],
        }
    } else if i == 20 {
        OperatorInfo {
            operator_key: "position_manager_v1"@,
            operator_type: "execution"@,
            execution_model: "columnar"@,
            aliases: seq!["position_manager"@],
            dependencies: seq!["ma20_entry_signal_v1"@, "ma20_exit_signal_v1"@],
            output_columns: seq!["orders"@, "fills"@, "backtest_report"@, "position_summary"@, "market_risk_state"@],
            input_fields_zh: seq!["交易信号列表"@],
            output_fields_zh: seq!["订单"@, "成交"@, "回测报告"@, "持仓摘要"@, "市场风险状态"@],
            description_zh: "多信号汇聚与组合仓位管理，合并上游信号、执行下单成交撮合、持仓管理并生成回测报告"@,
            default_params_json: "{\"target_position_per_trade\": 0.12, \"max_daily_filled_symbols\": 1}"@,
            param_descriptions_zh: seq![("target_position_per_trade"@, "单笔目标仓位比例"@), ("max_daily_filled_symbols"@, "每日最大成交标的数"@)],
        }
    } else if i == 21 {
        OperatorInfo {
            operator_key: "profit_take_v1"@,
            operator_type: "exit"@,
            execution_model: "columnar"@,
            aliases: seq!["rust_builtin.profit_take_v1"@],
            dependencies: seq![],
            output_columns: seq!["take_profit_signal"@],
            input_fields_zh: seq!["K线数据"@],
            output_fields_zh: seq!["止盈信号"@],
            description_zh: "止盈出场信号，每根K线携带可配置的止盈百分比阈值，供下游触发止盈判断"@,
            default_params_json: "{\"profit_take_threshold\": 0.03}"@,
            param_descriptions_zh: seq![("profit_take_threshold"@, "止盈阈值"@)],
        }
    } else if i == 22 {
        OperatorInfo {
            operator_key: "red_green_ratio_16_v1"@,
            operator_type: "indicator"@,
            execution_model: "columnar"@,
            aliases: seq!["red_green_ratio_16"@],
            dependencies: seq![],
            output_columns: seq!["red_ratio_16"@, "green_ratio_16"@],
            input_fields_zh: seq!["K线数据"@],
            output_fields_zh: seq!["16周期绿盘占比"@, "16周期红盘占比"@],
            description_zh: "K线红绿柱统计，计算N周期内阳线和阴线的数量和占比，判断多空力量对比"@,
            default_params_json: "{\"red_green_ratio_lookback\": 16}"@,
            param_descriptions_zh: seq![("red_green_ratio_lookback"@, "红绿比率回看周期"@)],
        }
    } else if i == 23 {
        OperatorInfo {
            operator_key: "red_green_ratio_signal_v1"@,
            operator_type: "signal"@,
            execution_model: "columnar"@,
            aliases: seq!["red_green_ratio_signal"@],
            dependencies: seq!["red_green_ratio_16_v1"@],
            output_columns: seq!["bull_signal"@, "bear_signal"@],
            input_fields_zh: seq!["K线数据"@, "红绿比率"@],
            output_fields_zh: seq!["多头信号"@, "空头信号"@],
            description_zh: "红绿柱多空信号，阳线占比超过阈值=做多信号，阴线占比超过阈值=做空信号"@,
            default_params_json: "{\"red_green_ratio_lookback\": 16, \"green_ratio_threshold\": 0.6, \"red_ratio_threshold\": 0.6}"@,
            param_descriptions_zh: seq![("red_green_ratio_lookback"@, "红绿比率回看周期"@), ("green_ratio_threshold"@, "阳线占比阈值"@), ("red_ratio_threshold"@, "阴线占比阈值"@)],
        }
    } else if i == 24 {
        OperatorInfo {
            operator_key: "rsi_reversal_v1"@,
            operator_type: "signal"@,
            execution_model: "columnar"@,
            aliases: seq!["rsi_14"@],
            dependencies: seq![],
            output_columns: seq!["rsi_signal"@, "rsi_value"@],
            input_fields_zh: seq!["价格"@],
            output_fields_zh: seq!["RSI反转信号"@, "RSI值"@],
            description_zh: "RSI超买超卖反转交易，RSI高于70=超买做空，低于30=超卖做多"@,
            default_params_json: "{\"fast_window_days\": 3, \"slow_window_days\": 15, \"threshold\": 30.0}"@,
            param_descriptions_zh: seq![("fast_window_days"@, "快窗口周期（日）"@), ("slow_window_days"@, "慢窗口周期（日）"@), ("threshold"@, "RSI阈值"@)],
        }
    } else if i == 25 {
        OperatorInfo {
            operator_key: "strong_accumulation_context_v1"@,
            operator_type: "entry"@,
            execution_model: "columnar"@,
            aliases: seq!["rust_builtin.strong_accumulation_context_v1"@],
            dependencies: seq!["bollinger_bands_v1"@, "ema_slope_v1"@],
            output_columns: seq!["accumulation_signal"@],
            input_fields_zh: seq!["K线数据"@, "布林带"@, "EMA斜率"@],
            output_fields_zh: seq!["强吸筹入场信号"@],
            description_zh: "强吸筹买入信号，EMA20向上+成交量放大1.5倍以上+价格在布林中上轨之间，主力吸筹形态"@,
            default_params_json: "{\"ma20_slope_min_ratio\": 0.05, \"vol_ratio_min\": 1.5, \"require_between_boll_mid_upper\": true}"@,
            param_descriptions_zh: seq![("ma20_slope_min_ratio"@, "MA20斜率最小比例"@), ("vol_ratio_min"@, "量比最小阈值"@), ("require_between_boll_mid_upper"@, "要求在布林中上轨间"@)],
        }
    } else if i == 26 {
        OperatorInfo {
            operator_key: "volume_profile_v1"@,
            operator_type: "indicator"@,
            execution_model: "columnar"@,
            aliases: seq!["volume_profile"@],
            dependencies: seq![],
            output_columns: seq!["avg_volume_20"@, "volume_ratio_20"@],
            input_fields_zh: seq!["成交量"@],
            output_fields_zh: seq!["20周期均量"@, "20周期量比"@],
            description_zh: "成交量和量比计算器，输出N周期均量和当前量比（当前量/均量），用于判断放量还是缩量，常被其他策略作为成交量数据源引用"@,
            default_params_json: "{\"volume_profile_lookback\": 20}"@,
            param_descriptions_zh: seq![("volume_profile_lookback"@, "量能概况回看周期"@)],
        }
    } else if i == 27 {
        OperatorInfo {
            operator_key: "volume_trigger_v1"@,
            operator_type: "indicator"@,
            execution_model: "columnar"@,
            aliases: seq!["volume_trigger"@],
            dependencies: seq![],
            output_columns: seq!["volume_ratio"@, "volume_trigger"@, "trigger_fast_ratio"@, "trigger_slow_ratio"@, "volume_trigger_long"@, "volume_trigger_short"@],
            input_fields_zh: seq!["成交量"@],
            output_fields_zh: seq!["量比"@, "量触发信号"@, "快窗量比"@, "慢窗量比"@, "量能多头"@, "量能空头"@],
            description_zh: "放量突破检测器，专门检测成交量突然放大突破的形态。当前成交量超过历史均量N倍时判定为放量突破（典型的放量突破场景：成交量放大超过20日均量2倍），生成放量买入/卖出信号"@,
            default_params_json: "{\"fast_threshold\": 0.5, \"slow_threshold\": 2.0, \"fast_window_days\": 3, \"slow_window_days\": 15, \"direction_lookback_bars\": 6, \"daily_ma120_ma200_gate_enabled\": true, \"cascade_direction_enabled\": false, \"cascade_direction_fast_window\": 5, \"cascade_direction_slow_window\": 20, \"bars_per_day\": 16, \"t_plus_one\": true}"@,
            param_descriptions_zh: seq![("fast_threshold"@, "快窗量比阈值"@), ("slow_threshold"@, "慢窗量比阈值"@), ("fast_window_days"@, "快窗口周期（日）"@), ("slow_window_days"@, "慢窗口周期（日）"@), ("direction_lookback_bars"@, "方向回看K线数"@), ("daily_ma120_ma200_gate_enabled"@, "启用日线MA120/MA200门控"@), ("cascade_direction_enabled"@, "启用级联方向"@), ("cascade_direction_fast_window"@, "级联方向快窗"@), ("cascade_direction_slow_window"@, "级联方向慢窗"@), ("bars_per_day"@, "每日K线数"@), ("t_plus_one"@, "T+1交易制度"@)],
        }
    } else if i == 28 {
        OperatorInfo {
            operator_key: "window_kline_updown_stats_v1"@,
            operator_type: "indicator"@,
            execution_model: "columnar"@,
            aliases: seq!["window_kline_updown_stats"@],
            dependencies: seq![],
            output_columns: seq!["up_count"@, "down_count"@, "first_close"@, "last_close"@],
            input_fields_zh: seq!["K线数据"@],
            output_fields_zh: seq!["快窗口上涨根数"@, "慢窗口下跌根数"@, "快窗口首根收盘价"@, "快窗口末根收盘价"@],
            description_zh: "窗口K线涨跌统计，统计短期和长期两个窗口内阳线/阴线根数及首末收盘价，用于判断短期动能方向和长期趋势的背离"@,
            default_params_json: "{\"fast_window_days\": 3, \"slow_window_days\": 15}"@,
            param_descriptions_zh: seq![("fast_window_days"@, "快窗口周期（日）"@), ("slow_window_days"@, "慢窗口周期（日）"@)],
        }
    } else if i == 29 {
        OperatorInfo {
            operator_key: "window_up_buy_signal_v1"@,
            operator_type: "signal"@,
            execution_model: "columnar"@,
            aliases: seq!["window_up_buy_signal"@],
            dependencies: seq!["window_kline_updown_stats_v1"@],
            output_columns: seq!["buy_signal"@, "up_down_ratio"@, "price_change_pct"@],
            input_fields_zh: seq!["K线数据"@, "窗口涨跌统计"@],
            output_fields_zh: seq!["买入信号"@, "涨跌比"@, "窗口涨幅"@],
            description_zh: "窗口动能买入信号，短期上涨力度超过长期下跌力度且窗口涨幅达标时触发买入，经典的短多压过长空的动量交易信号"@,
            default_params_json: "{\"fast_window_days\": 3, \"slow_window_days\": 15, \"threshold\": 0.01}"@,
            param_descriptions_zh: seq![("fast_window_days"@, "快窗口周期（日）"@), ("slow_window_days"@, "慢窗口周期（日）"@), ("threshold"@, "信号阈值"@)],
        }
    } else if i == 30 {
        OperatorInfo {
            operator_key: "ma20_composite_v1"@,
            operator_type: "strategy"@,
            execution_model: "columnar"@,
            aliases: seq!["ma20_composite"@],
            dependencies: seq!["ma20_entry_signal_v1"@, "ma20_exit_signal_v1"@, "position_manager_v1"@],
            output_columns: seq!["signals"@, "orders"@, "fills"@, "backtest_report"@],
            input_fields_zh: seq!["价格"@, "成交量"@],
            output_fields_zh: seq!["交易信号"@, "订单"@, "成交"@, "回测报告"@],
            description_zh: "MA20均线组合交易策略，基于MA20均线的完整买卖体系：MA20附近入场（下轨反弹/回踩/放量上涨）→MA20趋势破坏或止盈出场→自动仓位管理，适合趋势跟踪交易"@,
            default_params_json: "{\"target_position_per_trade\": 0.12, \"max_daily_buys\": 1, \"profit_take_threshold\": 0.03}"@,
            param_descriptions_zh: seq![("target_position_per_trade"@, "单笔目标仓位比例"@), ("max_daily_buys"@, "每日最大买入数"@), ("profit_take_threshold"@, "止盈阈值"@)],
        }
    } else if i == 31 {
        OperatorInfo {
            operator_key: "daily_trend_gate_v1"@,
            operator_type: "gate"@,
            execution_model: "columnar"@,
            aliases: seq!["daily_trend_gate"@],
            dependencies: seq![],
            output_columns: seq![],
            input_fields_zh: seq!["日线K线"@],
            output_fields_zh: seq!["日线趋势信号"@, "日线方向信号"@],
            description_zh: "日线趋势门控，计算EMA快慢线趋势方向（MA120/MA200）和EMA快慢线方向（日线级联方向），输出按日期×标的的趋势映射"@,
            default_params_json: "{\"trend_fast\": 120, \"trend_slow\": 200, \"direction_fast\": 3, \"direction_slow\": 15}"@,
            param_descriptions_zh: seq![("trend_fast"@, "趋势快线周期"@), ("trend_slow"@, "趋势慢线周期"@), ("direction_fast"@, "方向快线周期"@), ("direction_slow"@, "方向慢线周期"@)],
        }
    } else if i == 32 {
        OperatorInfo {
            operator_key: "regime_calendar_gate_v1"@,
            operator_type: "gate"@,
            execution_model: "columnar"@,
            aliases: seq!["regime_calendar_gate"@],
            dependencies: seq![],
            output_columns: seq!["regime_state"@],
            input_fields_zh: seq!["K线数据"@, "震荡区间日历参数"@],
            output_fields_zh: seq!["市场状态信号(1=趋势,0=震荡)"@],
            description_zh: "大盘状态日历门控：按先验固定的震荡区间日历（离线由指数日线规则预计算）逐bar输出 regime_state 列，1.0=趋势态、0.0=震荡态，供出场/仓位算子做分段参数切换"@,
            default_params_json: "{\"osc_date_ranges\": []}"@,
            param_descriptions_zh: seq![("osc_date_ranges"@, "震荡区间日历，[[起始日,结束日],...] 格式，YYYY-MM-DD"@)],
        }
    } else if i == 33 {
        OperatorInfo {
            operator_key: "regime_index_gate_v1"@,
            operator_type: "gate"@,
            execution_model: "columnar"@,
            aliases: seq!["regime_index_gate"@],
            dependencies: seq![],
            output_columns: seq!["regime_state"@, "regime_entry_allow"@],
            input_fields_zh: seq!["K线数据"@, "指数日线帧(IDX_前缀)"@],
            output_fields_zh: seq!["市场状态信号(1=趋势,0=震荡)"@, "入场缩仓系数(1=全仓买入,0=禁止,0~1=降仓)"@],
            description_zh: "大盘状态在线门控(三态)：从数据集内指数日线帧(IDX_前缀符号)在线计算 close>MA(N) 且 MA 上行(slope_lag日) + confirm_days 日迟滞 + D+1 生效，逐bar输出 regime_state 列(1.0=趋势/0.0=震荡)与 regime_entry_allow 列——趋势态与上行震荡态(大盘momentum_lag日动量≥0)全仓买入(1.0)；下跌震荡态(动量<0)输出 deny_scale(默认0=禁买，0.5=半仓)，仅当大盘前一交易日收盘跌破布林下轨(boll_len,boll_k)超卖溢出时全仓放行；数据集需含指数符号(使用 *_idx dataset)"@,
            default_params_json: "{\"index_symbol\": \"IDX_SH000001\", \"ma_len\": 20, \"slope_lag\": 5, \"confirm_days\": 3, \"boll_len\": 20, \"boll_k\": 2.0, \"momentum_lag\": 20, \"deny_scale\": 0.0}"@,
            param_descriptions_zh: seq![("index_symbol"@, "指数符号(IDX_前缀，需存在于数据集)"@), ("ma_len"@, "均线周期"@), ("slope_lag"@, "均线斜率回看交易日数"@), ("confirm_days"@, "状态翻转连续确认天数(迟滞)"@), ("boll_len"@, "大盘布林带周期(入场例外判定)"@), ("boll_k"@, "大盘布林带标准差倍数(入场例外判定)"@), ("momentum_lag"@, "大盘动量回看交易日数(区分上行/下跌震荡)"@), ("deny_scale"@, "下跌震荡态入场缩仓系数(0=禁买,0.5=半仓,1=不门控)"@)],
        }
    } else if i == 34 {
        OperatorInfo {
            operator_key: "cascade_gate_v1"@,
            operator_type: "gate"@,
            execution_model: "columnar"@,
            aliases: seq!["cascade_gate"@],
            dependencies: seq!["daily_trend_gate_v1"@],
            output_columns: seq![],
            input_fields_zh: seq!["15分钟K线"@, "日线趋势数据"@],
            output_fields_zh: seq!["级联过滤信号"@],
            description_zh: "级联过滤网关，基于日线趋势方向、成交量确认、入场信号检测和冷却机制生成交易信号"@,
            default_params_json: "{\"volume_trigger_ratio\": 2.0, \"volume_lookback_bars\": 20, \"cooldown_bars\": 20}"@,
            param_descriptions_zh: seq![("volume_trigger_ratio"@, "量能触发比率"@), ("volume_lookback_bars"@, "量能回看K线数"@), ("cooldown_bars"@, "冷却K线数"@)],
        }
    } else if i == 35 {
        OperatorInfo {
            operator_key: "ema_cluster_breakout_v1"@,
            operator_type: "strategy"@,
            execution_model: "bars"@,
            aliases: seq!["ema_cluster_breakout"@],
            dependencies: seq![],
            output_columns: seq!["ema_cluster_breakout_signal"@, "signals"@],
            input_fields_zh: seq!["价格"@, "成交量"@, "日K线"@],
            output_fields_zh: seq!["EMA突破信号"@, "策略信号"@],
            description_zh: "EMA均线簇突破买入，价格从下方上穿密集的EMA均线群(20/30/60/90/120日均线)且放量确认时触发买入，均线密集后发散是主升浪启动信号"@,
            default_params_json: "{\"ema_cluster_breakout_enabled\": true, \"ema_cluster_breakout_periods\": [20, 30, 60, 90, 120], \"ema_cluster_breakout_density_threshold\": 0.03, \"ema_cluster_breakout_min_cross_count\": 3, \"ema_cluster_breakout_volume_ratio\": 1.5, \"ema_cluster_breakout_boll_width_expand_ratio\": 1.05}"@,
            param_descriptions_zh: seq![("ema_cluster_breakout_enabled"@, "启用EMA簇突破"@), ("ema_cluster_breakout_periods"@, "EMA周期列表"@), ("ema_cluster_breakout_density_threshold"@, "均线密集度阈值"@), ("ema_cluster_breakout_min_cross_count"@, "最小穿越均线数"@), ("ema_cluster_breakout_volume_ratio"@, "放量确认比率"@), ("ema_cluster_breakout_boll_width_expand_ratio"@, "布林带宽扩张比率"@)],
        }
    } else if i == 36 {
        OperatorInfo {
            operator_key: "main_wave_continuation_v1"@,
            operator_type: "entry"@,
            execution_model: "bars"@,
            aliases: seq!["rust_builtin.main_wave_continuation_v1"@],
            dependencies: seq!["ema_cluster_breakout_v1"@],
            output_columns: seq!["main_wave_continuation_signal"@],
            input_fields_zh: seq!["K线数据"@, "日K线"@, "EMA突破信号"@],
            output_fields_zh: seq!["主升浪延续确认信号"@],
            description_zh: "主升浪延续买入信号，EMA均线突破后向前验证一定周期内的涨幅是否达标（可配置验证周期和最低涨幅），确认不是假突破后入场做多"@,
            default_params_json: "{\"main_wave_verify_forward_bars\": 80, \"main_wave_verify_min_forward_return\": 0.08, \"main_wave_verify_max_pullback_ratio\": 0.05}"@,
            param_descriptions_zh: seq![("main_wave_verify_forward_bars"@, "前向验证K线数"@), ("main_wave_verify_min_forward_return"@, "最小前向收益率"@), ("main_wave_verify_max_pullback_ratio"@, "最大回撤容忍比例"@)],
        }
    } else if i == 37 {
        OperatorInfo {
            operator_key: "main_wave_verifier_v1"@,
            operator_type: "indicator"@,
            execution_model: "bars"@,
            aliases: seq!["main_wave_verifier"@],
            dependencies: seq![],
            output_columns: seq!["main_wave_verification"@, "verification_details"@],
            input_fields_zh: seq!["日K线"@],
            output_fields_zh: seq!["主升浪验证结果"@, "验证详情"@],
            description_zh: "主升浪真假突破验证，EMA均线突破后验证后续走势：涨幅是否达标、回撤是否在容忍范围内、当前位置是否过高，用于过滤假突破"@,
            default_params_json: "{\"main_wave_verify_forward_bars\": 80, \"main_wave_verify_min_forward_return\": 0.08, \"main_wave_verify_max_pullback_ratio\": 0.05, \"main_wave_verify_require_shrink_retest\": true, \"main_wave_verify_position_gate_enabled\": true}"@,
            param_descriptions_zh: seq![("main_wave_verify_forward_bars"@, "前向验证K线数"@), ("main_wave_verify_min_forward_return"@, "最小前向收益率"@), ("main_wave_verify_max_pullback_ratio"@, "最大回撤容忍比例"@), ("main_wave_verify_require_shrink_retest"@, "要求缩量回踩确认"@), ("main_wave_verify_position_gate_enabled"@, "启用位置门控"@)],
        }
    } else if i == 38 {
        OperatorInfo {
            operator_key: "ma20_slope_bollinger_scale_v1"@,
            operator_type: "strategy"@,
            execution_model: "bars"@,
            aliases: seq!["ma20_slope_bollinger_scale"@],
            dependencies: seq![],
            output_columns: seq!["signals"@, "orders"@, "fills"@, "backtest_report"@, "strategy_audit"@, "position_summary"@],
            input_fields_zh: seq!["价格"@, "成交量"@, "时间"@],
            output_fields_zh: seq!["交易信号"@, "订单"@, "成交记录"@, "回测报告"@, "策略审计"@, "持仓摘要"@],
            description_zh: "MA20主升浪完整交易策略，价格沿MA20均线持续上涨时做多，含布林带波动率自适应仓位、止盈止损和主升浪持仓管理"@,
            default_params_json: "{\"target_position_per_trade\": 0.12, \"stop_loss_pct\": 0.08, \"profit_take_threshold\": 0.03, \"max_holding_trading_days\": 2, \"max_daily_buys\": 1, \"max_total_position_ratio\": 1.0, \"cooldown_bars\": 0, \"daily_ma120_ma200_buy_gate_enabled\": true, \"cascade_direction_enabled\": false, \"cascade_volume_enabled\": false}"@,
            param_descriptions_zh: seq![("target_position_per_trade"@, "单笔目标仓位比例"@), ("stop_loss_pct"@, "止损百分比"@), ("profit_take_threshold"@, "止盈阈值"@), ("max_holding_trading_days"@, "最大持仓交易日"@), ("max_daily_buys"@, "每日最大买入数"@), ("max_total_position_ratio"@, "最大总仓位比例"@), ("cooldown_bars"@, "冷却K线数"@), ("daily_ma120_ma200_buy_gate_enabled"@, "启用MA120/MA200买入门控"@), ("cascade_direction_enabled"@, "启用级联方向"@), ("cascade_volume_enabled"@, "启用级联量能"@)],
        }
    } else if i == 39 {
        OperatorInfo {
            operator_key: "tail_low_rebound_boll_shadow_v1"@,
            operator_type: "strategy"@,
            execution_model: "bars"@,
            aliases: seq!["tail_low_rebound_boll_shadow"@],
            dependencies: seq![],
            output_columns: seq!["entry_trigger"@, "exit_trigger"@, "position_pct"@],
            input_fields_zh: seq!["价格"@, "成交量"@, "时间"@, "日K线"@],
            output_fields_zh: seq!["入场信号"@, "出场信号"@, "持仓比例"@],
            description_zh: "尾盘低位反弹策略，尾盘窗口(14:30-15:00)检测价格接近日低且EMA上行放量时入场，布林上轨长上影或止损出场"@,
            default_params_json: "{\"tail_start_time\": \"14:30\", \"tail_end_time\": \"15:00\", \"stop_loss_pct\": 0.05, \"max_holding_trading_days\": 3, \"boll_period\": 20, \"boll_std_multiplier\": 2.0, \"quantity_ratio\": 0.12, \"max_daily_buys\": 1, \"max_total_position_ratio\": 1.0, \"cascade_direction_enabled\": true, \"cascade_volume_enabled\": true, \"cascade_volume_ratio\": 2.0, \"volume_lookback_bars\": 20, \"daily_ma120_ma200_buy_gate_enabled\": false}"@,
            param_descriptions_zh: seq![("tail_start_time"@, "尾盘开始时间"@), ("tail_end_time"@, "尾盘结束时间"@), ("stop_loss_pct"@, "止损百分比"@), ("max_holding_trading_days"@, "最大持仓交易日"@), ("boll_period"@, "布林带周期"@), ("boll_std_multiplier"@, "标准差倍数"@), ("quantity_ratio"@, "单笔仓位比例"@), ("max_daily_buys"@, "每日最大买入数"@), ("max_total_position_ratio"@, "最大总仓位比例"@), ("cascade_direction_enabled"@, "启用级联方向门控"@), ("cascade_volume_enabled"@, "启用级联量能门控"@), ("cascade_volume_ratio"@, "级联量能比率"@), ("volume_lookback_bars"@, "量能回看K线数"@), ("daily_ma120_ma200_buy_gate_enabled"@, "启用MA120/MA200买入门控"@)],
        }
    } else {
        operator_info_default()
    }
}

/// The metadata beyond the registry's end: all empty.
pub open spec fn operator_info_default() -> OperatorInfo {
    OperatorInfo {
        operator_key: Seq::empty(),
        operator_type: Seq::empty(),
        execution_model: Seq::empty(),
        aliases: Seq::empty(),
        dependencies: Seq::empty(),
        output_columns: Seq::empty(),
        input_fields_zh: Seq::empty(),
        output_fields_zh: Seq::empty(),
        description_zh: Seq::empty(),
        default_params_json: Seq::empty(),
        param_descriptions_zh: Seq::empty(),
    }
}

/// The full registry, entry by entry, in registry order.
pub open spec fn operator_table() -> Seq<OperatorInfo> {
    Seq::new(OPERATOR_COUNT as nat, |i: int| operator_info(i))
}

/// The keys and aliases of the registry, in registry order.
pub open spec fn operator_names() -> Seq<(Seq<char>, Seq<Seq<char>>)> {
    Seq::new(OPERATOR_COUNT as nat, |i: int| (operator_info(i).operator_key, operator_info(i).aliases))
}

/// The registry's `i`-th operator.
fn operator_entry(i: usize) -> (e: OperatorEntry)
    requires
        i < OPERATOR_COUNT,
    ensures
        entry_info(e) == operator_info(i as int),
        entry_names(e) == operator_names()[i as int],
{
    let e = match i {
        0 => OperatorEntry {
            operator_key: "atr_breakout_v1",
            operator_type: "indicator",
            execution_model: "columnar",
            aliases: &["atr_breakout_v1"],
            dependencies: &[],
            output_columns: &["atr_value", "atr_upper", "atr_lower", "breakout_signal"],
            input_fields_zh: &["价格", "成交量"],
            output_fields_zh: &["ATR值", "ATR上轨", "ATR下轨", "突破信号"],
            description_zh: "ATR真实波幅突破指标，价格波动率放大、突破ATR上下轨时产生交易信号",
            default_params_json: "{\"fast_window_days\": 14, \"slow_window_days\": 20}",
            param_descriptions_zh: &[("fast_window_days", "快窗口周期（日）"), ("slow_window_days", "慢窗口周期（日）")],
        },
        1 => OperatorEntry {
            operator_key: "bollinger_bands_v1",
            operator_type: "indicator",
            execution_model: "columnar",
            aliases: &["bollinger_bands"],
            dependencies: &[],
            output_columns: &["boll_mid", "boll_upper", "boll_lower", "boll_width", "boll_phase"],
            input_fields_zh: &["价格"],
            output_fields_zh: &["布林中轨", "布林上轨", "布林下轨", "布林带宽", "布林阶段"],
            description_zh: "布林带通道指标，价格围绕MA20中轨波动，上轨=中轨+2倍标准差（压力位），下轨=中轨-2倍标准差（支撑位），带宽扩张=趋势启动，收缩=变盘前兆",
            default_params_json: "{\"boll_period\": 20, \"boll_std_multiplier\": 2.0}",
            param_descriptions_zh: &[("boll_period", "布林带周期"), ("boll_std_multiplier", "标准差倍数")],
        },
        2 => OperatorEntry {
            operator_key: "boll_upper_top_v1",
            operator_type: "exit",
            execution_model: "columnar",
            aliases: &["rust_builtin.boll_upper_top_v1"],
            dependencies: &["bollinger_bands_v1"],
            output_columns: &["boll_upper_top_signal"],
            input_fields_zh: &["K线数据", "布林带"],
            output_fields_zh: &["布林上轨出场信号"],
            description_zh: "布林带上轨见顶出场，价格冲高到布林上轨后回落跌破中轨时触发卖出",
            default_params_json: "{\"boll_period\": 20, \"boll_std_multiplier\": 2.0, \"require_bearish_candle\": true}",
            param_descriptions_zh: &[("boll_period", "布林带周期"), ("boll_std_multiplier", "标准差倍数"), ("require_bearish_candle", "要求阴线确认")],
        },
        3 => OperatorEntry {
            operator_key: "daily_score_weighted_sizing_v1",
            operator_type: "portfolio",
            execution_model: "columnar",
            aliases: &["rust_builtin.daily_score_weighted_sizing_v1"],
            dependencies: &[],
            output_columns: &["position_allocation"],
            input_fields_zh: &["入场信号", "组合参数"],
            output_fields_zh: &["仓位分配"],
            description_zh: "仓位分配器，按信号强度排序分配每日买入额度，强度越高仓位越大",
            default_params_json: "{\"max_daily_buys\": 5, \"daily_buy_budget_ratio\": 0.9, \"target_position_per_trade\": 0.12, \"max_total_position_ratio\": 1.0}",
            param_descriptions_zh: &[("max_daily_buys", "每日最大买入数"), ("daily_buy_budget_ratio", "每日买入预算比例"), ("target_position_per_trade", "单笔目标仓位比例"), ("max_total_position_ratio", "最大总仓位比例")],
        },
        4 => OperatorEntry {
            operator_key: "ema5_ema10_adhesion_signal",
            operator_type: "indicator",
            execution_model: "columnar",
            aliases: &["ema5_ema10_adhesion_signal"],
            dependencies: &[],
            output_columns: &["adhesion_signal", "adhesion_strength", "ema5_value", "ema10_value", "gap_ratio"],
            input_fields_zh: &["价格", "成交量"],
            output_fields_zh: &["黏合信号", "黏合强度", "EMA5值", "EMA10值", "间隙比率"],
            description_zh: "EMA均线黏合检测，快慢EMA接近缠绕时发出黏合信号，预示均线即将发散",
            default_params_json: "{\"fast_window_days\": 5, \"slow_window_days\": 10}",
            param_descriptions_zh: &[("fast_window_days", "快窗口周期（日）"), ("slow_window_days", "慢窗口周期（日）")],
        },
        5 => OperatorEntry {
            operator_key: "ema_slope_v1",
            operator_type: "indicator",
            execution_model: "columnar",
            aliases: &["ema_slope"],
            dependencies: &[],
            output_columns: &["ema5", "ema10", "ema20", "sma20", "ma20_slope", "ma20_slope_ratio", "ema5_ema20_diff"],
            input_fields_zh: &["价格"],
            output_fields_zh: &["EMA5", "EMA10", "EMA20", "SMA20", "MA20斜率", "MA20斜率比", "EMA5-EMA20差值"],
            description_zh: "EMA均线组指标，计算EMA5/10/20、SMA20、MA20斜率，判断均线排列方向和趋势强弱",
            default_params_json: "{\"ma20_slope_lookback\": 5}",
            param_descriptions_zh: &[("ma20_slope_lookback", "MA20斜率回看周期")],
        },
        6 => OperatorEntry {
            operator_key: "end_of_backtest_liquidation_v1",
            operator_type: "exit",
            execution_model: "columnar",
            aliases: &["rust_builtin.end_of_backtest_liquidation_v1"],
            dependencies: &[],
            output_columns: &["liquidation_signal"],
            input_fields_zh: &["K线数据"],
            output_fields_zh: &["回测结束清仓信号"],
            description_zh: "回测结束清仓，在每只标的最后一根K线处发出清仓卖出信号，用于回测强制平仓",
            default_params_json: "{}",
            param_descriptions_zh: &[],
        },
        7 => OperatorEntry {
            operator_key: "history_signal_volume_entry_v1",
            operator_type: "entry",
            execution_model: "columnar",
            aliases: &["rust_builtin.history_signal_volume_entry_v1"],
            dependencies: &[],
            output_columns: &["volume_entry_signal"],
            input_fields_zh: &["K线数据"],
            output_fields_zh: &["历史量能入场信号"],
            description_zh: "复合条件放量入场信号，需要均线上涨趋势+成交量放大+阳线三个条件同时满足才触发买入，不是单纯的放量突破检测（纯放量突破请用volume_trigger）",
            default_params_json: "{\"ma20_slope_min_ratio\": 0.02, \"vol_ratio_min\": 1.2, \"require_bullish_candle\": true, \"require_above_ema20\": true}",
            param_descriptions_zh: &[("ma20_slope_min_ratio", "MA20斜率最小比例"), ("vol_ratio_min", "量比最小阈值"), ("require_bullish_candle", "要求阳线"), ("require_above_ema20", "要求站上EMA20")],
        },
        8 => OperatorEntry {
            operator_key: "history_signal_volume_gate_v1",
            operator_type: "signal",
            execution_model: "columnar",
            aliases: &["rust_builtin.history_signal_volume_gate_v1"],
            dependencies: &[],
            output_columns: &["volume_gate"],
            input_fields_zh: &["K线数据", "历史信号"],
            output_fields_zh: &["历史量能门控信号"],
            description_zh: "成交量阈值过滤器，当前成交量超过均量N倍时允许通过（可配置倍数和均量窗口），防止缩量行情中入场",
            default_params_json: "{\"volume_gate_ratio\": 1.5, \"volume_gate_lookback\": 20}",
            param_descriptions_zh: &[("volume_gate_ratio", "量能门控比率"), ("volume_gate_lookback", "量能门控回看周期")],
        },
        9 => OperatorEntry {
            operator_key: "kline_dataset_v1",
            operator_type: "input",
            execution_model: "columnar",
            aliases: &["rust_builtin.kline_dataset_v1"],
            dependencies: &[],
            output_columns: &["ts_utc", "open", "high", "low", "close", "volume"],
            input_fields_zh: &[],
            output_fields_zh: &["K线数据帧"],
            description_zh: "K线数据输入算子，直接透传K线数据集并统计总品种数和总K线条数",
            default_params_json: "{}",
            param_descriptions_zh: &[],
        },
        10 => OperatorEntry {
            operator_key: "low_buy_recovery_v1",
            operator_type: "entry",
            execution_model: "columnar",
            aliases: &["rust_builtin.low_buy_recovery_v1"],
            dependencies: &["bollinger_bands_v1", "ema_slope_v1"],
            output_columns: &["low_buy_recovery_signal"],
            input_fields_zh: &["K线数据", "布林带", "EMA斜率"],
            output_fields_zh: &["低位回补入场信号"],
            description_zh: "低位反弹抄底入场，价格跌到布林下轨附近出现长下影线反弹K线时买入",
            default_params_json: "{\"boll_period\": 20, \"boll_std_multiplier\": 2.0, \"near_boll_lower_threshold\": 1.03, \"lower_shadow_ratio_min\": 0.3, \"require_bullish_candle\": true}",
            param_descriptions_zh: &[("boll_period", "布林带周期"), ("boll_std_multiplier", "标准差倍数"), ("near_boll_lower_threshold", "接近下轨阈值"), ("lower_shadow_ratio_min", "下影线最小比例"), ("require_bullish_candle", "要求阳线")],
        },
        11 => OperatorEntry {
            operator_key: "ma20_entry_signal_v1",
            operator_type: "signal",
            execution_model: "columnar",
            aliases: &["ma20_entry_signal"],
            dependencies: &["bollinger_bands_v1", "ema_slope_v1", "volume_profile_v1", "volume_trigger_v1"],
            output_columns: &["entry_signal", "entry_strength", "entry_price"],
            input_fields_zh: &["价格", "成交量", "布林带", "EMA斜率", "成交量概况"],
            output_fields_zh: &["入场信号", "入场强度", "入场价格"],
            description_zh: "MA20入场信号检测器，识别三种买入形态：布林下轨反弹、EMA回踩反弹、强吸筹放量上涨",
            default_params_json: "{\"boll_lower_rebound_enabled\": true, \"ema_pullback_enabled\": true, \"strong_accumulation_enabled\": true, \"boll_lower_near_ratio\": 1.02, \"ema_pullback_premium_ratio\": 1.03, \"strong_acc_ma20_slope_min\": 0.05, \"ma_slope_min_ratio\": 0.05, \"strong_acc_vol_ratio_min\": 1.5, \"ema_pullback_vol_ratio_min\": 0.8, \"cooldown_bars\": 20, \"stock_volume_gate_enabled\": false, \"volume_trigger_ratio\": 2.0, \"volume_lookback_bars\": 20, \"boll_period\": 20, \"boll_std_multiplier\": 2.0}",
            param_descriptions_zh: &[("boll_lower_rebound_enabled", "启用布林下轨反弹"), ("ema_pullback_enabled", "启用EMA回踩"), ("strong_accumulation_enabled", "启用强吸筹"), ("boll_lower_near_ratio", "布林下轨接近比例"), ("ema_pullback_premium_ratio", "EMA回踩溢价比例"), ("strong_acc_ma20_slope_min", "强吸筹MA20斜率最小值"), ("ma_slope_min_ratio", "MA斜率最小比例"), ("strong_acc_vol_ratio_min", "强吸筹量比最小值"), ("ema_pullback_vol_ratio_min", "EMA回踩量比最小值"), ("cooldown_bars", "冷却K线数"), ("stock_volume_gate_enabled", "启用个股量能门控"), ("volume_trigger_ratio", "量能触发比率"), ("volume_lookback_bars", "量能回看K线数"), ("boll_period", "布林带周期"), ("boll_std_multiplier", "标准差倍数")],
        },
        12 => OperatorEntry {
            operator_key: "ma20_exit_signal_v1",
            operator_type: "signal",
            execution_model: "columnar",
            aliases: &["ma20_exit_signal"],
            dependencies: &["bollinger_bands_v1", "ema_slope_v1"],
            output_columns: &["exit_signal", "exit_reason"],
            input_fields_zh: &["价格", "布林带", "EMA斜率"],
            output_fields_zh: &["出场信号", "出场原因"],
            description_zh: "MA20出场信号检测器，识别两种卖出形态：趋势破坏（跌破EMA20+斜率转负）和布林上轨假突破",
            default_params_json: "{\"profit_take_threshold\": 0.03, \"max_holding_trading_days\": 5}",
            param_descriptions_zh: &[("profit_take_threshold", "止盈阈值"), ("max_holding_trading_days", "最大持仓交易日")],
        },
        13 => OperatorEntry {
            operator_key: "ma20_trend_break_v1",
            operator_type: "exit",
            execution_model: "columnar",
            aliases: &["rust_builtin.ma20_trend_break_v1"],
            dependencies: &["ema_slope_v1"],
            output_columns: &["trend_break_signal"],
            input_fields_zh: &["K线数据", "EMA斜率"],
            output_fields_zh: &["趋势破坏出场信号"],
            description_zh: "趋势破坏出场，收盘价跌破EMA20+EMA20斜率转负+K线收阴，三条件同时满足时卖出",
            default_params_json: "{\"ma20_slope_max_ratio\": -0.02, \"require_bearish_candle\": true, \"require_below_ema20\": true}",
            param_descriptions_zh: &[("ma20_slope_max_ratio", "MA20斜率最大比例"), ("require_bearish_candle", "要求阴线"), ("require_below_ema20", "要求跌破EMA20")],
        },
        14 => OperatorEntry {
            operator_key: "ma_cross_v1",
            operator_type: "signal",
            execution_model: "columnar",
            aliases: &["ma_cross"],
            dependencies: &[],
            output_columns: &["cross_signal", "cross_strength", "fast_ma", "slow_ma"],
            input_fields_zh: &["价格"],
            output_fields_zh: &["交叉信号", "交叉强度", "快线MA", "慢线MA"],
            description_zh: "均线金叉死叉交易信号，快线(EMA5)上穿慢线(EMA20)=金叉买入，下穿=死叉卖出，经典双均线趋势跟踪策略",
            default_params_json: "{\"fast_window_days\": 5, \"slow_window_days\": 20, \"threshold\": 0.01}",
            param_descriptions_zh: &[("fast_window_days", "快窗口周期（日）"), ("slow_window_days", "慢窗口周期（日）"), ("threshold", "交叉阈值")],
        },
        15 => OperatorEntry {
            operator_key: "main_wave_exit_v1",
            operator_type: "exit",
            execution_model: "columnar",
            aliases: &["main_wave_exit"],
            dependencies: &[],
            output_columns: &["exit_signal", "signals"],
            input_fields_zh: &["K线数据"],
            output_fields_zh: &["主升浪见顶退出信号"],
            description_zh: "主升浪顶部卖出，长上影线+放量+阴线组合判断主力出货，顶部衰竭时离场",
            default_params_json: "{\"mw_exit_upper_shadow_ratio\": 0.6, \"mw_exit_volume_spike_ratio\": 2.0, \"mw_exit_require_bearish\": true, \"mw_exit_cooldown_bars\": 20}",
            param_descriptions_zh: &[("mw_exit_upper_shadow_ratio", "上影线比例"), ("mw_exit_volume_spike_ratio", "放量倍数"), ("mw_exit_require_bearish", "要求阴线"), ("mw_exit_cooldown_bars", "冷却K线数")],
        },
        16 => OperatorEntry {
            operator_key: "max_holding_v1",
            operator_type: "exit",
            execution_model: "columnar",
            aliases: &["rust_builtin.max_holding_v1"],
            dependencies: &[],
            output_columns: &["max_holding_signal"],
            input_fields_zh: &["K线数据"],
            output_fields_zh: &["最大持仓天数信号"],
            description_zh: "最大持仓天数到期出场，每根K线携带可配置的最大持仓天数，超时强制平仓",
            default_params_json: "{\"max_holding_trading_days\": 5}",
            param_descriptions_zh: &[("max_holding_trading_days", "最大持仓交易日")],
        },
        17 => OperatorEntry {
            operator_key: "stop_loss_exit_v1",
            operator_type: "exit",
            execution_model: "columnar",
            aliases: &["rust_builtin.stop_loss_exit_v1"],
            dependencies: &[],
            output_columns: &["stop_loss_signal"],
            input_fields_zh: &["K线数据", "上游入场信号"],
            output_fields_zh: &["止损出场信号"],
            description_zh: "止损出场，接收上游入场信号，扫描入场后的K线找到第一根 low <= entry_price*(1-stop_loss_pct) 的bar发出场信号",
            default_params_json: "{\"stop_loss_pct\": 0.08}",
            param_descriptions_zh: &[("stop_loss_pct", "止损百分比")],
        },
        18 => OperatorEntry {
            operator_key: "trailing_stop_v1",
            operator_type: "exit",
            execution_model: "columnar",
            aliases: &["rust_builtin.trailing_stop_v1"],
            dependencies: &[],
            output_columns: &["trailing_stop_signal"],
            input_fields_zh: &["K线数据", "上游入场信号"],
            output_fields_zh: &["移动止盈出场信号"],
            description_zh: "移动止盈出场，接收上游入场信号，入场后跟踪最高价，从高点回落 trailing_stop_pct 时触发出场，动态锁定利润",
            default_params_json: "{\"trailing_stop_pct\": 0.05}",
            param_descriptions_zh: &[("trailing_stop_pct", "回撤止盈百分比（从最高点回落幅度）")],
        },
        19 => OperatorEntry {
            operator_key: "tail_low_rebound_entry_v1",
            operator_type: "entry",
            execution_model: "columnar",
            aliases: &["rust_builtin.tail_low_rebound_entry_v1"],
            dependencies: &[],
            output_columns: &["tail_low_rebound_entry_signal"],
            input_fields_zh: &["K线数据", "日线趋势门控结果", "级联方向门控结果"],
            output_fields_zh: &["尾盘低位反弹入场信号"],
            description_zh: "尾盘低位反弹入场检测，尾盘窗口(14:30-15:00)检测价格接近日低且EMA上行放量时发出入场信号",
            default_params_json: "{\"tail_start_time\": \"14:30\", \"tail_end_time\": \"15:00\", \"ma_slope_min_ratio\": 0.001, \"near_low_max_price_pct\": 0.01, \"near_low_max_day_range_ratio\": 0.2, \"volume_trigger_ratio\": 2.0, \"volume_lookback_bars\": 20, \"boll_period\": 20, \"boll_std_multiplier\": 2.0, \"cascade_direction_enabled\": true, \"cascade_volume_enabled\": true, \"daily_ma120_ma200_buy_gate_enabled\": false}",
            param_descriptions_zh: &[("tail_start_time", "尾盘开始时间"), ("tail_end_time", "尾盘结束时间"), ("ma_slope_min_ratio", "MA斜率最小比例"), ("near_low_max_price_pct", "接近日低最大价格百分比"), ("near_low_max_day_range_ratio", "接近日低最大日振幅比例"), ("volume_trigger_ratio", "量能触发比率"), ("volume_lookback_bars", "量能回看K线数"), ("boll_period", "布林带周期"), ("boll_std_multiplier", "标准差倍数"), ("cascade_direction_enabled", "启用级联方向门控"), ("cascade_volume_enabled", "启用级联量能门控"), ("daily_ma120_ma200_buy_gate_enabled", "启用MA120/MA200买入门控")],
        },
        20 => OperatorEntry {
            operator_key: "position_manager_v1",
            operator_type: "execution",
            execution_model: "columnar",
            aliases: &["position_manager"],
            dependencies: &["ma20_entry_signal_v1", "ma20_exit_signal_v1"],
            output_columns: &["orders", "fills", "backtest_report", "position_summary", "market_risk_state"],
            input_fields_zh: &["交易信号列表"],
            output_fields_zh: &["订单", "成交", "回测报告", "持仓摘要", "市场风险状态"],
            description_zh: "多信号汇聚与组合仓位管理，合并上游信号、执行下单成交撮合、持仓管理并生成回测报告",
            default_params_json: "{\"target_position_per_trade\": 0.12, \"max_daily_filled_symbols\": 1}",
            param_descriptions_zh: &[("target_position_per_trade", "单笔目标仓位比例"), ("max_daily_filled_symbols", "每日最大成交标的数")],
        },
        21 => OperatorEntry {
            operator_key: "profit_take_v1",
            operator_type: "exit",
            execution_model: "columnar",
            aliases: &["rust_builtin.profit_take_v1"],
            dependencies: &[],
            output_columns: &["take_profit_signal"],
            input_fields_zh: &["K线数据"],
            output_fields_zh: &["止盈信号"],
            description_zh: "止盈出场信号，每根K线携带可配置的止盈百分比阈值，供下游触发止盈判断",
            default_params_json: "{\"profit_take_threshold\": 0.03}",
            param_descriptions_zh: &[("profit_take_threshold", "止盈阈值")],
        },
        22 => OperatorEntry {
            operator_key: "red_green_ratio_16_v1",
            operator_type: "indicator",
            execution_model: "columnar",
            aliases: &["red_green_ratio_16"],
            dependencies: &[],
            output_columns: &["red_ratio_16", "green_ratio_16"],
            input_fields_zh: &["K线数据"],
            output_fields_zh: &["16周期绿盘占比", "16周期红盘占比"],
            description_zh: "K线红绿柱统计，计算N周期内阳线和阴线的数量和占比，判断多空力量对比",
            default_params_json: "{\"red_green_ratio_lookback\": 16}",
            param_descriptions_zh: &[("red_green_ratio_lookback", "红绿比率回看周期")],
        },
        23 => OperatorEntry {
            operator_key: "red_green_ratio_signal_v1",
            operator_type: "signal",
            execution_model: "columnar",
            aliases: &["red_green_ratio_signal"],
            dependencies: &["red_green_ratio_16_v1"],
            output_columns: &["bull_signal", "bear_signal"],
            input_fields_zh: &["K线数据", "红绿比率"],
            output_fields_zh: &["多头信号", "空头信号"],
            description_zh: "红绿柱多空信号，阳线占比超过阈值=做多信号，阴线占比超过阈值=做空信号",
            default_params_json: "{\"red_green_ratio_lookback\": 16, \"green_ratio_threshold\": 0.6, \"red_ratio_threshold\": 0.6}",
            param_descriptions_zh: &[("red_green_ratio_lookback", "红绿比率回看周期"), ("green_ratio_threshold", "阳线占比阈值"), ("red_ratio_threshold", "阴线占比阈值")],
        },
        24 => OperatorEntry {
            operator_key: "rsi_reversal_v1",
            operator_type: "signal",
            execution_model: "columnar",
            aliases: &["rsi_14"],
            dependencies: &[],
            output_columns: &["rsi_signal", "rsi_value"],
            input_fields_zh: &["价格"],
            output_fields_zh: &["RSI反转信号", "RSI值"],
            description_zh: "RSI超买超卖反转交易，RSI高于70=超买做空，低于30=超卖做多",
            default_params_json: "{\"fast_window_days\": 3, \"slow_window_days\": 15, \"threshold\": 30.0}",
            param_descriptions_zh: &[("fast_window_days", "快窗口周期（日）"), ("slow_window_days", "慢窗口周期（日）"), ("threshold", "RSI阈值")],
        },
        25 => OperatorEntry {
            operator_key: "strong_accumulation_context_v1",
            operator_type: "entry",
            execution_model: "columnar",
            aliases: &["rust_builtin.strong_accumulation_context_v1"],
            dependencies: &["bollinger_bands_v1", "ema_slope_v1"],
            output_columns: &["accumulation_signal"],
            input_fields_zh: &["K线数据", "布林带", "EMA斜率"],
            output_fields_zh: &["强吸筹入场信号"],
            description_zh: "强吸筹买入信号，EMA20向上+成交量放大1.5倍以上+价格在布林中上轨之间，主力吸筹形态",
            default_params_json: "{\"ma20_slope_min_ratio\": 0.05, \"vol_ratio_min\": 1.5, \"require_between_boll_mid_upper\": true}",
            param_descriptions_zh: &[("ma20_slope_min_ratio", "MA20斜率最小比例"), ("vol_ratio_min", "量比最小阈值"), ("require_between_boll_mid_upper", "要求在布林中上轨间")],
        },
        26 => OperatorEntry {
            operator_key: "volume_profile_v1",
            operator_type: "indicator",
            execution_model: "columnar",
            aliases: &["volume_profile"],
            dependencies: &[],
            output_columns: &["avg_volume_20", "volume_ratio_20"],
            input_fields_zh: &["成交量"],
            output_fields_zh: &["20周期均量", "20周期量比"],
            description_zh: "成交量和量比计算器，输出N周期均量和当前量比（当前量/均量），用于判断放量还是缩量，常被其他策略作为成交量数据源引用",
            default_params_json: "{\"volume_profile_lookback\": 20}",
            param_descriptions_zh: &[("volume_profile_lookback", "量能概况回看周期")],
        },
        27 => OperatorEntry {
            operator_key: "volume_trigger_v1",
            operator_type: "indicator",
            execution_model: "columnar",
            aliases: &["volume_trigger"],
            dependencies: &[],
            output_columns: &["volume_ratio", "volume_trigger", "trigger_fast_ratio", "trigger_slow_ratio", "volume_trigger_long", "volume_trigger_short"],
            input_fields_zh: &["成交量"],
            output_fields_zh: &["量比", "量触发信号", "快窗量比", "慢窗量比", "量能多头", "量能空头"],
            description_zh: "放量突破检测器，专门检测成交量突然放大突破的形态。当前成交量超过历史均量N倍时判定为放量突破（典型的放量突破场景：成交量放大超过20日均量2倍），生成放量买入/卖出信号",
            default_params_json: "{\"fast_threshold\": 0.5, \"slow_threshold\": 2.0, \"fast_window_days\": 3, \"slow_window_days\": 15, \"direction_lookback_bars\": 6, \"daily_ma120_ma200_gate_enabled\": true, \"cascade_direction_enabled\": false, \"cascade_direction_fast_window\": 5, \"cascade_direction_slow_window\": 20, \"bars_per_day\": 16, \"t_plus_one\": true}",
            param_descriptions_zh: &[("fast_threshold", "快窗量比阈值"), ("slow_threshold", "慢窗量比阈值"), ("fast_window_days", "快窗口周期（日）"), ("slow_window_days", "慢窗口周期（日）"), ("direction_lookback_bars", "方向回看K线数"), ("daily_ma120_ma200_gate_enabled", "启用日线MA120/MA200门控"), ("cascade_direction_enabled", "启用级联方向"), ("cascade_direction_fast_window", "级联方向快窗"), ("cascade_direction_slow_window", "级联方向慢窗"), ("bars_per_day", "每日K线数"), ("t_plus_one", "T+1交易制度")],
        },
        28 => OperatorEntry {
            operator_key: "window_kline_updown_stats_v1",
            operator_type: "indicator",
            execution_model: "columnar",
            aliases: &["window_kline_updown_stats"],
            dependencies: &[],
            output_columns: &["up_count", "down_count", "first_close", "last_close"],
            input_fields_zh: &["K线数据"],
            output_fields_zh: &["快窗口上涨根数", "慢窗口下跌根数", "快窗口首根收盘价", "快窗口末根收盘价"],
            description_zh: "窗口K线涨跌统计，统计短期和长期两个窗口内阳线/阴线根数及首末收盘价，用于判断短期动能方向和长期趋势的背离",
            default_params_json: "{\"fast_window_days\": 3, \"slow_window_days\": 15}",
            param_descriptions_zh: &[("fast_window_days", "快窗口周期（日）"), ("slow_window_days", "慢窗口周期（日）")],
        },
        29 => OperatorEntry {
            operator_key: "window_up_buy_signal_v1",
            operator_type: "signal",
            execution_model: "columnar",
            aliases: &["window_up_buy_signal"],
            dependencies: &["window_kline_updown_stats_v1"],
            output_columns: &["buy_signal", "up_down_ratio", "price_change_pct"],
            input_fields_zh: &["K线数据", "窗口涨跌统计"],
            output_fields_zh: &["买入信号", "涨跌比", "窗口涨幅"],
            description_zh: "窗口动能买入信号，短期上涨力度超过长期下跌力度且窗口涨幅达标时触发买入，经典的短多压过长空的动量交易信号",
            default_params_json: "{\"fast_window_days\": 3, \"slow_window_days\": 15, \"threshold\": 0.01}",
            param_descriptions_zh: &[("fast_window_days", "快窗口周期（日）"), ("slow_window_days", "慢窗口周期（日）"), ("threshold", "信号阈值")],
        },
        30 => OperatorEntry {
            operator_key: "ma20_composite_v1",
            operator_type: "strategy",
            execution_model: "columnar",
            aliases: &["ma20_composite"],
            dependencies: &["ma20_entry_signal_v1", "ma20_exit_signal_v1", "position_manager_v1"],
            output_columns: &["signals", "orders", "fills", "backtest_report"],
            input_fields_zh: &["价格", "成交量"],
            output_fields_zh: &["交易信号", "订单", "成交", "回测报告"],
            description_zh: "MA20均线组合交易策略，基于MA20均线的完整买卖体系：MA20附近入场（下轨反弹/回踩/放量上涨）→MA20趋势破坏或止盈出场→自动仓位管理，适合趋势跟踪交易",
            default_params_json: "{\"target_position_per_trade\": 0.12, \"max_daily_buys\": 1, \"profit_take_threshold\": 0.03}",
            param_descriptions_zh: &[("target_position_per_trade", "单笔目标仓位比例"), ("max_daily_buys", "每日最大买入数"), ("profit_take_threshold", "止盈阈值")],
        },
        31 => OperatorEntry {
            operator_key: "daily_trend_gate_v1",
            operator_type: "gate",
            execution_model: "columnar",
            aliases: &["daily_trend_gate"],
            dependencies: &[],
            output_columns: &[],
            input_fields_zh: &["日线K线"],
            output_fields_zh: &["日线趋势信号", "日线方向信号"],
            description_zh: "日线趋势门控，计算EMA快慢线趋势方向（MA120/MA200）和EMA快慢线方向（日线级联方向），输出按日期×标的的趋势映射",
            default_params_json: "{\"trend_fast\": 120, \"trend_slow\": 200, \"direction_fast\": 3, \"direction_slow\": 15}",
            param_descriptions_zh: &[("trend_fast", "趋势快线周期"), ("trend_slow", "趋势慢线周期"), ("direction_fast", "方向快线周期"), ("direction_slow", "方向慢线周期")],
        },
        32 => OperatorEntry {
            operator_key: "regime_calendar_gate_v1",
            operator_type: "gate",
            execution_model: "columnar",
            aliases: &["regime_calendar_gate"],
            dependencies: &[],
            output_columns: &["regime_state"],
            input_fields_zh: &["K线数据", "震荡区间日历参数"],
            output_fields_zh: &["市场状态信号(1=趋势,0=震荡)"],
            description_zh: "大盘状态日历门控：按先验固定的震荡区间日历（离线由指数日线规则预计算）逐bar输出 regime_state 列，1.0=趋势态、0.0=震荡态，供出场/仓位算子做分段参数切换",
            default_params_json: "{\"osc_date_ranges\": []}",
            param_descriptions_zh: &[("osc_date_ranges", "震荡区间日历，[[起始日,结束日],...] 格式，YYYY-MM-DD")],
        },
        33 => OperatorEntry {
            operator_key: "regime_index_gate_v1",
            operator_type: "gate",
            execution_model: "columnar",
            aliases: &["regime_index_gate"],
            dependencies: &[],
            output_columns: &["regime_state", "regime_entry_allow"],
            input_fields_zh: &["K线数据", "指数日线帧(IDX_前缀)"],
            output_fields_zh: &["市场状态信号(1=趋势,0=震荡)", "入场缩仓系数(1=全仓买入,0=禁止,0~1=降仓)"],
            description_zh: "大盘状态在线门控(三态)：从数据集内指数日线帧(IDX_前缀符号)在线计算 close>MA(N) 且 MA 上行(slope_lag日) + confirm_days 日迟滞 + D+1 生效，逐bar输出 regime_state 列(1.0=趋势/0.0=震荡)与 regime_entry_allow 列——趋势态与上行震荡态(大盘momentum_lag日动量≥0)全仓买入(1.0)；下跌震荡态(动量<0)输出 deny_scale(默认0=禁买，0.5=半仓)，仅当大盘前一交易日收盘跌破布林下轨(boll_len,boll_k)超卖溢出时全仓放行；数据集需含指数符号(使用 *_idx dataset)",
            default_params_json: "{\"index_symbol\": \"IDX_SH000001\", \"ma_len\": 20, \"slope_lag\": 5, \"confirm_days\": 3, \"boll_len\": 20, \"boll_k\": 2.0, \"momentum_lag\": 20, \"deny_scale\": 0.0}",
            param_descriptions_zh: &[("index_symbol", "指数符号(IDX_前缀，需存在于数据集)"), ("ma_len", "均线周期"), ("slope_lag", "均线斜率回看交易日数"), ("confirm_days", "状态翻转连续确认天数(迟滞)"), ("boll_len", "大盘布林带周期(入场例外判定)"), ("boll_k", "大盘布林带标准差倍数(入场例外判定)"), ("momentum_lag", "大盘动量回看交易日数(区分上行/下跌震荡)"), ("deny_scale", "下跌震荡态入场缩仓系数(0=禁买,0.5=半仓,1=不门控)")],
        },
        34 => OperatorEntry {
            operator_key: "cascade_gate_v1",
            operator_type: "gate",
            execution_model: "columnar",
            aliases: &["cascade_gate"],
            dependencies: &["daily_trend_gate_v1"],
            output_columns: &[],
            input_fields_zh: &["15分钟K线", "日线趋势数据"],
            output_fields_zh: &["级联过滤信号"],
            description_zh: "级联过滤网关，基于日线趋势方向、成交量确认、入场信号检测和冷却机制生成交易信号",
            default_params_json: "{\"volume_trigger_ratio\": 2.0, \"volume_lookback_bars\": 20, \"cooldown_bars\": 20}",
            param_descriptions_zh: &[("volume_trigger_ratio", "量能触发比率"), ("volume_lookback_bars", "量能回看K线数"), ("cooldown_bars", "冷却K线数")],
        },
        35 => OperatorEntry {
            operator_key: "ema_cluster_breakout_v1",
            operator_type: "strategy",
            execution_model: "bars",
            aliases: &["ema_cluster_breakout"],
            dependencies: &[],
            output_columns: &["ema_cluster_breakout_signal", "signals"],
            input_fields_zh: &["价格", "成交量", "日K线"],
            output_fields_zh: &["EMA突破信号", "策略信号"],
            description_zh: "EMA均线簇突破买入，价格从下方上穿密集的EMA均线群(20/30/60/90/120日均线)且放量确认时触发买入，均线密集后发散是主升浪启动信号",
            default_params_json: "{\"ema_cluster_breakout_enabled\": true, \"ema_cluster_breakout_periods\": [20, 30, 60, 90, 120], \"ema_cluster_breakout_density_threshold\": 0.03, \"ema_cluster_breakout_min_cross_count\": 3, \"ema_cluster_breakout_volume_ratio\": 1.5, \"ema_cluster_breakout_boll_width_expand_ratio\": 1.05}",
            param_descriptions_zh: &[("ema_cluster_breakout_enabled", "启用EMA簇突破"), ("ema_cluster_breakout_periods", "EMA周期列表"), ("ema_cluster_breakout_density_threshold", "均线密集度阈值"), ("ema_cluster_breakout_min_cross_count", "最小穿越均线数"), ("ema_cluster_breakout_volume_ratio", "放量确认比率"), ("ema_cluster_breakout_boll_width_expand_ratio", "布林带宽扩张比率")],
        },
        36 => OperatorEntry {
            operator_key: "main_wave_continuation_v1",
            operator_type: "entry",
            execution_model: "bars",
            aliases: &["rust_builtin.main_wave_continuation_v1"],
            dependencies: &["ema_cluster_breakout_v1"],
            output_columns: &["main_wave_continuation_signal"],
            input_fields_zh: &["K线数据", "日K线", "EMA突破信号"],
            output_fields_zh: &["主升浪延续确认信号"],
            description_zh: "主升浪延续买入信号，EMA均线突破后向前验证一定周期内的涨幅是否达标（可配置验证周期和最低涨幅），确认不是假突破后入场做多",
            default_params_json: "{\"main_wave_verify_forward_bars\": 80, \"main_wave_verify_min_forward_return\": 0.08, \"main_wave_verify_max_pullback_ratio\": 0.05}",
            param_descriptions_zh: &[("main_wave_verify_forward_bars", "前向验证K线数"), ("main_wave_verify_min_forward_return", "最小前向收益率"), ("main_wave_verify_max_pullback_ratio", "最大回撤容忍比例")],
        },
        37 => OperatorEntry {
            operator_key: "main_wave_verifier_v1",
            operator_type: "indicator",
            execution_model: "bars",
            aliases: &["main_wave_verifier"],
            dependencies: &[],
            output_columns: &["main_wave_verification", "verification_details"],
            input_fields_zh: &["日K线"],
            output_fields_zh: &["主升浪验证结果", "验证详情"],
            description_zh: "主升浪真假突破验证，EMA均线突破后验证后续走势：涨幅是否达标、回撤是否在容忍范围内、当前位置是否过高，用于过滤假突破",
            default_params_json: "{\"main_wave_verify_forward_bars\": 80, \"main_wave_verify_min_forward_return\": 0.08, \"main_wave_verify_max_pullback_ratio\": 0.05, \"main_wave_verify_require_shrink_retest\": true, \"main_wave_verify_position_gate_enabled\": true}",
            param_descriptions_zh: &[("main_wave_verify_forward_bars", "前向验证K线数"), ("main_wave_verify_min_forward_return", "最小前向收益率"), ("main_wave_verify_max_pullback_ratio", "最大回撤容忍比例"), ("main_wave_verify_require_shrink_retest", "要求缩量回踩确认"), ("main_wave_verify_position_gate_enabled", "启用位置门控")],
        },
        38 => OperatorEntry {
            operator_key: "ma20_slope_bollinger_scale_v1",
            operator_type: "strategy",
            execution_model: "bars",
            aliases: &["ma20_slope_bollinger_scale"],
            dependencies: &[],
            output_columns: &["signals", "orders", "fills", "backtest_report", "strategy_audit", "position_summary"],
            input_fields_zh: &["价格", "成交量", "时间"],
            output_fields_zh: &["交易信号", "订单", "成交记录", "回测报告", "策略审计", "持仓摘要"],
            description_zh: "MA20主升浪完整交易策略，价格沿MA20均线持续上涨时做多，含布林带波动率自适应仓位、止盈止损和主升浪持仓管理",
            default_params_json: "{\"target_position_per_trade\": 0.12, \"stop_loss_pct\": 0.08, \"profit_take_threshold\": 0.03, \"max_holding_trading_days\": 2, \"max_daily_buys\": 1, \"max_total_position_ratio\": 1.0, \"cooldown_bars\": 0, \"daily_ma120_ma200_buy_gate_enabled\": true, \"cascade_direction_enabled\": false, \"cascade_volume_enabled\": false}",
            param_descriptions_zh: &[("target_position_per_trade", "单笔目标仓位比例"), ("stop_loss_pct", "止损百分比"), ("profit_take_threshold", "止盈阈值"), ("max_holding_trading_days", "最大持仓交易日"), ("max_daily_buys", "每日最大买入数"), ("max_total_position_ratio", "最大总仓位比例"), ("cooldown_bars", "冷却K线数"), ("daily_ma120_ma200_buy_gate_enabled", "启用MA120/MA200买入门控"), ("cascade_direction_enabled", "启用级联方向"), ("cascade_volume_enabled", "启用级联量能")],
        },
        39 => OperatorEntry {
            operator_key: "tail_low_rebound_boll_shadow_v1",
            operator_type: "strategy",
            execution_model: "bars",
            aliases: &["tail_low_rebound_boll_shadow"],
            dependencies: &[],
            output_columns: &["entry_trigger", "exit_trigger", "position_pct"],
            input_fields_zh: &["价格", "成交量", "时间", "日K线"],
            output_fields_zh: &["入场信号", "出场信号", "持仓比例"],
            description_zh: "尾盘低位反弹策略，尾盘窗口(14:30-15:00)检测价格接近日低且EMA上行放量时入场，布林上轨长上影或止损出场",
            default_params_json: "{\"tail_start_time\": \"14:30\", \"tail_end_time\": \"15:00\", \"stop_loss_pct\": 0.05, \"max_holding_trading_days\": 3, \"boll_period\": 20, \"boll_std_multiplier\": 2.0, \"quantity_ratio\": 0.12, \"max_daily_buys\": 1, \"max_total_position_ratio\": 1.0, \"cascade_direction_enabled\": true, \"cascade_volume_enabled\": true, \"cascade_volume_ratio\": 2.0, \"volume_lookback_bars\": 20, \"daily_ma120_ma200_buy_gate_enabled\": false}",
            param_descriptions_zh: &[("tail_start_time", "尾盘开始时间"), ("tail_end_time", "尾盘结束时间"), ("stop_loss_pct", "止损百分比"), ("max_holding_trading_days", "最大持仓交易日"), ("boll_period", "布林带周期"), ("boll_std_multiplier", "标准差倍数"), ("quantity_ratio", "单笔仓位比例"), ("max_daily_buys", "每日最大买入数"), ("max_total_position_ratio", "最大总仓位比例"), ("cascade_direction_enabled", "启用级联方向门控"), ("cascade_volume_enabled", "启用级联量能门控"), ("cascade_volume_ratio", "级联量能比率"), ("volume_lookback_bars", "量能回看K线数"), ("daily_ma120_ma200_buy_gate_enabled", "启用MA120/MA200买入门控")],
        },
        _ => {
            assert(false);
            OperatorEntry {
                operator_key: "",
                operator_type: "",
                execution_model: "",
                aliases: &[],
                dependencies: &[],
                output_columns: &[],
                input_fields_zh: &[],
                output_fields_zh: &[],
                description_zh: "",
                default_params_json: "",
                param_descriptions_zh: &[],
            }
        },
    };
    assert(entry_info(e) =~= operator_info(i as int));
    assert(e.aliases@.map_values(|a: &str| a@) =~= operator_names()[i as int].1);
    e
}

/// All registered operators, in registry order.
pub fn all_operators() -> (r: Vec<OperatorEntry>)
    ensures
        r@.len() == operator_names().len(),
        r@.len() == operator_table().len(),
        forall|i: int| 0 <= i < r@.len() ==> entry_names(#[trigger] r@[i]) == operator_names()[i],
        forall|i: int| 0 <= i < r@.len() ==> entry_info(#[trigger] r@[i]) == operator_table()[i],
{
    let mut v: Vec<OperatorEntry> = Vec::new();
    let mut i: usize = 0;
    while i < OPERATOR_COUNT
        invariant
            i <= OPERATOR_COUNT,
            v@.len() == i,
            forall|j: int| 0 <= j < i ==> entry_names(#[trigger] v@[j]) == operator_names()[j],
            forall|j: int| 0 <= j < i ==> entry_info(#[trigger] v@[j]) == operator_table()[j],
        decreases OPERATOR_COUNT - i,
    {
        let e = operator_entry(i);
        v.push(e);
        i = i + 1;
    }
    v
}

/// Whether `name` is the key or one of the aliases of an entry.
pub open spec fn names_match(e: (Seq<char>, Seq<Seq<char>>), name: Seq<char>) -> bool {
    e.0 == name || e.1.contains(name)
}

/// The key of the first entry of `table`, from position `from` on, that `name` matches.
pub open spec fn first_match_from(table: Seq<(Seq<char>, Seq<Seq<char>>)>, name: Seq<char>, from: int) -> Option<Seq<char>>
    decreases table.len() - from,
{
    if from < 0 || from >= table.len() {
        None
    } else if names_match(table[from], name) {
        Some(table[from].0)
    } else {
        first_match_from(table, name, from + 1)
    }
}

/// The key of the first entry of `table` that `name` matches.
pub open spec fn first_match(table: Seq<(Seq<char>, Seq<Seq<char>>)>, name: Seq<char>) -> Option<Seq<char>> {
    first_match_from(table, name, 0)
}

/// The canonical key that a raw key or alias resolves to.
pub open spec fn resolved_key(raw: Seq<char>) -> Option<Seq<char>> {
    first_match(operator_names(), trim(raw))
}

/// The characters of an optional string.
pub open spec fn opt_chars(o: Option<&str>) -> Option<Seq<char>> {
    match o {
        Some(s) => Some(s@),
        None => None,
    }
}

/// Resolve a raw operator key or alias to its canonical key.
#[verifier::loop_isolation(false)]
pub fn resolve_alias(raw: &str) -> (r: Option<&'static str>)
    ensures
        opt_chars(r) == resolved_key(raw@),
{
    let trimmed = trim_str(raw);
    let ops = all_operators();
    let ghost table = operator_names();
    let ghost name = trimmed@;
    let mut i: usize = 0;
    while i < ops.len()
        invariant
            ops@.len() == table.len(),
            forall|j: int| 0 <= j < ops@.len() ==> entry_names(#[trigger] ops@[j]) == table[j],
            table == operator_names(),
            name == trimmed@,
            name == trim(raw@),
            i <= ops@.len(),
            first_match(table, name) == first_match_from(table, name, i as int),
        decreases ops@.len() - i,
    {
        let entry = &ops[i];
        assert(table[i as int] == entry_names(ops@[i as int]));
        if str_eq(entry.operator_key, trimmed) {
            return Some(entry.operator_key);
        }
        let mut k: usize = 0;
        while k < entry.aliases.len()
            invariant
                k <= entry.aliases@.len(),
                forall|m: int| 0 <= m < k ==> (#[trigger] entry.aliases@[m])@ != name,
            decreases entry.aliases@.len() - k,
        {
            if str_eq(entry.aliases[k], trimmed) {
                proof {
                    let names = entry.aliases@.map_values(|a: &str| a@);
                    assert(names[k as int] == name);
                }
                return Some(entry.operator_key);
            }
            k = k + 1;
        }
        proof {
            let names = entry.aliases@.map_values(|a: &str| a@);
            assert(!names.contains(name)) by {
                if names.contains(name) {
                    let m = choose|m: int| 0 <= m < names.len() && names[m] == name;
                    assert(entry.aliases@[m]@ == name);
                }
            }
        }
        i = i + 1;
    }
    None
}

/// The operator key that a legacy plan name points to, by the first name
/// fragment that the plan name contains.
pub open spec fn inferred_key(p: Seq<u8>) -> Option<Seq<char>> {
    if has_infix(p, "tail_low_rebound_boll_shadow".spec_bytes()) {
        Some("tail_low_rebound_boll_shadow_v1"@)
    } else if has_infix(p, "volume_trigger".spec_bytes()) {
        Some("volume_trigger_v1"@)
    } else if has_infix(p, "ema_cluster_breakout".spec_bytes()) {
        Some("ema_cluster_breakout_v1"@)
    } else if has_infix(p, "main_wave_verifier".spec_bytes()) {
        Some("main_wave_verifier_v1"@)
    } else if has_infix(p, "bollinger_bands".spec_bytes()) {
        Some("bollinger_bands_v1"@)
    } else if has_infix(p, "volume_profile".spec_bytes()) {
        Some("volume_profile_v1"@)
    } else if has_infix(p, "ema_slope".spec_bytes()) {
        Some("ema_slope_v1"@)
    } else if has_infix(p, "ma20_entry_signal".spec_bytes()) {
        Some("ma20_entry_signal_v1"@)
    } else if has_infix(p, "ma20_exit_signal".spec_bytes()) {
        Some("ma20_exit_signal_v1"@)
    } else if has_infix(p, "position_manager".spec_bytes()) {
        Some("position_manager_v1"@)
    } else if has_infix(p, "ma20_composite".spec_bytes()) {
        Some("ma20_composite_v1"@)
    } else if has_infix(p, "ma_cross".spec_bytes()) {
        Some("ma_cross_v1"@)
    } else if has_infix(p, "ema5_ema10_adhesion".spec_bytes()) {
        Some("ema5_ema10_adhesion_signal"@)
    } else if has_infix(p, "atr_breakout".spec_bytes()) {
        Some("atr_breakout_v1"@)
    } else if has_infix(p, "window_kline_updown_stats".spec_bytes()) {
        Some("window_kline_updown_stats_v1"@)
    } else if has_infix(p, "window_up_buy_signal".spec_bytes()) {
        Some("window_up_buy_signal_v1"@)
    } else if has_infix(p, "rsi".spec_bytes()) {
        Some("rsi_reversal_v1"@)
    } else if has_infix(p, "ma20".spec_bytes()) {
        Some("ma20_slope_bollinger_scale_v1"@)
    } else {
        None
    }
}

/// The plan-name rules in order of precedence: a name fragment and the
/// operator key it points to.
pub open spec fn plan_name_rules() -> Seq<(Seq<char>, Seq<char>)> {
    seq![
        ("tail_low_rebound_boll_shadow"@, "tail_low_rebound_boll_shadow_v1"@),
        ("volume_trigger"@, "volume_trigger_v1"@),
        ("ema_cluster_breakout"@, "ema_cluster_breakout_v1"@),
        ("main_wave_verifier"@, "main_wave_verifier_v1"@),
        ("bollinger_bands"@, "bollinger_bands_v1"@),
        ("volume_profile"@, "volume_profile_v1"@),
        ("ema_slope"@, "ema_slope_v1"@),
        ("ma20_entry_signal"@, "ma20_entry_signal_v1"@),
        ("ma20_exit_signal"@, "ma20_exit_signal_v1"@),
        ("position_manager"@, "position_manager_v1"@),
        ("ma20_composite"@, "ma20_composite_v1"@),
        ("ma_cross"@, "ma_cross_v1"@),
        ("ema5_ema10_adhesion"@, "ema5_ema10_adhesion_signal"@),
        ("atr_breakout"@, "atr_breakout_v1"@),
        ("window_kline_updown_stats"@, "window_kline_updown_stats_v1"@),
        ("window_up_buy_signal"@, "window_up_buy_signal_v1"@),
        ("rsi"@, "rsi_reversal_v1"@),
        ("ma20"@, "ma20_slope_bollinger_scale_v1"@),
    ]
}

/// The key of the first rule from `i` on whose fragment occurs in `p`.
pub open spec fn first_rule_key(p: Seq<u8>, rules: Seq<(Seq<char>, Seq<char>)>, i: int) -> Option<Seq<char>>
    decreases rules.len() - i,
{
    if i < 0 || i >= rules.len() {
        None
    } else if has_infix(p, vstd::utf8::encode_utf8(rules[i].0)) {
        Some(rules[i].1)
    } else {
        first_rule_key(p, rules, i + 1)
    }
}

/// Legacy plan name → operator key inference.
pub fn infer_from_plan_name(plan_name: &str) -> (r: Option<&'static str>)
    ensures
        opt_chars(r) == inferred_key(plan_name.spec_bytes()),
{
    if contains(plan_name, "tail_low_rebound_boll_shadow") {
        Some("tail_low_rebound_boll_shadow_v1")
    } else if contains(plan_name, "volume_trigger") {
        Some("volume_trigger_v1")
    } else if contains(plan_name, "ema_cluster_breakout") {
        Some("ema_cluster_breakout_v1")
    } else if contains(plan_name, "main_wave_verifier") {
        Some("main_wave_verifier_v1")
    } else if contains(plan_name, "bollinger_bands") {
        Some("bollinger_bands_v1")
    } else if contains(plan_name, "volume_profile") {
        Some("volume_profile_v1")
    } else if contains(plan_name, "ema_slope") {
        Some("ema_slope_v1")
    } else if contains(plan_name, "ma20_entry_signal") {
        Some("ma20_entry_signal_v1")
    } else if contains(plan_name, "ma20_exit_signal") {
        Some("ma20_exit_signal_v1")
    } else if contains(plan_name, "position_manager") {
        Some("position_manager_v1")
    } else if contains(plan_name, "ma20_composite") {
        Some("ma20_composite_v1")
    } else if contains(plan_name, "ma_cross") {
        Some("ma_cross_v1")
    } else if contains(plan_name, "ema5_ema10_adhesion") {
        Some("ema5_ema10_adhesion_signal")
    } else if contains(plan_name, "atr_breakout") {
        Some("atr_breakout_v1")
    } else if contains(plan_name, "window_kline_updown_stats") {
        Some("window_kline_updown_stats_v1")
    } else if contains(plan_name, "window_up_buy_signal") {
        Some("window_up_buy_signal_v1")
    } else if contains(plan_name, "rsi") {
        Some("rsi_reversal_v1")
    } else if contains(plan_name, "ma20") {
        Some("ma20_slope_bollinger_scale_v1")
    } else {
        None
    }
}

/// What plan matching reads of a compiled plan: its `plan_name` string
/// (empty when missing or not a string) and, for each step of
/// `execution_contract.steps`, the step's `operator_key` string if it has one.
pub struct CompiledPlan {
    pub plan_name: String,
    pub step_operator_keys: Vec<Option<String>>,
}

/// A plan references one of `targets`: its name contains a non-empty target,
/// or one of its steps has a target as its operator key.
pub open spec fn plan_references(plan_name: Seq<char>, step_keys: Seq<Option<String>>, targets: Seq<&str>) -> bool {
    (exists|t: int| 0 <= t < targets.len() && targets[t]@.len() > 0 && has_infix(
        vstd::utf8::encode_utf8(plan_name),
        targets[t].spec_bytes(),
    )) || (exists|s: int, t: int|
        0 <= s < step_keys.len() && 0 <= t < targets.len() && step_key_is(
            #[trigger] step_keys[s],
            #[trigger] targets[t],
        ))
}

/// A plan references the targets when a non-empty target occurs in its name,
/// and when any one of its steps, at whatever position, has a target as its
/// operator key; and in no other case.
pub proof fn lemma_plan_references_by_name_or_any_step(
    plan_name: Seq<char>,
    step_keys: Seq<Option<String>>,
    targets: Seq<&str>,
)
    ensures
        forall|t: int|
            0 <= t < targets.len() && (#[trigger] targets[t])@.len() > 0 && has_infix(
                vstd::utf8::encode_utf8(plan_name),
                vstd::utf8::encode_utf8(targets[t]@),
            ) ==> plan_references(plan_name, step_keys, targets),
        forall|s: int, t: int|
            0 <= s < step_keys.len() && 0 <= t < targets.len() && (#[trigger] step_keys[s]) is Some
                && step_keys[s].unwrap()@ == (#[trigger] targets[t])@ ==> plan_references(
                plan_name,
                step_keys,
                targets,
            ),
        plan_references(plan_name, step_keys, targets) ==> (exists|t: int|
            0 <= t < targets.len() && (#[trigger] targets[t])@.len() > 0 && has_infix(
                vstd::utf8::encode_utf8(plan_name),
                vstd::utf8::encode_utf8(targets[t]@),
            )) || (exists|s: int, t: int|
            0 <= s < step_keys.len() && 0 <= t < targets.len() && (#[trigger] step_keys[s]) is Some
                && step_keys[s].unwrap()@ == (#[trigger] targets[t])@),
{
    assert forall|s: int, t: int|
        0 <= s < step_keys.len() && 0 <= t < targets.len() && (#[trigger] step_keys[s]) is Some
            && step_keys[s].unwrap()@ == (#[trigger] targets[t])@ implies plan_references(
        plan_name,
        step_keys,
        targets,
    ) by {
        assert(step_key_is(step_keys[s], targets[t]));
    }
    if plan_references(plan_name, step_keys, targets) {
        if exists|s: int, t: int|
            0 <= s < step_keys.len() && 0 <= t < targets.len() && step_key_is(
                #[trigger] step_keys[s],
                #[trigger] targets[t],
            ) {
            let (s, t) = choose|s: int, t: int|
                0 <= s < step_keys.len() && 0 <= t < targets.len() && step_key_is(
                    #[trigger] step_keys[s],
                    #[trigger] targets[t],
                );
            assert(step_keys[s] is Some && step_keys[s].unwrap()@ == targets[t]@);
        }
    }
}

/// A step's operator key is `target`.
pub open spec fn step_key_is(step: Option<String>, target: &str) -> bool {
    match step {
        Some(k) => k@ == target@,
        None => false,
    }
}

/// Whether some target in `targets` equals `key`.
fn key_in_targets(key: &str, targets: &[&str]) -> (r: bool)
    ensures
        r == (exists|t: int| 0 <= t < targets@.len() && key@ == (#[trigger] targets@[t])@),
{
    let mut t: usize = 0;
    while t < targets.len()
        invariant
            t <= targets@.len(),
            forall|u: int| 0 <= u < t ==> key@ != (#[trigger] targets@[u])@,
        decreases targets@.len() - t,
    {
        if str_eq(key, targets[t]) {
            return true;
        }
        t = t + 1;
    }
    false
}

/// Check if a compiled plan references any of the given operator keys or aliases.
#[verifier::loop_isolation(false)]
pub fn compiled_plan_has_operator(compiled_plan: &CompiledPlan, targets: &[&str]) -> (r: bool)
    ensures
        r == plan_references(compiled_plan.plan_name@, compiled_plan.step_operator_keys@, targets@),
        // any step, at whatever position, whose operator key is a target
        forall|s: int, t: int|
            0 <= s < compiled_plan.step_operator_keys@.len() && 0 <= t < targets@.len()
                && (#[trigger] compiled_plan.step_operator_keys@[s]) is Some
                && compiled_plan.step_operator_keys@[s].unwrap()@ == (#[trigger] targets@[t])@ ==> r,
{
    proof {
        lemma_plan_references_by_name_or_any_step(
            compiled_plan.plan_name@,
            compiled_plan.step_operator_keys@,
            targets@,
        );
    }
    let plan_name = compiled_plan.plan_name.as_str();
    let mut t: usize = 0;
    while t < targets.len()
        invariant
            plan_name@ == compiled_plan.plan_name@,
            t <= targets@.len(),
            forall|u: int| 0 <= u < t ==> !((#[trigger] targets@[u])@.len() > 0 && has_infix(
                plan_name.spec_bytes(),
                targets@[u].spec_bytes(),
            )),
        decreases targets@.len() - t,
    {
        if !targets[t].is_empty() && contains(plan_name, targets[t]) {
            return true;
        }
        t = t + 1;
    }
    let steps = &compiled_plan.step_operator_keys;
    let mut s: usize = 0;
    while s < steps.len()
        invariant
            s <= steps@.len(),
            forall|v: int, u: int|
                0 <= v < s && 0 <= u < targets@.len() ==> !step_key_is(
                    #[trigger] steps@[v],
                    #[trigger] targets@[u],
                ),
        decreases steps@.len() - s,
    {
        match &steps[s] {
            Some(key) => {
                if key_in_targets(key.as_str(), targets) {
                    proof {
                        let u = choose|u: int| 0 <= u < targets@.len() && key@ == (#[trigger] targets@[u])@;
                        assert(step_key_is(steps@[s as int], targets@[u]));
                    }
                    return true;
                }
            },
            None => {},
        }
        s = s + 1;
    }
    false
}

} // verus!
