use mousehunter_operators::registry::{
    all_operators, compiled_plan_has_operator, infer_from_plan_name, resolve_alias, CompiledPlan,
};

#[test]
fn registry_lists_every_operator() {
    let ops = all_operators();
    assert_eq!(ops.len(), 40);
    assert_eq!(ops[0].operator_key, "atr_breakout_v1");
    assert_eq!(ops[39].operator_key, "tail_low_rebound_boll_shadow_v1");
    assert_eq!(ops[39].execution_model, "bars");
    for op in &ops {
        assert!(op.default_params_json.starts_with('{'));
        assert!(op.default_params_json.ends_with('}'));
    }
}

#[test]
fn keys_and_aliases_resolve() {
    assert_eq!(resolve_alias("ma_cross_v1"), Some("ma_cross_v1"));
    assert_eq!(resolve_alias("ma_cross"), Some("ma_cross_v1"));
    assert_eq!(resolve_alias("  rsi_14\n"), Some("rsi_reversal_v1"));
    assert_eq!(
        resolve_alias("rust_builtin.stop_loss_exit_v1"),
        Some("stop_loss_exit_v1")
    );
    assert_eq!(resolve_alias("unknown_operator"), None);
    assert_eq!(resolve_alias("MA_CROSS"), None);
    assert_eq!(resolve_alias(""), None);
}

#[test]
fn every_key_and_alias_resolves_to_its_entry() {
    for op in all_operators() {
        assert_eq!(resolve_alias(op.operator_key), Some(op.operator_key));
        for alias in op.aliases {
            assert_eq!(resolve_alias(alias), Some(op.operator_key));
        }
    }
}

#[test]
fn plan_names_infer_operators() {
    assert_eq!(
        infer_from_plan_name("plan_tail_low_rebound_boll_shadow_x"),
        Some("tail_low_rebound_boll_shadow_v1")
    );
    assert_eq!(infer_from_plan_name("my_volume_trigger"), Some("volume_trigger_v1"));
    assert_eq!(infer_from_plan_name("ma20_entry_signal_plan"), Some("ma20_entry_signal_v1"));
    // first matching fragment wins
    assert_eq!(infer_from_plan_name("ma20_composite_with_rsi"), Some("ma20_composite_v1"));
    assert_eq!(infer_from_plan_name("rsi_ma20"), Some("rsi_reversal_v1"));
    assert_eq!(infer_from_plan_name("ma20_generic"), Some("ma20_slope_bollinger_scale_v1"));
    assert_eq!(infer_from_plan_name("nothing_here"), None);
}

#[test]
fn inferred_operators_are_registered() {
    for name in [
        "tail_low_rebound_boll_shadow", "volume_trigger", "ema_cluster_breakout",
        "main_wave_verifier", "bollinger_bands", "volume_profile", "ema_slope",
        "ma20_entry_signal", "ma20_exit_signal", "position_manager", "ma20_composite",
        "ma_cross", "ema5_ema10_adhesion", "atr_breakout", "window_kline_updown_stats",
        "window_up_buy_signal", "rsi", "ma20",
    ] {
        let key = infer_from_plan_name(name).unwrap();
        assert_eq!(resolve_alias(key), Some(key));
    }
}

#[test]
fn compiled_plans_reference_operators() {
    let plan = CompiledPlan {
        plan_name: "volume_trigger_daily".to_string(),
        step_operator_keys: vec![Some("ma_cross_v1".to_string()), None],
    };
    assert!(compiled_plan_has_operator(&plan, &["volume_trigger"]));
    assert!(compiled_plan_has_operator(&plan, &["ma_cross_v1"]));
    // step keys must match exactly; name fragments only need to occur
    assert!(!compiled_plan_has_operator(&plan, &["ma_cross"]));
    assert!(compiled_plan_has_operator(&plan, &["daily"]));
    // the empty target never matches the name
    assert!(!compiled_plan_has_operator(&plan, &[""]));
    assert!(!compiled_plan_has_operator(&plan, &[]));
    let empty = CompiledPlan {
        plan_name: String::new(),
        step_operator_keys: vec![Some(String::new())],
    };
    assert!(compiled_plan_has_operator(&empty, &[""]));
}

#[test]
fn registry_metadata_is_kept_per_entry() {
    let ops = all_operators();
    let atr = &ops[0];
    assert_eq!(atr.operator_type, "indicator");
    assert_eq!(atr.execution_model, "columnar");
    assert!(atr.dependencies.is_empty());
    assert_eq!(atr.output_columns, &["atr_value", "atr_upper", "atr_lower", "breakout_signal"]);
    assert_eq!(atr.input_fields_zh, &["价格", "成交量"]);
    assert_eq!(
        atr.default_params_json,
        "{\"fast_window_days\": 14, \"slow_window_days\": 20}"
    );
    assert_eq!(
        atr.param_descriptions_zh,
        &[("fast_window_days", "快窗口周期（日）"), ("slow_window_days", "慢窗口周期（日）")]
    );
    let boll_top = &ops[2];
    assert_eq!(boll_top.operator_key, "boll_upper_top_v1");
    assert_eq!(boll_top.operator_type, "exit");
    assert_eq!(boll_top.dependencies, &["bollinger_bands_v1"]);
    assert_eq!(boll_top.output_fields_zh, &["布林上轨出场信号"]);
}
