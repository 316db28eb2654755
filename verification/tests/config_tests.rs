use octopus_desktop::config::{AppConfig, PolishMode};
use octopus_desktop::runtime_config::{
    build_asr_options, build_llm_options, build_ocr_options, engine_label, mask_key,
    polish_mode_to_u8, resolve_translate_mode, set_denoise_mode, set_polish_mode,
    set_translate_mode, toolbar_state, u8_to_polish_mode, validate_translate_mode, EngineInfo,
    LlmModelInfo, OcrModelInfo,
};
use octopus_desktop::settings::{
    apply_config_value, set_config, ConfigValue, FloatSetting, ShortcutSlot,
};

#[test]
fn polish_mode_u8_round_trip() {
    for n in 0..=2u8 {
        let m = u8_to_polish_mode(n).unwrap();
        assert_eq!(polish_mode_to_u8(m), n);
    }
    assert!(u8_to_polish_mode(3).is_none());
    assert!(u8_to_polish_mode(99).is_none());
}

fn mk_engine(name: &str, provider: &str, category: &str, source_type: i64, is_enabled: bool) -> EngineInfo {
    EngineInfo {
        name: name.into(),
        provider: provider.into(),
        category: category.into(),
        source_type,
        id: 0,
        source: String::new(),
        secret_key: String::new(),
        is_streaming: false,
        is_thinking: false,
        is_enabled,
    }
}

fn mk_llm(model_name: &str, provider: &str, category: &str, source_type: i64, is_enabled: bool) -> LlmModelInfo {
    LlmModelInfo {
        model_name: model_name.into(),
        provider: provider.into(),
        category: category.into(),
        source_type,
        id: 0,
        source: String::new(),
        secret_key: String::new(),
        is_streaming: false,
        is_thinking: false,
        is_enabled,
    }
}

#[test]
fn build_asr_options_injects_fallback_first_and_dedups() {
    let engines = vec![mk_engine("whisper-small", "bigmodel", "whisper", 2, true)];
    let opts = build_asr_options(engines);
    assert_eq!(opts[0].name, "zipformer-small");
    assert_eq!(opts[0].label, "本地:zipformer:zipformer-small");
    assert_eq!(opts[0].source_type, 0, "the fallback engine is built in");
    assert!(!opts[0].current, "an enabled engine makes the fallback not current");
    assert_eq!(opts[1].name, "whisper-small");
    assert!(opts[1].current, "the enabled engine is current");
    assert_eq!(opts[1].label, "bigmodel:whisper:whisper-small");

    let opts2 = build_asr_options(vec![]);
    assert_eq!(opts2.len(), 1);
    assert_eq!(opts2[0].name, "zipformer-small");
    assert!(opts2[0].current, "with nothing enabled the fallback is current");

    let engines3 = vec![
        mk_engine("zipformer-small", "local", "zipformer", 1, false),
        mk_engine("whisper-small", "local", "whisper", 2, true),
    ];
    let opts3 = build_asr_options(engines3);
    assert_eq!(
        opts3.iter().filter(|o| o.name == "zipformer-small").count(),
        1,
        "the fallback is listed once"
    );
    assert_eq!(opts3[0].name, "zipformer-small");
    assert!(!opts3[0].current);
    assert!(opts3[1].current);
}

#[test]
fn build_asr_options_uses_is_enabled_not_name_match() {
    let engines = vec![
        mk_engine("deepseek-v4-flash", "aliyun", "aliyun", 2, true),
        mk_engine("deepseek-v4-flash", "deepseek", "aliyun", 2, false),
    ];
    let opts = build_asr_options(engines);
    let currents: Vec<_> = opts.iter().filter(|o| o.current).collect();
    assert_eq!(currents.len(), 1);
    assert_eq!(currents[0].provider, "aliyun");
}

#[test]
fn build_llm_options_marks_current_and_labels() {
    let llms = vec![
        mk_llm("glm-4-flashx", "bigmodel", "glm", 2, true),
        mk_llm("ollama-local", "ollama", "qwen", 1, false),
    ];
    let opts = build_llm_options(llms);
    assert_eq!(opts.len(), 3);
    assert_eq!(opts[0].label, "不选择模型");
    assert_eq!(opts[0].name, "");
    assert!(!opts[0].current);
    assert!(opts[1].current);
    assert_eq!(opts[1].label, "bigmodel:glm:glm-4-flashx");
    assert!(!opts[2].current);
    assert_eq!(opts[2].label, "本地:qwen:ollama-local");
}

#[test]
fn build_llm_options_none_current_when_no_active() {
    let llms = vec![mk_llm("glm-4-flashx", "bigmodel", "glm", 2, false)];
    let opts = build_llm_options(llms);
    assert!(opts[0].current);
    assert_eq!(opts[0].name, "");
    assert!(!opts[1].current);
}

#[test]
fn validate_translate_mode_accepts_known_values() {
    assert!(validate_translate_mode("manual"));
    assert!(validate_translate_mode("4s"));
    assert!(validate_translate_mode("8s"));
    assert!(validate_translate_mode("12s"));
}

#[test]
fn validate_translate_mode_rejects_unknown() {
    assert!(!validate_translate_mode("15s"));
    assert!(!validate_translate_mode(""));
    assert!(!validate_translate_mode("off"));
    assert!(!validate_translate_mode("3s"));
    assert!(!validate_translate_mode("16s"));
    assert!(!validate_translate_mode("auto"));
    assert!(!validate_translate_mode("0"));
}

#[test]
fn resolve_translate_mode_defaults_to_manual() {
    assert_eq!(resolve_translate_mode(None), "manual");
    assert_eq!(resolve_translate_mode(Some(String::new())), "manual");
    assert_eq!(resolve_translate_mode(Some("garbage".into())), "manual");
    assert_eq!(resolve_translate_mode(Some("15s".into())), "manual");
}

#[test]
fn resolve_translate_mode_preserves_valid() {
    assert_eq!(resolve_translate_mode(Some("manual".into())), "manual");
    assert_eq!(resolve_translate_mode(Some("4s".into())), "4s");
    assert_eq!(resolve_translate_mode(Some("8s".into())), "8s");
    assert_eq!(resolve_translate_mode(Some("12s".into())), "12s");
}

#[test]
fn build_llm_options_is_enabled_precise_current() {
    let llms = vec![
        mk_llm("deepseek-v4-flash", "aliyun", "deepseek", 2, true),
        mk_llm("deepseek-v4-flash", "deepseek", "deepseek", 2, false),
    ];
    let opts = build_llm_options(llms);
    let currents: Vec<_> = opts.iter().filter(|o| o.current).collect();
    assert_eq!(currents.len(), 1);
    assert_eq!(currents[0].provider, "aliyun");
}

#[test]
fn engine_option_has_provider_field() {
    let engines = vec![mk_engine("whisper-small", "aliyun", "whisper", 2, false)];
    let opts = build_asr_options(engines);
    assert_eq!(opts[1].provider, "aliyun");
}

#[test]
fn llm_option_has_provider_field() {
    let llms = vec![mk_llm("test", "bigmodel", "glm", 2, false)];
    let opts = build_llm_options(llms);
    assert_eq!(opts[1].provider, "bigmodel");
}

#[test]
fn build_ocr_options_uses_is_enabled_for_current() {
    let ocrs = vec![
        OcrModelInfo { model_name: "PP-OCRv6-small".into(), description: "v6".into(), source_type: 1, is_enabled: true },
        OcrModelInfo { model_name: "PP-OCRv5".into(), description: "v5".into(), source_type: 1, is_enabled: false },
    ];
    let opts = build_ocr_options(ocrs);
    assert_eq!(opts.len(), 2);
    assert!(opts.iter().find(|o| o.name == "PP-OCRv6-small").unwrap().current);
    assert!(!opts.iter().find(|o| o.name == "PP-OCRv5").unwrap().current);
}

#[test]
fn ocr_label_falls_back_to_name() {
    let opts = build_ocr_options(vec![OcrModelInfo {
        model_name: "m".into(),
        description: String::new(),
        source_type: 0,
        is_enabled: false,
    }]);
    assert_eq!(opts[0].label, "m");
    assert_eq!(opts[0].provider, "local");
}

#[test]
fn mask_key_keeps_four_at_each_end() {
    assert_eq!(mask_key(""), "");
    assert_eq!(mask_key("abcdefgh"), "********");
    assert_eq!(mask_key("sk-1234567890"), "sk-1********7890");
    assert_eq!(engine_label(1, "qwen", "ollama", "x"), "本地:qwen:x");
}

#[test]
fn toolbar_modes_are_checked() {
    let mut cfg = AppConfig::default();
    assert!(set_polish_mode(&mut cfg, 2).is_ok());
    assert_eq!(cfg.polish_mode, PolishMode::Intermediate);
    assert_eq!(set_polish_mode(&mut cfg, 7), Err("polish_mode=7 非法（应为 0/1/2）".to_string()));
    assert_eq!(cfg.polish_mode, PolishMode::Intermediate);
    assert!(set_denoise_mode(&mut cfg, 1).is_ok());
    assert_eq!(cfg.denoise_mode, 1);
    assert_eq!(set_denoise_mode(&mut cfg, 3), Err("denoise_mode=3 非法（应为 0/1/2）".to_string()));
    assert_eq!(set_translate_mode("9s"), Err("translate_mode='9s' 非法（应为 manual/4s/8s/12s）".to_string()));
    cfg.edit_shortcut = "Cmd+Enter".into();
    let s = toolbar_state(&cfg, None, true, Some("bad".into()));
    assert_eq!(s.asr_engine, "");
    assert_eq!(s.polish_mode, 2);
    assert_eq!(s.translate_mode, "manual");
    assert_eq!(s.edit_shortcut, "Cmd+Enter");
}

fn s(v: &str) -> ConfigValue {
    ConfigValue { as_str: Some(v.to_string()), as_bool: None, as_u64: None, as_int: None, is_number: false }
}

fn b(v: bool) -> ConfigValue {
    ConfigValue { as_str: None, as_bool: Some(v), as_u64: None, as_int: None, is_number: false }
}

fn n(v: u64) -> ConfigValue {
    ConfigValue { as_str: None, as_bool: None, as_u64: Some(v), as_int: Some(v as i64), is_number: true }
}

fn f() -> ConfigValue {
    ConfigValue { as_str: None, as_bool: None, as_u64: None, as_int: None, is_number: true }
}

#[test]
fn apply_config_valid_bool() {
    let mut cfg = AppConfig::default();
    apply_config_value(&mut cfg, "asr_correct", &b(true)).unwrap();
    assert!(cfg.asr_correct);
    apply_config_value(&mut cfg, "asr_correct", &b(false)).unwrap();
    assert!(!cfg.asr_correct);
}

#[test]
fn apply_config_invalid_bool() {
    let mut cfg = AppConfig::default();
    assert!(apply_config_value(&mut cfg, "asr_correct", &s("yes")).is_err());
}

#[test]
fn apply_config_valid_f64() {
    let mut cfg = AppConfig::default();
    assert_eq!(
        apply_config_value(&mut cfg, "segment_silence", &f()),
        Ok(Some(FloatSetting::SegmentSilence))
    );
}

#[test]
fn apply_config_valid_polish_mode() {
    let mut cfg = AppConfig::default();
    for k in 0..=2u64 {
        apply_config_value(&mut cfg, "polish_mode", &n(k)).unwrap();
    }
    assert!(apply_config_value(&mut cfg, "polish_mode", &n(3)).is_err());
}

#[test]
fn apply_config_valid_language() {
    let mut cfg = AppConfig::default();
    apply_config_value(&mut cfg, "language", &s("zh")).unwrap();
    assert_eq!(cfg.language, "zh");
    assert!(apply_config_value(&mut cfg, "language", &s("fr")).is_err());
}

#[test]
fn apply_config_unknown_key() {
    let mut cfg = AppConfig::default();
    assert!(apply_config_value(&mut cfg, "nonexistent_field", &n(1)).is_err());
}

#[test]
fn apply_config_string_fields() {
    let mut cfg = AppConfig::default();
    apply_config_value(&mut cfg, "asr_shortcut", &s("Ctrl+Alt+Z")).unwrap();
    assert_eq!(cfg.asr_shortcut, "Ctrl+Alt+Z");
    apply_config_value(&mut cfg, "microphone", &s("External Mic")).unwrap();
    assert_eq!(cfg.microphone, "External Mic");
}

#[test]
fn apply_config_valid_fuzzy_dialect() {
    let mut cfg = AppConfig::default();
    apply_config_value(&mut cfg, "fuzzy_dialect", &s("")).unwrap();
    assert_eq!(cfg.fuzzy_dialect, "");
    apply_config_value(&mut cfg, "fuzzy_dialect", &s("f/h,hu/wu,n/l")).unwrap();
    assert_eq!(cfg.fuzzy_dialect, "f/h,hu/wu,n/l");
    apply_config_value(&mut cfg, "fuzzy_dialect", &s("r/l")).unwrap();
    assert_eq!(cfg.fuzzy_dialect, "r/l");
    apply_config_value(&mut cfg, "fuzzy_dialect", &s("f/h,hu/wu,n/l,r/l")).unwrap();
    assert_eq!(cfg.fuzzy_dialect, "f/h,hu/wu,n/l,r/l");
}

#[test]
fn apply_config_invalid_fuzzy_dialect() {
    let mut cfg = AppConfig::default();
    assert!(apply_config_value(&mut cfg, "fuzzy_dialect", &s("fh")).is_err());
    assert!(apply_config_value(&mut cfg, "fuzzy_dialect", &s("f/h,bad")).is_err());
    assert!(apply_config_value(&mut cfg, "fuzzy_dialect", &n(123)).is_err());
}

#[test]
fn apply_config_messages_and_unchanged_on_error() {
    let mut cfg = AppConfig::default();
    cfg.language = "en".into();
    assert_eq!(
        apply_config_value(&mut cfg, "language", &s("fr")),
        Err("language 非法值 'fr'（应为 auto/zh/en/ja/ko）".to_string())
    );
    assert_eq!(cfg.language, "en");
    assert_eq!(
        apply_config_value(&mut cfg, "fuzzy_dialect", &s("f/h, bad ,n/l")),
        Err("fuzzy_dialect 非法 token 'bad'（应为 f/h、hu/wu、n/l、r/l 子集）".to_string())
    );
    assert_eq!(
        apply_config_value(&mut cfg, "clipboard_max_items", &n(5)),
        Err("clipboard_max_items 必须 >= 10".to_string())
    );
    apply_config_value(&mut cfg, "clipboard_max_items", &n(50)).unwrap();
    assert_eq!(cfg.clipboard_max_items, 50);
    apply_config_value(&mut cfg, "denoise_mode", &n(2)).unwrap();
    assert_eq!(
        apply_config_value(&mut cfg, "denoise_mode", &n(258)),
        Err("denoise_mode=258 非法（应为 0/1/2）".to_string())
    );
    assert_eq!(cfg.denoise_mode, 2);
    assert_eq!(
        apply_config_value(&mut cfg, "denoise_mode", &n(3)),
        Err("denoise_mode=3 非法（应为 0/1/2）".to_string())
    );
    assert_eq!(
        apply_config_value(&mut cfg, "segment_silence", &s("x")),
        Err("segment_silence 需要数值".to_string())
    );
    assert_eq!(apply_config_value(&mut cfg, "bogus", &n(1)), Err("未知配置字段: bogus".to_string()));
}

#[test]
fn set_config_plans_follow_ups() {
    let mut cfg = AppConfig::default();
    cfg.asr_shortcut = "Alt+Space".into();
    let plan = set_config(&mut cfg, "asr_shortcut", &s("Ctrl+Alt+Z")).unwrap();
    match plan.reregister {
        Some((slot, old, new)) => {
            assert_eq!(slot, ShortcutSlot::Asr);
            assert_eq!(old, "Alt+Space");
            assert_eq!(new, "Ctrl+Alt+Z");
        },
        None => panic!("a changed shortcut is registered again"),
    }
    let plan = set_config(&mut cfg, "asr_shortcut", &s("Ctrl+Alt+Z")).unwrap();
    assert!(plan.reregister.is_none());
    let plan = set_config(&mut cfg, "hide_toolbar", &b(true)).unwrap();
    assert!(plan.update_runtime);
    assert!(!plan.reload_dialect);
    let plan = set_config(&mut cfg, "clipboard_enabled", &b(true)).unwrap();
    assert_eq!(plan.clipboard_recording, Some(true));
    let plan = set_config(&mut cfg, "fuzzy_dialect", &s("n/l")).unwrap();
    assert!(plan.reload_dialect);
    assert!(set_config(&mut cfg, "language", &b(true)).is_err());
}

#[test]
fn apply_config_mode_numbers_above_two_are_refused() {
    let mut cfg = AppConfig::default();
    assert_eq!(
        apply_config_value(&mut cfg, "polish_mode", &n(256)),
        Err("polish_mode=256 非法（应为 0/1/2）".to_string())
    );
    assert_eq!(cfg.polish_mode, AppConfig::default().polish_mode);
    assert!(apply_config_value(&mut cfg, "polish_mode", &n(3)).is_err());
    assert_eq!(
        apply_config_value(&mut cfg, "denoise_mode", &n(258)),
        Err("denoise_mode=258 非法（应为 0/1/2）".to_string())
    );
    assert_eq!(cfg.denoise_mode, AppConfig::default().denoise_mode);
    assert!(apply_config_value(&mut cfg, "denoise_mode", &n(2)).is_ok());
    assert_eq!(cfg.denoise_mode, 2);
}

#[test]
fn mask_key_short_multibyte_key_is_fully_masked() {
    assert_eq!(mask_key("密钥密"), "********");
    assert_eq!(mask_key("密钥密钥密钥密钥"), "********");
    assert_eq!(mask_key("密钥密钥-密钥密钥"), "密钥密钥********密钥密钥");
}

#[test]
fn build_options_with_short_multibyte_keys() {
    let mut e = mk_engine("paraformer", "aliyun", "aliyun", 2, true);
    e.secret_key = "密钥".into();
    let opts = build_asr_options(vec![e]);
    assert_eq!(opts.len(), 2);
    assert_eq!(opts[1].secret_key, "********");
    let mut m = mk_llm("glm", "bigmodel", "glm", 2, false);
    m.secret_key = "ключ".into();
    let opts = build_llm_options(vec![m]);
    assert_eq!(opts[1].secret_key, "********");
    assert!(opts[0].current);
}

#[test]
fn build_asr_options_single_enabled_engine_is_the_one_current() {
    let engines = vec![
        mk_engine("zipformer-small", "local", "zipformer", 0, false),
        mk_engine("whisper", "local", "whisper", 1, false),
        mk_engine("paraformer", "aliyun", "aliyun", 2, true),
    ];
    let opts = build_asr_options(engines);
    assert_eq!(opts[0].name, "zipformer-small");
    assert_eq!(opts.iter().filter(|o| o.name == "zipformer-small").count(), 1);
    let currents: Vec<_> = opts.iter().filter(|o| o.current).collect();
    assert_eq!(currents.len(), 1);
    assert_eq!(currents[0].name, "paraformer");
    assert_eq!(currents[0].provider, "aliyun");
}

#[test]
fn build_asr_options_enabled_engine_with_fallback_name_leaves_none_current() {
    let engines = vec![
        mk_engine("zipformer-small", "local", "zipformer", 0, true),
        mk_engine("whisper", "local", "whisper", 1, false),
    ];
    let opts = build_asr_options(engines);
    assert_eq!(opts.len(), 2);
    assert_eq!(opts.iter().filter(|o| o.current).count(), 0);
}
