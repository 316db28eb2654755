//! Changing one setting by name, as the settings window does: each setting
//! checks the kind and range of its value; an invalid value changes nothing.
use vstd::prelude::*;
use crate::config::{AppConfig, AppConfigView, PolishMode};
use crate::runtime_config::{polish_mode_of, u8_to_polish_mode};
use crate::text::{decimal_digits, push_u64_digits};
use crate::text::{chars_of, opt_seq, owned, push_str, split_char, split_on, str_eq, trim, trimmed};

verus! {

/// A setting value as the settings window sends it (a JSON value), by what it
/// can be read as.
pub struct ConfigValue {
    /// The value when it is a string.
    pub as_str: Option<String>,
    /// The value when it is a boolean.
    pub as_bool: Option<bool>,
    /// The value when it is a non-negative integer.
    pub as_u64: Option<u64>,
    /// The value when it is an integer in range, else when it is any number,
    /// that number truncated toward zero.
    pub as_int: Option<i64>,
    /// Whether the value is a number.
    pub is_number: bool,
}

/// A setting value by views.
pub struct ValueView {
    pub s: Option<Seq<char>>,
    pub b: Option<bool>,
    pub u: Option<u64>,
    pub i: Option<i64>,
    pub is_number: bool,
}

impl View for ConfigValue {
    type V = ValueView;

    open spec fn view(&self) -> ValueView {
        ValueView { s: opt_seq(self.as_str), b: self.as_bool, u: self.as_u64, i: self.as_int, is_number: self.is_number }
    }
}

/// The floating-point settings, which the caller checks and stores: silence
/// before a segment ends (> 0), minimum polish interval (>= 0), pause before
/// polishing in milliseconds (>= 600).
#[derive(Clone, Copy, Debug, PartialEq, Eq, Structural)]
pub enum FloatSetting {
    SegmentSilence,
    PolishMinInterval,
    PausePolishThresholdMs,
}

/// Tokens of the fuzzy dialect setting.
pub open spec fn dialect_token_ok(t: Seq<char>) -> bool {
    t.len() == 0 || t == "f/h"@ || t == "hu/wu"@ || t == "n/l"@ || t == "r/l"@
}

/// The first comma-separated piece that, trimmed, is neither empty nor a
/// dialect rule; trimmed.
pub open spec fn first_bad_token(pieces: Seq<Seq<char>>) -> Option<Seq<char>>
    decreases pieces.len(),
{
    if pieces.len() == 0 {
        None
    } else if !dialect_token_ok(trim(pieces[0])) {
        Some(trim(pieces[0]))
    } else {
        first_bad_token(pieces.drop_first())
    }
}

/// The first invalid token of a fuzzy dialect setting.
pub fn first_bad_dialect_token(s: &str) -> (r: Option<String>)
    ensures
        opt_seq(r) == first_bad_token(split_on(s@, ',')),
{
    let v = chars_of(s);
    let pieces = split_char(&v, ',');
    let ghost ps = Seq::new(pieces@.len(), |i: int| pieces@[i]@);
    let mut i: usize = 0;
    assert(ps.skip(0) =~= ps);
    while i < pieces.len()
        invariant
            i <= pieces@.len(),
            ps == Seq::new(pieces@.len(), |k: int| pieces@[k]@),
            ps == split_on(s@, ','),
            first_bad_token(ps) == first_bad_token(ps.skip(i as int)),
        decreases pieces@.len() - i,
    {
        proof {
            assert(ps.skip(i as int).drop_first() =~= ps.skip(i + 1));
            assert(ps.skip(i as int)[0] == ps[i as int]);
        }
        let t = trimmed(pieces[i].as_slice());
        let ts = t.as_str();
        let ok = ts.is_empty() || str_eq(ts, "f/h") || str_eq(ts, "hu/wu") || str_eq(ts, "n/l")
            || str_eq(ts, "r/l");
        if !ok {
            return Some(t);
        }
        i = i + 1;
    }
    assert(ps.skip(pieces@.len() as int) =~= Seq::<Seq<char>>::empty());
    None
}

/// What setting `key` to `v` does: the result (`Ok(Some(..))` for a
/// floating-point setting left to the caller) and the settings after it.
pub open spec fn apply_spec(c: AppConfigView, key: Seq<char>, v: ValueView) -> (Result<Option<FloatSetting>, Seq<char>>, AppConfigView) {
    if key == "language"@ {
        match v.s {
            None => (Err("language 需要字符串"@), c),
            Some(s) => if s == "auto"@ || s == "zh"@ || s == "en"@ || s == "ja"@ || s == "ko"@ {
                (Ok(None), AppConfigView { language: s, ..c })
            } else {
                (Err("language 非法值 '"@ + s + "'（应为 auto/zh/en/ja/ko）"@), c)
            },
        }
    } else if key == "ui_language"@ {
        match v.s {
            None => (Err("ui_language 需要字符串"@), c),
            Some(s) => if s == "zh-CN"@ || s == "en"@ {
                (Ok(None), AppConfigView { ui_language: s, ..c })
            } else {
                (Err("ui_language 非法值 '"@ + s + "'（应为 zh-CN/en）"@), c)
            },
        }
    } else if key == "engine_mode"@ {
        match v.s {
            None => (Err("engine_mode 需要字符串"@), c),
            Some(s) => if s == "embedded"@ || s == "websocket"@ || s == "grpc"@ {
                (Ok(None), AppConfigView { engine_mode: s, ..c })
            } else {
                (Err("engine_mode 非法值 '"@ + s + "'（应为 embedded/websocket/grpc）"@), c)
            },
        }
    } else if key == "polish_mode"@ {
        match v.u {
            None => (Err("polish_mode 需要 0/1/2"@), c),
            Some(n) => if n <= 2 {
                match polish_mode_of(n as u8) {
                    Some(pm) => (Ok(None), AppConfigView { polish_mode: pm, ..c }),
                    None => (Err("polish_mode="@ + decimal_digits(n as nat) + " 非法（应为 0/1/2）"@), c),
                }
            } else {
                (Err("polish_mode="@ + decimal_digits(n as nat) + " 非法（应为 0/1/2）"@), c)
            },
        }
    } else if key == "denoise_mode"@ {
        match v.u {
            None => (Err("denoise_mode 需要 0/1/2"@), c),
            Some(n) => if n > 2 {
                (Err("denoise_mode="@ + decimal_digits(n as nat) + " 非法（应为 0/1/2）"@), c)
            } else {
                (Ok(None), AppConfigView { denoise_mode: n as u8, ..c })
            },
        }
    } else if key == "asr_hardware_accelerated"@ {
        match v.b {
            None => (Err("asr_hardware_accelerated 需要 bool"@), c),
            Some(x) => (Ok(None), AppConfigView { asr_hardware_accelerated: x, ..c }),
        }
    } else if key == "asr_correct"@ {
        match v.b {
            None => (Err("asr_correct 需要 bool"@), c),
            Some(x) => (Ok(None), AppConfigView { asr_correct: x, ..c }),
        }
    } else if key == "fuzzy_dialect"@ {
        match v.s {
            None => (Err("fuzzy_dialect 需要字符串"@), c),
            Some(s) => match first_bad_token(split_on(s, ',')) {
                Some(t) => (Err("fuzzy_dialect 非法 token '"@ + t + "'（应为 f/h、hu/wu、n/l、r/l 子集）"@), c),
                None => (Ok(None), AppConfigView { fuzzy_dialect: s, ..c }),
            },
        }
    } else if key == "output_simplified"@ {
        match v.b {
            None => (Err("output_simplified 需要 bool"@), c),
            Some(x) => (Ok(None), AppConfigView { output_simplified: x, ..c }),
        }
    } else {
        apply_spec_b(c, key, v)
    }
}

/// `apply_spec` for the settings further down the list.
pub open spec fn apply_spec_b(c: AppConfigView, key: Seq<char>, v: ValueView) -> (Result<Option<FloatSetting>, Seq<char>>, AppConfigView) {
    if key == "hide_toolbar"@ {
        match v.b {
            None => (Err("hide_toolbar 需要 bool"@), c),
            Some(x) => (Ok(None), AppConfigView { hide_toolbar: x, ..c }),
        }
    } else if key == "segment_silence"@ {
        if v.is_number {
            (Ok(Some(FloatSetting::SegmentSilence)), c)
        } else {
            (Err("segment_silence 需要数值"@), c)
        }
    } else if key == "polish_min_interval"@ {
        if v.is_number {
            (Ok(Some(FloatSetting::PolishMinInterval)), c)
        } else {
            (Err("polish_min_interval 需要数值"@), c)
        }
    } else if key == "pause_polish_threshold_ms"@ {
        if v.is_number {
            (Ok(Some(FloatSetting::PausePolishThresholdMs)), c)
        } else {
            (Err("pause_polish_threshold_ms 需要数值"@), c)
        }
    } else if key == "asr_shortcut"@ {
        match v.s {
            None => (Err("asr_shortcut 需要字符串"@), c),
            Some(s) => (Ok(None), AppConfigView { asr_shortcut: s, ..c }),
        }
    } else if key == "edit_shortcut"@ {
        match v.s {
            None => (Err("edit_shortcut 需要字符串"@), c),
            Some(s) => (Ok(None), AppConfigView { edit_shortcut: s, ..c }),
        }
    } else if key == "edit_global_shortcut"@ {
        match v.s {
            None => (Err("edit_global_shortcut 需要字符串"@), c),
            Some(s) => (Ok(None), AppConfigView { edit_global_shortcut: s, ..c }),
        }
    } else if key == "polish_global_shortcut"@ {
        match v.s {
            None => (Err("polish_global_shortcut 需要字符串"@), c),
            Some(s) => (Ok(None), AppConfigView { polish_global_shortcut: s, ..c }),
        }
    } else if key == "clipboard_shortcut"@ {
        match v.s {
            None => (Err("clipboard_shortcut 需要字符串"@), c),
            Some(s) => (Ok(None), AppConfigView { clipboard_shortcut: s, ..c }),
        }
    } else {
        apply_spec_c(c, key, v)
    }
}

/// `apply_spec` for the settings further down the list.
pub open spec fn apply_spec_c(c: AppConfigView, key: Seq<char>, v: ValueView) -> (Result<Option<FloatSetting>, Seq<char>>, AppConfigView) {
    if key == "clipboard_max_items"@ {
        match v.i {
            None => (Err("clipboard_max_items 需要整数"@), c),
            Some(x) => if x < 10 {
                (Err("clipboard_max_items 必须 >= 10"@), c)
            } else {
                (Ok(None), AppConfigView { clipboard_max_items: x, ..c })
            },
        }
    } else if key == "clipboard_max_age_days"@ {
        match v.i {
            None => (Err("clipboard_max_age_days 需要整数"@), c),
            Some(x) => if x < 1 {
                (Err("clipboard_max_age_days 必须 >= 1"@), c)
            } else {
                (Ok(None), AppConfigView { clipboard_max_age_days: x, ..c })
            },
        }
    } else if key == "clipboard_enabled"@ {
        match v.b {
            None => (Err("clipboard_enabled 需要 bool"@), c),
            Some(x) => (Ok(None), AppConfigView { clipboard_enabled: x, ..c }),
        }
    } else if key == "clipboard_theme"@ {
        match v.s {
            None => (Err("clipboard_theme 需要字符串"@), c),
            Some(s) => (Ok(None), AppConfigView { clipboard_theme: s, ..c }),
        }
    } else if key == "action_bar_shortcut"@ {
        match v.s {
            None => (Err("action_bar_shortcut 需要字符串"@), c),
            Some(s) => (Ok(None), AppConfigView { action_bar_shortcut: s, ..c }),
        }
    } else if key == "action_bar_search_engine"@ {
        match v.s {
            None => (Err("action_bar_search_engine 需要字符串"@), c),
            Some(s) => (Ok(None), AppConfigView { action_bar_search_engine: s, ..c }),
        }
    } else if key == "screenshot_shortcut"@ {
        match v.s {
            None => (Err("screenshot_shortcut 需要字符串"@), c),
            Some(s) => (Ok(None), AppConfigView { screenshot_shortcut: s, ..c }),
        }
    } else if key == "switch_input_source_on_paste"@ {
        match v.b {
            None => (Err("switch_input_source_on_paste 需要 bool"@), c),
            Some(x) => (Ok(None), AppConfigView { switch_input_source_on_paste: x, ..c }),
        }
    } else if key == "microphone"@ {
        match v.s {
            None => (Err("microphone 需要字符串"@), c),
            Some(s) => (Ok(None), AppConfigView { microphone: s, ..c }),
        }
    } else {
        (Err("未知配置字段: "@ + key), c)
    }
}


/// Checks a value for setting `key` and stores it; an unknown key or an
/// invalid value is an error and changes nothing.
pub fn apply_config_value(cfg: &mut AppConfig, key: &str, value: &ConfigValue) -> (r: Result<Option<FloatSetting>, String>)
    ensures
        ({
            let (res, after) = apply_spec(old(cfg)@, key@, value.view());
            &&& final(cfg)@ == after
            &&& match (r, res) {
                (Ok(a), Ok(b)) => a == b,
                (Err(a), Err(b)) => a@ == b,
                _ => false,
            }
        }),
{
    if str_eq(key, "language") {
        let s = match &value.as_str {
            Some(s) => s.as_str(),
            None => {
                return Err(owned("language 需要字符串"));
            },
        };
        if !(str_eq(s, "auto") || str_eq(s, "zh") || str_eq(s, "en") || str_eq(s, "ja") || str_eq(s, "ko")) {
            let mut e = String::new();
            push_str(&mut e, "language 非法值 '");
            push_str(&mut e, s);
            push_str(&mut e, "'（应为 auto/zh/en/ja/ko）");
            return Err(e);
        }
        cfg.language = owned(s);
    } else if str_eq(key, "ui_language") {
        let s = match &value.as_str {
            Some(s) => s.as_str(),
            None => {
                return Err(owned("ui_language 需要字符串"));
            },
        };
        if !(str_eq(s, "zh-CN") || str_eq(s, "en")) {
            let mut e = String::new();
            push_str(&mut e, "ui_language 非法值 '");
            push_str(&mut e, s);
            push_str(&mut e, "'（应为 zh-CN/en）");
            return Err(e);
        }
        cfg.ui_language = owned(s);
    } else if str_eq(key, "engine_mode") {
        let s = match &value.as_str {
            Some(s) => s.as_str(),
            None => {
                return Err(owned("engine_mode 需要字符串"));
            },
        };
        if !(str_eq(s, "embedded") || str_eq(s, "websocket") || str_eq(s, "grpc")) {
            let mut e = String::new();
            push_str(&mut e, "engine_mode 非法值 '");
            push_str(&mut e, s);
            push_str(&mut e, "'（应为 embedded/websocket/grpc）");
            return Err(e);
        }
        cfg.engine_mode = owned(s);
    } else if str_eq(key, "polish_mode") {
        let n = match value.as_u64 {
            Some(n) => n,
            None => {
                return Err(owned("polish_mode 需要 0/1/2"));
            },
        };
        if n > 2 {
            let mut e = String::new();
            push_str(&mut e, "polish_mode=");
            push_u64_digits(&mut e, n);
            push_str(&mut e, " 非法（应为 0/1/2）");
            return Err(e);
        }
        match u8_to_polish_mode(n as u8) {
            Some(pm) => {
                cfg.polish_mode = pm;
            },
            None => {
                let mut e = String::new();
                push_str(&mut e, "polish_mode=");
                push_u64_digits(&mut e, n);
                push_str(&mut e, " 非法（应为 0/1/2）");
                return Err(e);
            },
        }
    } else if str_eq(key, "denoise_mode") {
        let n = match value.as_u64 {
            Some(n) => n,
            None => {
                return Err(owned("denoise_mode 需要 0/1/2"));
            },
        };
        if n > 2 {
            let mut e = String::new();
            push_str(&mut e, "denoise_mode=");
            push_u64_digits(&mut e, n);
            push_str(&mut e, " 非法（应为 0/1/2）");
            return Err(e);
        }
        cfg.denoise_mode = n as u8;
    } else if str_eq(key, "asr_hardware_accelerated") {
        match value.as_bool {
            Some(x) => {
                cfg.asr_hardware_accelerated = x;
            },
            None => {
                return Err(owned("asr_hardware_accelerated 需要 bool"));
            },
        }
    } else if str_eq(key, "asr_correct") {
        match value.as_bool {
            Some(x) => {
                cfg.asr_correct = x;
            },
            None => {
                return Err(owned("asr_correct 需要 bool"));
            },
        }
    } else if str_eq(key, "fuzzy_dialect") {
        let s = match &value.as_str {
            Some(s) => s.as_str(),
            None => {
                return Err(owned("fuzzy_dialect 需要字符串"));
            },
        };
        match first_bad_dialect_token(s) {
            Some(t) => {
                let mut e = String::new();
                push_str(&mut e, "fuzzy_dialect 非法 token '");
                push_str(&mut e, t.as_str());
                push_str(&mut e, "'（应为 f/h、hu/wu、n/l、r/l 子集）");
                return Err(e);
            },
            None => {
                cfg.fuzzy_dialect = owned(s);
            },
        }
    } else if str_eq(key, "output_simplified") {
        match value.as_bool {
            Some(x) => {
                cfg.output_simplified = x;
            },
            None => {
                return Err(owned("output_simplified 需要 bool"));
            },
        }
    } else {
        return apply_config_value_b(cfg, key, value);
    }
    Ok(None)
}

fn apply_config_value_b(cfg: &mut AppConfig, key: &str, value: &ConfigValue) -> (r: Result<Option<FloatSetting>, String>)
    ensures
        ({
            let (res, after) = apply_spec_b(old(cfg)@, key@, value.view());
            &&& final(cfg)@ == after
            &&& match (r, res) {
                (Ok(a), Ok(b)) => a == b,
                (Err(a), Err(b)) => a@ == b,
                _ => false,
            }
        }),
{
    if str_eq(key, "hide_toolbar") {
        match value.as_bool {
            Some(x) => {
                cfg.hide_toolbar = x;
            },
            None => {
                return Err(owned("hide_toolbar 需要 bool"));
            },
        }
    } else if str_eq(key, "segment_silence") {
        if value.is_number {
            return Ok(Some(FloatSetting::SegmentSilence));
        }
        return Err(owned("segment_silence 需要数值"));
    } else if str_eq(key, "polish_min_interval") {
        if value.is_number {
            return Ok(Some(FloatSetting::PolishMinInterval));
        }
        return Err(owned("polish_min_interval 需要数值"));
    } else if str_eq(key, "pause_polish_threshold_ms") {
        if value.is_number {
            return Ok(Some(FloatSetting::PausePolishThresholdMs));
        }
        return Err(owned("pause_polish_threshold_ms 需要数值"));
    } else if str_eq(key, "asr_shortcut") {
        match &value.as_str {
            Some(s) => {
                cfg.asr_shortcut = owned(s.as_str());
            },
            None => {
                return Err(owned("asr_shortcut 需要字符串"));
            },
        }
    } else if str_eq(key, "edit_shortcut") {
        match &value.as_str {
            Some(s) => {
                cfg.edit_shortcut = owned(s.as_str());
            },
            None => {
                return Err(owned("edit_shortcut 需要字符串"));
            },
        }
    } else if str_eq(key, "edit_global_shortcut") {
        match &value.as_str {
            Some(s) => {
                cfg.edit_global_shortcut = owned(s.as_str());
            },
            None => {
                return Err(owned("edit_global_shortcut 需要字符串"));
            },
        }
    } else if str_eq(key, "polish_global_shortcut") {
        match &value.as_str {
            Some(s) => {
                cfg.polish_global_shortcut = owned(s.as_str());
            },
            None => {
                return Err(owned("polish_global_shortcut 需要字符串"));
            },
        }
    } else if str_eq(key, "clipboard_shortcut") {
        match &value.as_str {
            Some(s) => {
                cfg.clipboard_shortcut = owned(s.as_str());
            },
            None => {
                return Err(owned("clipboard_shortcut 需要字符串"));
            },
        }
    } else {
        return apply_config_value_c(cfg, key, value);
    }
    Ok(None)
}

fn apply_config_value_c(cfg: &mut AppConfig, key: &str, value: &ConfigValue) -> (r: Result<Option<FloatSetting>, String>)
    ensures
        ({
            let (res, after) = apply_spec_c(old(cfg)@, key@, value.view());
            &&& final(cfg)@ == after
            &&& match (r, res) {
                (Ok(a), Ok(b)) => a == b,
                (Err(a), Err(b)) => a@ == b,
                _ => false,
            }
        }),
{
    if str_eq(key, "clipboard_max_items") {
        match value.as_int {
            Some(x) => {
                if x < 10 {
                    return Err(owned("clipboard_max_items 必须 >= 10"));
                }
                cfg.clipboard_max_items = x;
            },
            None => {
                return Err(owned("clipboard_max_items 需要整数"));
            },
        }
    } else if str_eq(key, "clipboard_max_age_days") {
        match value.as_int {
            Some(x) => {
                if x < 1 {
                    return Err(owned("clipboard_max_age_days 必须 >= 1"));
                }
                cfg.clipboard_max_age_days = x;
            },
            None => {
                return Err(owned("clipboard_max_age_days 需要整数"));
            },
        }
    } else if str_eq(key, "clipboard_enabled") {
        match value.as_bool {
            Some(x) => {
                cfg.clipboard_enabled = x;
            },
            None => {
                return Err(owned("clipboard_enabled 需要 bool"));
            },
        }
    } else if str_eq(key, "clipboard_theme") {
        match &value.as_str {
            Some(s) => {
                cfg.clipboard_theme = owned(s.as_str());
            },
            None => {
                return Err(owned("clipboard_theme 需要字符串"));
            },
        }
    } else if str_eq(key, "action_bar_shortcut") {
        match &value.as_str {
            Some(s) => {
                cfg.action_bar_shortcut = owned(s.as_str());
            },
            None => {
                return Err(owned("action_bar_shortcut 需要字符串"));
            },
        }
    } else if str_eq(key, "action_bar_search_engine") {
        match &value.as_str {
            Some(s) => {
                cfg.action_bar_search_engine = owned(s.as_str());
            },
            None => {
                return Err(owned("action_bar_search_engine 需要字符串"));
            },
        }
    } else if str_eq(key, "screenshot_shortcut") {
        match &value.as_str {
            Some(s) => {
                cfg.screenshot_shortcut = owned(s.as_str());
            },
            None => {
                return Err(owned("screenshot_shortcut 需要字符串"));
            },
        }
    } else if str_eq(key, "switch_input_source_on_paste") {
        match value.as_bool {
            Some(x) => {
                cfg.switch_input_source_on_paste = x;
            },
            None => {
                return Err(owned("switch_input_source_on_paste 需要 bool"));
            },
        }
    } else if str_eq(key, "microphone") {
        match &value.as_str {
            Some(s) => {
                cfg.microphone = owned(s.as_str());
            },
            None => {
                return Err(owned("microphone 需要字符串"));
            },
        }
    } else {
        let mut e = String::new();
        push_str(&mut e, "未知配置字段: ");
        push_str(&mut e, key);
        return Err(e);
    }
    Ok(None)
}




/// A global shortcut that a setting registers.
#[derive(Clone, Copy, Debug, PartialEq, Eq, Structural)]
pub enum ShortcutSlot {
    Asr,
    EditGlobal,
    PolishGlobal,
    Clipboard,
    Screenshot,
    ActionBar,
}

/// The shortcut slot of a setting, if it is a shortcut the system registers.
pub open spec fn shortcut_slot(key: Seq<char>) -> Option<ShortcutSlot> {
    if key == "asr_shortcut"@ {
        Some(ShortcutSlot::Asr)
    } else if key == "edit_global_shortcut"@ {
        Some(ShortcutSlot::EditGlobal)
    } else if key == "polish_global_shortcut"@ {
        Some(ShortcutSlot::PolishGlobal)
    } else if key == "clipboard_shortcut"@ {
        Some(ShortcutSlot::Clipboard)
    } else if key == "screenshot_shortcut"@ {
        Some(ShortcutSlot::Screenshot)
    } else if key == "action_bar_shortcut"@ {
        Some(ShortcutSlot::ActionBar)
    } else {
        None
    }
}

/// The value of a shortcut slot in the settings.
pub open spec fn slot_value(c: AppConfigView, slot: ShortcutSlot) -> Seq<char> {
    match slot {
        ShortcutSlot::Asr => c.asr_shortcut,
        ShortcutSlot::EditGlobal => c.edit_global_shortcut,
        ShortcutSlot::PolishGlobal => c.polish_global_shortcut,
        ShortcutSlot::Clipboard => c.clipboard_shortcut,
        ShortcutSlot::Screenshot => c.screenshot_shortcut,
        ShortcutSlot::ActionBar => c.action_bar_shortcut,
    }
}

fn slot_of(key: &str) -> (r: Option<ShortcutSlot>)
    ensures
        r == shortcut_slot(key@),
{
    if str_eq(key, "asr_shortcut") {
        Some(ShortcutSlot::Asr)
    } else if str_eq(key, "edit_global_shortcut") {
        Some(ShortcutSlot::EditGlobal)
    } else if str_eq(key, "polish_global_shortcut") {
        Some(ShortcutSlot::PolishGlobal)
    } else if str_eq(key, "clipboard_shortcut") {
        Some(ShortcutSlot::Clipboard)
    } else if str_eq(key, "screenshot_shortcut") {
        Some(ShortcutSlot::Screenshot)
    } else if str_eq(key, "action_bar_shortcut") {
        Some(ShortcutSlot::ActionBar)
    } else {
        None
    }
}

fn slot_string(c: &AppConfig, slot: ShortcutSlot) -> (s: String)
    ensures
        s@ == slot_value(c@, slot),
{
    match slot {
        ShortcutSlot::Asr => owned(c.asr_shortcut.as_str()),
        ShortcutSlot::EditGlobal => owned(c.edit_global_shortcut.as_str()),
        ShortcutSlot::PolishGlobal => owned(c.polish_global_shortcut.as_str()),
        ShortcutSlot::Clipboard => owned(c.clipboard_shortcut.as_str()),
        ShortcutSlot::Screenshot => owned(c.screenshot_shortcut.as_str()),
        ShortcutSlot::ActionBar => owned(c.action_bar_shortcut.as_str()),
    }
}

/// What else a changed setting needs before and after it is kept.
pub struct SetConfigPlan {
    /// A floating-point setting whose value the caller checks and stores.
    pub float_setting: Option<FloatSetting>,
    /// A shortcut whose value changed: the slot, the old and the new
    /// shortcut. The new one must be registered (the old one put back when
    /// that fails) before the change is kept.
    pub reregister: Option<(ShortcutSlot, String, String)>,
    /// The fuzzy dialect changed: the hot-word index is rebuilt.
    pub reload_dialect: bool,
    /// A setting the running recognition session reads changed.
    pub update_runtime: bool,
    /// The clipboard history switch, when that is the setting changed.
    pub clipboard_recording: Option<bool>,
}

/// Settings the running session reads.
pub open spec fn runtime_key(key: Seq<char>) -> bool {
    key == "polish_mode"@ || key == "asr_correct"@ || key == "output_simplified"@ || key
        == "hide_toolbar"@
}

/// Applies one setting (as `apply_config_value`) and says what the change needs.
pub fn set_config(cfg: &mut AppConfig, key: &str, value: &ConfigValue) -> (r: Result<SetConfigPlan, String>)
    ensures
        ({
            let (res, after) = apply_spec(old(cfg)@, key@, value.view());
            &&& final(cfg)@ == after
            &&& match (r, res) {
                (Ok(p), Ok(f)) => {
                    &&& p.float_setting == f
                    &&& match shortcut_slot(key@) {
                        Some(slot) => if slot_value(after, slot) != slot_value(old(cfg)@, slot) {
                            p.reregister matches Some((sl, o, n)) && sl == slot && o@ == slot_value(
                                old(cfg)@,
                                slot,
                            ) && n@ == slot_value(after, slot)
                        } else {
                            p.reregister is None
                        },
                        None => p.reregister is None,
                    }
                    &&& p.reload_dialect == (key@ == "fuzzy_dialect"@)
                    &&& p.update_runtime == runtime_key(key@)
                    &&& p.clipboard_recording == (if key@ == "clipboard_enabled"@ {
                        Some(after.clipboard_enabled)
                    } else {
                        None
                    })
                },
                (Err(a), Err(b)) => a@ == b,
                _ => false,
            }
        }),
{
    let slot = slot_of(key);
    let old_value = match slot {
        Some(sl) => Some(slot_string(cfg, sl)),
        None => None,
    };
    let f = apply_config_value(cfg, key, value)?;
    let reregister = match slot {
        Some(sl) => {
            let new_value = slot_string(cfg, sl);
            let old_s = match old_value {
                Some(o) => o,
                None => String::new(),
            };
            if crate::text::str_eq(new_value.as_str(), old_s.as_str()) {
                None
            } else {
                Some((sl, old_s, new_value))
            }
        },
        None => None,
    };
    let update_runtime = str_eq(key, "polish_mode") || str_eq(key, "asr_correct") || str_eq(
        key,
        "output_simplified",
    ) || str_eq(key, "hide_toolbar");
    let clipboard_recording = if str_eq(key, "clipboard_enabled") {
        Some(cfg.clipboard_enabled)
    } else {
        None
    };
    Ok(SetConfigPlan {
        float_setting: f,
        reregister,
        reload_dialect: str_eq(key, "fuzzy_dialect"),
        update_runtime,
        clipboard_recording,
    })
}




/// A switch setting sent as a boolean is accepted and then reads back as the
/// value sent; every other setting stays as it was.
pub proof fn law_switch_setting_reads_back(c: AppConfigView, v: ValueView, b: bool)
    requires
        v.b == Some(b),
    ensures
        apply_spec(c, "asr_hardware_accelerated"@, v) == (
            Ok::<Option<FloatSetting>, Seq<char>>(None),
            AppConfigView { asr_hardware_accelerated: b, ..c },
        ),
        apply_spec(c, "asr_correct"@, v) == (
            Ok::<Option<FloatSetting>, Seq<char>>(None),
            AppConfigView { asr_correct: b, ..c },
        ),
        apply_spec(c, "output_simplified"@, v) == (
            Ok::<Option<FloatSetting>, Seq<char>>(None),
            AppConfigView { output_simplified: b, ..c },
        ),
        apply_spec(c, "hide_toolbar"@, v) == (
            Ok::<Option<FloatSetting>, Seq<char>>(None),
            AppConfigView { hide_toolbar: b, ..c },
        ),
        apply_spec(c, "clipboard_enabled"@, v) == (
            Ok::<Option<FloatSetting>, Seq<char>>(None),
            AppConfigView { clipboard_enabled: b, ..c },
        ),
        apply_spec(c, "switch_input_source_on_paste"@, v) == (
            Ok::<Option<FloatSetting>, Seq<char>>(None),
            AppConfigView { switch_input_source_on_paste: b, ..c },
        ),
{
    reveal_strlit("language");
    reveal_strlit("ui_language");
    reveal_strlit("engine_mode");
    reveal_strlit("polish_mode");
    reveal_strlit("denoise_mode");
    reveal_strlit("asr_hardware_accelerated");
    reveal_strlit("asr_correct");
    reveal_strlit("fuzzy_dialect");
    reveal_strlit("output_simplified");
    reveal_strlit("hide_toolbar");
    reveal_strlit("segment_silence");
    reveal_strlit("polish_min_interval");
    reveal_strlit("pause_polish_threshold_ms");
    reveal_strlit("asr_shortcut");
    reveal_strlit("edit_shortcut");
    reveal_strlit("edit_global_shortcut");
    reveal_strlit("polish_global_shortcut");
    reveal_strlit("clipboard_shortcut");
    reveal_strlit("clipboard_max_items");
    reveal_strlit("clipboard_max_age_days");
    reveal_strlit("clipboard_enabled");
    reveal_strlit("clipboard_theme");
    reveal_strlit("action_bar_shortcut");
    reveal_strlit("action_bar_search_engine");
    reveal_strlit("screenshot_shortcut");
    reveal_strlit("switch_input_source_on_paste");
    assert("asr_hardware_accelerated"@.len() == 24 && "language"@.len() == 8);
    assert("asr_hardware_accelerated"@.len() == 24 && "ui_language"@.len() == 11);
    assert("asr_hardware_accelerated"@.len() == 24 && "engine_mode"@.len() == 11);
    assert("asr_hardware_accelerated"@.len() == 24 && "polish_mode"@.len() == 11);
    assert("asr_hardware_accelerated"@.len() == 24 && "denoise_mode"@.len() == 12);
    assert("asr_correct"@.len() == 11 && "language"@.len() == 8);
    assert("asr_correct"@[0] == 'a' && "ui_language"@[0] == 'u');
    assert("asr_correct"@[0] == 'a' && "engine_mode"@[0] == 'e');
    assert("asr_correct"@[0] == 'a' && "polish_mode"@[0] == 'p');
    assert("asr_correct"@.len() == 11 && "denoise_mode"@.len() == 12);
    assert("asr_correct"@.len() == 11 && "asr_hardware_accelerated"@.len() == 24);
    assert("output_simplified"@.len() == 17 && "language"@.len() == 8);
    assert("output_simplified"@.len() == 17 && "ui_language"@.len() == 11);
    assert("output_simplified"@.len() == 17 && "engine_mode"@.len() == 11);
    assert("output_simplified"@.len() == 17 && "polish_mode"@.len() == 11);
    assert("output_simplified"@.len() == 17 && "denoise_mode"@.len() == 12);
    assert("output_simplified"@.len() == 17 && "asr_hardware_accelerated"@.len() == 24);
    assert("output_simplified"@.len() == 17 && "asr_correct"@.len() == 11);
    assert("output_simplified"@.len() == 17 && "fuzzy_dialect"@.len() == 13);
    assert("hide_toolbar"@.len() == 12 && "language"@.len() == 8);
    assert("hide_toolbar"@.len() == 12 && "ui_language"@.len() == 11);
    assert("hide_toolbar"@.len() == 12 && "engine_mode"@.len() == 11);
    assert("hide_toolbar"@.len() == 12 && "polish_mode"@.len() == 11);
    assert("hide_toolbar"@[0] == 'h' && "denoise_mode"@[0] == 'd');
    assert("hide_toolbar"@.len() == 12 && "asr_hardware_accelerated"@.len() == 24);
    assert("hide_toolbar"@.len() == 12 && "asr_correct"@.len() == 11);
    assert("hide_toolbar"@.len() == 12 && "fuzzy_dialect"@.len() == 13);
    assert("hide_toolbar"@.len() == 12 && "output_simplified"@.len() == 17);
    assert("clipboard_enabled"@.len() == 17 && "language"@.len() == 8);
    assert("clipboard_enabled"@.len() == 17 && "ui_language"@.len() == 11);
    assert("clipboard_enabled"@.len() == 17 && "engine_mode"@.len() == 11);
    assert("clipboard_enabled"@.len() == 17 && "polish_mode"@.len() == 11);
    assert("clipboard_enabled"@.len() == 17 && "denoise_mode"@.len() == 12);
    assert("clipboard_enabled"@.len() == 17 && "asr_hardware_accelerated"@.len() == 24);
    assert("clipboard_enabled"@.len() == 17 && "asr_correct"@.len() == 11);
    assert("clipboard_enabled"@.len() == 17 && "fuzzy_dialect"@.len() == 13);
    assert("clipboard_enabled"@[0] == 'c' && "output_simplified"@[0] == 'o');
    assert("clipboard_enabled"@.len() == 17 && "hide_toolbar"@.len() == 12);
    assert("clipboard_enabled"@.len() == 17 && "segment_silence"@.len() == 15);
    assert("clipboard_enabled"@.len() == 17 && "polish_min_interval"@.len() == 19);
    assert("clipboard_enabled"@.len() == 17 && "pause_polish_threshold_ms"@.len() == 25);
    assert("clipboard_enabled"@.len() == 17 && "asr_shortcut"@.len() == 12);
    assert("clipboard_enabled"@.len() == 17 && "edit_shortcut"@.len() == 13);
    assert("clipboard_enabled"@.len() == 17 && "edit_global_shortcut"@.len() == 20);
    assert("clipboard_enabled"@.len() == 17 && "polish_global_shortcut"@.len() == 22);
    assert("clipboard_enabled"@.len() == 17 && "clipboard_shortcut"@.len() == 18);
    assert("clipboard_enabled"@.len() == 17 && "clipboard_max_items"@.len() == 19);
    assert("clipboard_enabled"@.len() == 17 && "clipboard_max_age_days"@.len() == 22);
    assert("switch_input_source_on_paste"@.len() == 28 && "language"@.len() == 8);
    assert("switch_input_source_on_paste"@.len() == 28 && "ui_language"@.len() == 11);
    assert("switch_input_source_on_paste"@.len() == 28 && "engine_mode"@.len() == 11);
    assert("switch_input_source_on_paste"@.len() == 28 && "polish_mode"@.len() == 11);
    assert("switch_input_source_on_paste"@.len() == 28 && "denoise_mode"@.len() == 12);
    assert("switch_input_source_on_paste"@.len() == 28 && "asr_hardware_accelerated"@.len() == 24);
    assert("switch_input_source_on_paste"@.len() == 28 && "asr_correct"@.len() == 11);
    assert("switch_input_source_on_paste"@.len() == 28 && "fuzzy_dialect"@.len() == 13);
    assert("switch_input_source_on_paste"@.len() == 28 && "output_simplified"@.len() == 17);
    assert("switch_input_source_on_paste"@.len() == 28 && "hide_toolbar"@.len() == 12);
    assert("switch_input_source_on_paste"@.len() == 28 && "segment_silence"@.len() == 15);
    assert("switch_input_source_on_paste"@.len() == 28 && "polish_min_interval"@.len() == 19);
    assert("switch_input_source_on_paste"@.len() == 28 && "pause_polish_threshold_ms"@.len() == 25);
    assert("switch_input_source_on_paste"@.len() == 28 && "asr_shortcut"@.len() == 12);
    assert("switch_input_source_on_paste"@.len() == 28 && "edit_shortcut"@.len() == 13);
    assert("switch_input_source_on_paste"@.len() == 28 && "edit_global_shortcut"@.len() == 20);
    assert("switch_input_source_on_paste"@.len() == 28 && "polish_global_shortcut"@.len() == 22);
    assert("switch_input_source_on_paste"@.len() == 28 && "clipboard_shortcut"@.len() == 18);
    assert("switch_input_source_on_paste"@.len() == 28 && "clipboard_max_items"@.len() == 19);
    assert("switch_input_source_on_paste"@.len() == 28 && "clipboard_max_age_days"@.len() == 22);
    assert("switch_input_source_on_paste"@.len() == 28 && "clipboard_enabled"@.len() == 17);
    assert("switch_input_source_on_paste"@.len() == 28 && "clipboard_theme"@.len() == 15);
    assert("switch_input_source_on_paste"@.len() == 28 && "action_bar_shortcut"@.len() == 19);
    assert("switch_input_source_on_paste"@.len() == 28 && "action_bar_search_engine"@.len() == 24);
    assert("switch_input_source_on_paste"@.len() == 28 && "screenshot_shortcut"@.len() == 19);
}

/// A setting that is refused (unknown key or invalid value) leaves every
/// setting as it was, and so does an accepted floating-point setting, which
/// the caller keeps.
pub proof fn law_rejected_setting_changes_nothing(c: AppConfigView, key: Seq<char>, v: ValueView)
    ensures
        apply_spec(c, key, v).0 is Err ==> apply_spec(c, key, v).1 == c,
        apply_spec(c, key, v).0 matches Ok(Some(_)) ==> apply_spec(c, key, v).1 == c,
{
}

} // verus!
