//! The application settings that the library reads and changes.
use vstd::prelude::*;
use crate::text::owned;

verus! {

/// When transcripts are polished by the language model.
#[derive(Clone, Copy, Debug, PartialEq, Eq, Structural)]
pub enum PolishMode {
    Disabled,
    FinalOnly,
    Intermediate,
}

/// Application settings (the integer and text ones; the three timing settings
/// that are floating-point numbers are kept by the caller).
pub struct AppConfig {
    pub language: String,
    pub ui_language: String,
    pub engine_mode: String,
    pub polish_mode: PolishMode,
    pub denoise_mode: u8,
    pub asr_hardware_accelerated: bool,
    pub asr_correct: bool,
    pub fuzzy_dialect: String,
    pub output_simplified: bool,
    pub hide_toolbar: bool,
    pub asr_shortcut: String,
    pub edit_shortcut: String,
    pub edit_global_shortcut: String,
    pub polish_global_shortcut: String,
    pub clipboard_shortcut: String,
    pub clipboard_max_items: i64,
    pub clipboard_max_age_days: i64,
    pub clipboard_enabled: bool,
    pub clipboard_theme: String,
    pub action_bar_shortcut: String,
    pub action_bar_search_engine: String,
    pub screenshot_shortcut: String,
    pub switch_input_source_on_paste: bool,
    pub microphone: String,
    pub paste_method: String,
    pub write_to_clipboard: bool,
}

/// Settings by value.
pub struct AppConfigView {
    pub language: Seq<char>,
    pub ui_language: Seq<char>,
    pub engine_mode: Seq<char>,
    pub polish_mode: PolishMode,
    pub denoise_mode: u8,
    pub asr_hardware_accelerated: bool,
    pub asr_correct: bool,
    pub fuzzy_dialect: Seq<char>,
    pub output_simplified: bool,
    pub hide_toolbar: bool,
    pub asr_shortcut: Seq<char>,
    pub edit_shortcut: Seq<char>,
    pub edit_global_shortcut: Seq<char>,
    pub polish_global_shortcut: Seq<char>,
    pub clipboard_shortcut: Seq<char>,
    pub clipboard_max_items: i64,
    pub clipboard_max_age_days: i64,
    pub clipboard_enabled: bool,
    pub clipboard_theme: Seq<char>,
    pub action_bar_shortcut: Seq<char>,
    pub action_bar_search_engine: Seq<char>,
    pub screenshot_shortcut: Seq<char>,
    pub switch_input_source_on_paste: bool,
    pub microphone: Seq<char>,
    pub paste_method: Seq<char>,
    pub write_to_clipboard: bool,
}

impl View for AppConfig {
    type V = AppConfigView;

    open spec fn view(&self) -> AppConfigView {
        AppConfigView {
            language: self.language@,
            ui_language: self.ui_language@,
            engine_mode: self.engine_mode@,
            polish_mode: self.polish_mode,
            denoise_mode: self.denoise_mode,
            asr_hardware_accelerated: self.asr_hardware_accelerated,
            asr_correct: self.asr_correct,
            fuzzy_dialect: self.fuzzy_dialect@,
            output_simplified: self.output_simplified,
            hide_toolbar: self.hide_toolbar,
            asr_shortcut: self.asr_shortcut@,
            edit_shortcut: self.edit_shortcut@,
            edit_global_shortcut: self.edit_global_shortcut@,
            polish_global_shortcut: self.polish_global_shortcut@,
            clipboard_shortcut: self.clipboard_shortcut@,
            clipboard_max_items: self.clipboard_max_items,
            clipboard_max_age_days: self.clipboard_max_age_days,
            clipboard_enabled: self.clipboard_enabled,
            clipboard_theme: self.clipboard_theme@,
            action_bar_shortcut: self.action_bar_shortcut@,
            action_bar_search_engine: self.action_bar_search_engine@,
            screenshot_shortcut: self.screenshot_shortcut@,
            switch_input_source_on_paste: self.switch_input_source_on_paste,
            microphone: self.microphone@,
            paste_method: self.paste_method@,
            write_to_clipboard: self.write_to_clipboard,
        }
    }
}

impl Default for AppConfig {
    /// Neutral starting values: empty texts, switches off, zero numbers,
    /// polishing disabled. The stored settings replace them when loaded.
    fn default() -> (c: AppConfig)
        ensures
            c.language@ == Seq::<char>::empty(),
            c.ui_language@ == Seq::<char>::empty(),
            c.engine_mode@ == Seq::<char>::empty(),
            c.polish_mode == PolishMode::Disabled,
            c.denoise_mode == 0,
            !c.asr_hardware_accelerated,
            !c.asr_correct,
            c.fuzzy_dialect@ == Seq::<char>::empty(),
            !c.output_simplified,
            !c.hide_toolbar,
            c.asr_shortcut@ == Seq::<char>::empty(),
            c.edit_shortcut@ == Seq::<char>::empty(),
            c.edit_global_shortcut@ == Seq::<char>::empty(),
            c.polish_global_shortcut@ == Seq::<char>::empty(),
            c.clipboard_shortcut@ == Seq::<char>::empty(),
            c.clipboard_max_items == 0,
            c.clipboard_max_age_days == 0,
            !c.clipboard_enabled,
            c.clipboard_theme@ == Seq::<char>::empty(),
            c.action_bar_shortcut@ == Seq::<char>::empty(),
            c.action_bar_search_engine@ == Seq::<char>::empty(),
            c.screenshot_shortcut@ == Seq::<char>::empty(),
            !c.switch_input_source_on_paste,
            c.microphone@ == Seq::<char>::empty(),
            c.paste_method@ == Seq::<char>::empty(),
            !c.write_to_clipboard,
    {
        AppConfig {
            language: String::new(),
            ui_language: String::new(),
            engine_mode: String::new(),
            polish_mode: PolishMode::Disabled,
            denoise_mode: 0,
            asr_hardware_accelerated: false,
            asr_correct: false,
            fuzzy_dialect: String::new(),
            output_simplified: false,
            hide_toolbar: false,
            asr_shortcut: String::new(),
            edit_shortcut: String::new(),
            edit_global_shortcut: String::new(),
            polish_global_shortcut: String::new(),
            clipboard_shortcut: String::new(),
            clipboard_max_items: 0,
            clipboard_max_age_days: 0,
            clipboard_enabled: false,
            clipboard_theme: String::new(),
            action_bar_shortcut: String::new(),
            action_bar_search_engine: String::new(),
            screenshot_shortcut: String::new(),
            switch_input_source_on_paste: false,
            microphone: String::new(),
            paste_method: String::new(),
            write_to_clipboard: false,
        }
    }
}

} // verus!
