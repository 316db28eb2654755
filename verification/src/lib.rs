//! Decision and text-processing core of the Octopus desktop assistant.
pub mod text;
pub mod json;
pub mod ptt;
pub mod activation;
pub mod doc_text;
pub mod context_text;
pub mod keystroke;
pub mod focus_tracker;
pub mod input_source;
pub mod finder_selection;
pub mod paste;
pub mod unicode;
pub mod file_hint;
pub mod document;
pub mod archive;
pub mod surrounding;
pub mod config;
pub mod runtime_config;
pub mod settings;
pub mod screenshot_geometry;
pub mod record;
pub mod streaming;
pub mod scroll;
pub mod search;
pub mod bookmarks;
pub mod record_audio_probe;
pub mod record_stop;
pub mod screenshot_session;
pub mod record_hotkey;
pub mod record_overlay;
pub mod sys_open;
pub mod result_window;
pub mod settings_window;
pub mod permission;
pub mod prompts;
pub mod screenshot_result;
