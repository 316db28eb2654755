use octopus_desktop::document::{
    document_kind, pages_fragments, read_ooxml_text, read_pages_text, read_plain_text,
    read_xlsx_text, try_officecli_text, DocKind, PlainContent, ZipEntry,
};
use octopus_desktop::record::{
    capitalize, check_merge_tracks, derive_fields_from_request, list_filter, merge_ffmpeg_args,
    merged_title, merged_track, parse_bool_config, resolve_mic_device_name, subtitle_llm_option,
    ListRecordingsParams, RecordingRequest, SourceKind,
};
use octopus_desktop::record_audio_probe::{audio_tracks_from_streams, parse_u32_str, FfprobeStream};
use octopus_desktop::screenshot_geometry::{compute_preview_crop, compute_preview_height, format_file_size};
use octopus_desktop::scroll::{finish_for_code, stop_mode_code, stop_mode_from_code, stop_mode_from_name, ScrollStopMode};
use octopus_desktop::search::{
    bookmark_result, execute_shell_result, file_query_long_enough, init_search_engine, json_escape_str,
    top_by_score, BookmarkEntry, SearchResult,
};
use octopus_desktop::text::decimal_string;
use octopus_desktop::streaming::{append_final_punctuation, EngineCategory, StreamingSession};
use octopus_desktop::surrounding::{
    browser_context, browser_script, escape_js_string, fallback_sources,
    is_text_element, needs_editor_fallback, terminal_surrounding, try_sublime_plugin_context,
    AppKind, BrowserFields, FallbackSource,
};

#[test]
fn preview_crop_small_canvas() {
    let (src_h, y) = compute_preview_crop(500, 800, 400, 1200);
    assert_eq!(src_h, 500);
    assert_eq!(y, 0);
}

#[test]
fn preview_crop_large_canvas() {
    let (src_h, y) = compute_preview_crop(5000, 800, 400, 1200);
    assert_eq!(src_h, 2400);
    assert_eq!(y, 5000 - 2400);
}

#[test]
fn preview_height_and_size_label() {
    assert_eq!(compute_preview_height(400, 2400, 800, 1200), 1200);
    assert_eq!(compute_preview_height(400, 500, 800, 1200), 250);
    assert_eq!(format_file_size(0), Some("0K".to_string()));
    assert_eq!(format_file_size(511), Some("0K".to_string()));
    assert_eq!(format_file_size(512), Some("0K".to_string()));
    assert_eq!(format_file_size(513), Some("1K".to_string()));
    assert_eq!(format_file_size(1024 * 1024 - 1), Some("1024K".to_string()));
    assert_eq!(format_file_size(1024 * 1024), None);
}

#[test]
fn resolve_mic_device_name_explicit_non_empty_wins() {
    assert_eq!(
        resolve_mic_device_name(Some("  UGREEN USB MIC  "), None, None),
        Some("UGREEN USB MIC".to_string())
    );
}

#[test]
fn resolve_mic_device_name_explicit_empty_does_not_return_empty() {
    let result1 = resolve_mic_device_name(Some("   "), None, None);
    let result2 = resolve_mic_device_name(Some(""), None, None);
    assert!(result1.is_none() || !result1.as_deref().unwrap_or("").trim().is_empty());
    assert!(result2.is_none() || !result2.as_deref().unwrap_or("").trim().is_empty());
}

#[test]
fn resolve_mic_device_name_falls_back_to_asr_config() {
    let result = resolve_mic_device_name(None, Some(String::new()), Some("UGREEN USB MIC-CM769".into()));
    assert_eq!(result, Some("UGREEN USB MIC-CM769".to_string()));
    let result = resolve_mic_device_name(Some(" "), Some("Rec Mic".into()), Some("ASR Mic".into()));
    assert_eq!(result, Some("Rec Mic".to_string()));
}

#[test]
fn record_bookkeeping() {
    assert!(parse_bool_config(Some("true".into()), false));
    assert!(!parse_bool_config(Some("yes".into()), true));
    assert!(parse_bool_config(None, true));
    let req = RecordingRequest {
        recording_id: 5,
        source: SourceKind::Window,
        width: 1280,
        height: 720,
        system_audio_enabled: true,
        microphone_enabled: false,
        microphone_device: None,
    };
    let m = derive_fields_from_request(&req, None, Some("Mic".into())).unwrap();
    assert_eq!(m.source_type, "window");
    assert_eq!(m.mic_device_name, Some("Mic".to_string()));
    let f = list_filter(None);
    assert_eq!((f.limit, f.offset, f.include_deleted, f.favorites_only), (0, 0, false, false));
    let f = list_filter(Some(ListRecordingsParams { limit: 20, offset: 40, include_deleted: true, favorites_only: false }));
    assert_eq!((f.limit, f.offset, f.include_deleted), (20, 40, true));
    assert_eq!(check_merge_tracks(1), Err("不是多音轨录屏，无需合并".to_string()));
    assert!(check_merge_tracks(2).is_ok());
    let args = merge_ffmpeg_args("/r/a.mp4", "/r/a.merged.mp4");
    assert_eq!(args.len(), 16);
    assert_eq!(args[2], "/r/a.mp4");
    assert_eq!(args[15], "/r/a.merged.mp4");
    assert_eq!(merged_title(""), "merged");
    assert_eq!(merged_title("Demo"), "Demo (merged)");
    let t = merged_track(None);
    assert_eq!((t.codec.as_str(), t.sample_rate, t.channels), ("aac", 48000, 2));
    let t = merged_track(Some(("opus".into(), 44100, 1)));
    assert_eq!((t.codec.as_str(), t.sample_rate, t.channels), ("opus", 44100, 1));
    assert_eq!(capitalize("openai"), "Openai");
    assert_eq!(capitalize(""), "");
    assert_eq!(capitalize("ßx"), "SSx");
    let o = subtitle_llm_option("openai", "gpt-4o");
    assert_eq!(o.key, "openai:gpt-4o");
    assert_eq!(o.label, "gpt-4o (Openai)");
}

#[test]
fn ffprobe_streams_to_tracks() {
    let streams = vec![
        FfprobeStream { codec_type: "video".into(), codec_name: Some("h264".into()), sample_rate: None, channels: None },
        FfprobeStream { codec_type: "audio".into(), codec_name: Some("aac".into()), sample_rate: Some("48000".into()), channels: Some(2) },
        FfprobeStream { codec_type: "audio".into(), codec_name: None, sample_rate: Some("x".into()), channels: None },
    ];
    let t = audio_tracks_from_streams(&streams);
    assert_eq!(t.len(), 2);
    assert_eq!((t[0].index, t[0].codec.as_str(), t[0].sample_rate, t[0].channels), (1, "aac", 48000, 2));
    assert_eq!((t[1].index, t[1].codec.as_str(), t[1].sample_rate, t[1].channels), (2, "", 0, 0));
    assert_eq!(parse_u32_str("+7"), Some(7));
    assert_eq!(parse_u32_str("4294967296"), None);
}

#[test]
fn paraformer_text_accumulates_with_commas() {
    let mut s = StreamingSession::new("para", Some(EngineCategory::Paraformer)).unwrap();
    assert_eq!(s.accept_samples(Some("你好".into()), true), Some("你好".to_string()));
    assert_eq!(s.accept_samples(None, false), None);
    assert_eq!(s.accept_samples(Some("世界".into()), true), Some("你好，世界".to_string()));
    assert_eq!(s.finish(String::new()), "你好，世界。");
    s.reset();
    assert_eq!(s.finish("ok!".into()), "ok!");
    let mut z = StreamingSession::new("zip", Some(EngineCategory::Zipformer)).unwrap();
    assert_eq!(z.accept_samples(Some("full".into()), true), Some("full".to_string()));
    assert_eq!(z.finish("full text".into()), "full text");
    match StreamingSession::new("w", Some(EngineCategory::Other("Whisper".into()))) {
        Err(e) => assert_eq!(e, "Engine 'w' (Whisper) does not support streaming. Only Paraformer and Zipformer are supported."),
        Ok(_) => panic!("whisper does not stream"),
    }
    match StreamingSession::new("q", None) {
        Err(e) => assert_eq!(e, "Unknown streaming engine: q"),
        Ok(_) => panic!("unknown engine"),
    }
    let mut t = String::from("done?");
    append_final_punctuation(&mut t);
    assert_eq!(t, "done?");
    let mut t = String::new();
    append_final_punctuation(&mut t);
    assert_eq!(t, "");
}

#[test]
fn scroll_stop_modes() {
    assert_eq!(stop_mode_from_name("save"), ScrollStopMode::Save);
    assert_eq!(stop_mode_from_name("cancel"), ScrollStopMode::Cancel);
    assert_eq!(stop_mode_from_name("whatever"), ScrollStopMode::Copy);
    for m in [ScrollStopMode::Copy, ScrollStopMode::Save, ScrollStopMode::Cancel] {
        assert_eq!(stop_mode_from_code(stop_mode_code(m)), m);
    }
    assert_eq!(stop_mode_from_code(9), ScrollStopMode::Copy);
    let f = finish_for_code(2);
    assert!(!f.store && !f.save_dialog);
    let f = finish_for_code(1);
    assert!(f.store && f.save_dialog);
}

fn res(title: &str, score: i32) -> SearchResult {
    SearchResult {
        source: "app".into(),
        title: title.into(),
        subtitle: String::new(),
        action_type: "launch_app".into(),
        action_data: String::new(),
        score,
    }
}

#[test]
fn search_empty_returns_empty() {
    let engine = init_search_engine(vec![]);
    let results = engine.search("", "all", vec![res("a", 1)], vec![], vec![], vec![]);
    assert!(results.is_empty());
}

#[test]
fn shell_mode_prefix() {
    let engine = init_search_engine(vec![]);
    let results = engine.search("> ls", "shell", vec![], vec![], vec![], vec![]);
    assert_eq!(results.len(), 1);
    assert_eq!(results[0].source, "shell");
    assert_eq!(results[0].action_type, "shell");
    assert_eq!(results[0].title, "▶ ls");
    assert_eq!(results[0].action_data, "{\"command\":\"ls\"}");
}

#[test]
fn search_merges_by_score_and_keeps_ten() {
    let engine = init_search_engine(vec![]);
    let apps = vec![res("a1", 50), res("a2", 10)];
    let files: Vec<SearchResult> = (0..12).map(|i| res(&format!("f{}", i), 100)).collect();
    let results = engine.search("x", "all", apps, vec![res("m", 120)], files, vec![]);
    assert_eq!(results.len(), 10);
    assert_eq!(results[0].title, "a1");
    assert_eq!(results[0].score, 150);
    assert_eq!(results[1].title, "m");
    assert_eq!(results[2].title, "a2");
    assert_eq!(results[2].score, 110);
    assert_eq!(results[3].title, "f0");
    assert_eq!(results[9].title, "f6");
    let results = engine.search("x", "files", vec![res("a", 1)], vec![], vec![res("f", 3)], vec![]);
    assert_eq!(results.len(), 1);
    assert_eq!(results[0].title, "f");
}

#[test]
fn search_helpers() {
    assert!(!file_query_long_enough(""));
    assert!(!file_query_long_enough("x"));
    assert!(file_query_long_enough("xy"));
    assert!(file_query_long_enough("中"));
    assert_eq!(json_escape_str("a\"b\\c\n\u{1}"), "a\\\"b\\\\c\\n\\u0001");
    let bm = BookmarkEntry { title: "GitHub".into(), url: "https://github.com".into(), browser: "Chrome".into() };
    let r = bookmark_result(&bm, 7);
    assert_eq!(r.subtitle, "[Chrome] https://github.com");
    assert_eq!(r.action_data, "{\"url\":\"https://github.com\"}");
    let top = top_by_score(vec![res("a", 1), res("b", 3), res("c", 3)], 2);
    assert_eq!(top.iter().map(|r| r.title.as_str()).collect::<Vec<_>>(), vec!["b", "c"]);
    assert_eq!(execute_shell_result(false, "exit status: 1", String::new(), "boom".into()), Err("exit: exit status: 1\nboom".to_string()));
    assert_eq!(execute_shell_result(true, "", String::new(), "warn".into()), Ok("warn".to_string()));
    let long: String = "x".repeat(100 * 1024 + 1);
    let out = execute_shell_result(true, "", long, String::new()).unwrap();
    assert!(out.ends_with("...（输出已截断）"));
    assert_eq!(out.chars().count(), 100 * 1024 + "...（输出已截断）".chars().count());
}

#[test]
fn surrounding_decisions() {
    assert!(is_text_element("AXTextArea"));
    assert!(!is_text_element("AXGroup"));
    assert!(needs_editor_fallback(AppKind::Editor, "x", "UNREGISTERED"));
    assert!(needs_editor_fallback(AppKind::Editor, "x", "  "));
    assert!(!needs_editor_fallback(AppKind::Editor, " x ", "a x b"));
    assert!(!needs_editor_fallback(AppKind::Terminal, "x", ""));
    assert!(!needs_editor_fallback(AppKind::Editor, "", ""));
    assert_eq!(
        fallback_sources("com.sublimetext.4", true),
        vec![FallbackSource::SublimePlugin, FallbackSource::OpenFiles, FallbackSource::TitleFile]
    );
    assert_eq!(
        fallback_sources("com.apple.iWork.Pages", false),
        vec![FallbackSource::PagesScript, FallbackSource::OpenFiles]
    );
    let (b, a) = terminal_surrounding("$ ls\nfoo bar\n$ ", " foo ");
    assert_eq!(b.as_deref(), Some("$ ls"));
    assert_eq!(a.as_deref(), Some(" bar\n$ "));
    let (b, a) = terminal_surrounding("l1\nl2", "zzz");
    assert_eq!(b.as_deref(), Some("l1\nl2"));
    assert_eq!(a, None);
    assert_eq!(terminal_surrounding("", "x"), (None, None));
}

#[test]
fn sublime_and_browser_context() {
    let c = try_sublime_plugin_context("abc SEL def", 4, 7, Some("/x/notes.md"), "SEL").unwrap();
    assert_eq!(c.before.as_deref(), Some("abc "));
    assert_eq!(c.after.as_deref(), Some(" def"));
    assert_eq!(c.window_title.as_deref(), Some("notes.md"));
    assert!(try_sublime_plugin_context("abc", 0, 1, None, "zzz").is_none());
    assert!(try_sublime_plugin_context("", 0, 1, None, "").is_none());
    assert_eq!(escape_js_string("a\"b\\\n\u{2028}"), "a\\\"b\\\\\\n\\u2028");
    let s = browser_script("com.apple.Safari", "/tmp/x.js").unwrap();
    assert!(s.contains("do JavaScript jsCode in document 1"));
    assert!(s.contains("read POSIX file \"/tmp/x.js\""));
    let s = browser_script("com.microsoft.edgemac", "/tmp/y.js").unwrap();
    assert!(s.starts_with("tell application \"Microsoft Edge\""));
    assert!(browser_script("org.mozilla.firefox", "/tmp/y.js").is_none());
    let none = browser_context("{}", BrowserFields { before: Some(String::new()), after: None, title: None });
    assert!(none.is_none());
    let (st, d) = browser_context("{\"a\":1}", BrowserFields { before: Some("b".into()), after: Some(String::new()), title: Some("T".into()) }).unwrap();
    assert_eq!(st.before.as_deref(), Some("b"));
    assert_eq!(st.after, None);
    assert_eq!(st.window_title.as_deref(), Some("T"));
    assert_eq!(d.as_deref(), Some("browser: AppleScript execute javascript (7 chars result)"));
    assert_eq!(decimal_string(1234567), "1234567");
}

fn entry(name: &str, data: &str) -> Option<ZipEntry> {
    Some(ZipEntry { name: name.into(), data: Some(data.as_bytes().to_vec()) })
}

#[test]
fn document_reading() {
    assert_eq!(document_kind("/a/b.PDF"), Some(DocKind::Pdf));
    assert_eq!(document_kind("/a/b.docx"), Some(DocKind::Docx));
    assert_eq!(document_kind("/a/b.md"), Some(DocKind::Plain));
    assert_eq!(document_kind("/a/Makefile"), None);
    assert!(matches!(read_plain_text(b""), PlainContent::Empty));
    assert!(matches!(read_plain_text(b"PK\x03\x04rest"), PlainContent::Zip));
    match read_plain_text(b"hi \xff") {
        PlainContent::Text(t) => assert_eq!(t, "hi \u{FFFD}"),
        _ => panic!("text expected"),
    }
    assert_eq!(try_officecli_text(true, b"[/body/p[1]] Hello\n[/body/p[2]] World\n"), Some("Hello\nWorld".to_string()));
    assert_eq!(try_officecli_text(true, b"[/body/p[1]] \n"), None);
    assert_eq!(try_officecli_text(false, b"x"), None);
    let docx = vec![
        entry("[Content_Types].xml", "<x/>"),
        entry("word/document.xml", "<w:p><w:r><w:t>Body</w:t></w:r></w:p>"),
    ];
    assert_eq!(read_ooxml_text(&docx, "docx").map(|s| s.trim().to_string()), Some("Body".to_string()));
    assert_eq!(read_ooxml_text(&docx, "pptx"), None);
    let broken = vec![None, entry("word/document.xml", "<w:t>x</w:t>")];
    assert_eq!(read_ooxml_text(&broken, "docx"), None);
    let xlsx = vec![
        entry("xl/sharedStrings.xml", "<sst><si><t>Name</t></si><si><t>Age</t></si></sst>"),
        entry("xl/worksheets/sheet1.xml", "<sheetData><row><c r=\"A1\" t=\"s\"><v>0</v></c><c r=\"B1\" t=\"s\"><v>1</v></c><c r=\"C1\"><v>42</v></c></row></sheetData>"),
    ];
    assert_eq!(read_xlsx_text(&xlsx), Some("Name\tAge\t42".to_string()));
    let mut buf = b"\x01Hello Pages text\x00".to_vec();
    buf.extend_from_slice(b"ab\x00");
    assert_eq!(pages_fragments(&buf), vec!["Hello Pages text".to_string()]);
    let pages = vec![
        entry("Index/Other.iwa", "zzz"),
        Some(ZipEntry { name: "Index/Document.iwa".into(), data: Some(buf.clone()) }),
    ];
    assert_eq!(read_pages_text(&pages), Some("Hello Pages text".to_string()));
}

#[test]
fn resolve_mic_device_name_blank_settings_count_as_unset() {
    assert_eq!(resolve_mic_device_name(Some("   "), Some("   ".into()), Some("\t".into())), None);
    assert_eq!(
        resolve_mic_device_name(Some(""), Some("  ".into()), Some("ASR Mic".into())),
        Some("ASR Mic".to_string())
    );
    assert_eq!(
        resolve_mic_device_name(None, Some(" Rec Mic ".into()), Some("ASR Mic".into())),
        Some(" Rec Mic ".to_string())
    );
}
