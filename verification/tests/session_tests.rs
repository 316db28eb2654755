use std::io::Write;
use octopus_desktop::activation::{activate_self, activate_window_by_pid, activation_outcome, SelfActivation};
use octopus_desktop::bookmarks::chromium_bookmarks_of_file;
use octopus_desktop::permission::{
    accessibility_status, microphone_status, privacy_settings_url, screen_capture_status,
    PermissionStatus, PrivacySection,
};
use octopus_desktop::ptt::{handle_hotkey_event, FsmAction, PttFsm};
use octopus_desktop::record::{build_default_config, request_mic_device, DisplayInfo, SourceKind, VideoCodec};
use octopus_desktop::record_overlay::{
    control_window_url, recording_window, OverlayPoller, OverlayTick, RecordingWindow,
};
use octopus_desktop::record_hotkey::{handle_stop, handle_toggle, stop_hotkey_wanted, RecordState, ToggleAction};
use octopus_desktop::record_stop::{
    broken_file_message, find_recording_file, recording_file_suffix, stop_store_step,
    subtitle_files, StopStep,
};
use octopus_desktop::result_window::ResultWindowState;
use octopus_desktop::screenshot_session::{
    area_picker_window_label, focus_window, match_capture, screenshot_window_label, CaptureKey, BusyGate,
    ShowBarrier,
};
use octopus_desktop::scroll::{screenshot_window_labels, ScrollPoller, ScrollSession};
use octopus_desktop::search::{
    file_candidates, search_bookmarks, search_files, search_menus_and_quicklinks, BookmarkEntry, MenuRow,
};
use octopus_desktop::settings_window::{SettingsOpen, SettingsWindowState};
use octopus_desktop::text::i64_decimal;
use octopus_desktop::surrounding::{
    build_surrounding, degraded_surrounding, AppKind, FallbackSource, SurroundingPlan,
};
use octopus_desktop::sys_open::{open_failed, open_with_default, reveal_failed, reveal_path, Platform};

fn strings(v: &[&str]) -> Vec<String> {
    v.iter().map(|s| s.to_string()).collect()
}

#[test]
fn scroll_session_refuses_second_start() {
    let mut s = ScrollSession::new();
    assert!(s.start().is_ok());
    let e = s.start().unwrap_err();
    assert_eq!(e, "Scroll recording is already in progress");
    s.stop();
    assert!(!s.recording);
    assert!(s.start().is_ok());
}

#[test]
fn scroll_session_save_mode_reaches_finish_and_resets() {
    let mut s = ScrollSession::new();
    s.start().unwrap();
    s.stop_with_mode("save");
    assert!(!s.recording);
    let f = s.finish();
    assert!(f.store);
    assert!(f.save_dialog);
    assert_eq!(s.stop_code, 0);
    let again = s.finish();
    assert!(again.store);
    assert!(!again.save_dialog);
}

#[test]
fn scroll_session_cancel_discards() {
    let mut s = ScrollSession::new();
    s.start().unwrap();
    s.stop_with_mode("cancel");
    let f = s.finish();
    assert!(!f.store);
    assert!(!f.save_dialog);
}

#[test]
fn scroll_session_unknown_mode_copies() {
    let mut s = ScrollSession::new();
    s.stop_with_mode("whatever");
    let f = s.finish();
    assert!(f.store);
    assert!(!f.save_dialog);
}

#[test]
fn poller_sends_passthrough_only_on_change() {
    let mut p = ScrollPoller::new();
    let a = p.tick(false, false, false);
    assert_eq!(a.set_passthrough, None);
    let b = p.tick(true, false, false);
    assert_eq!(b.set_passthrough, Some(false));
    let c = p.tick(true, false, false);
    assert_eq!(c.set_passthrough, None);
    let d = p.tick(false, false, false);
    assert_eq!(d.set_passthrough, Some(true));
}

#[test]
fn poller_right_click_outside_selection_stops_once() {
    let mut p = ScrollPoller::new();
    assert!(p.tick(false, true, false).stop);
    assert!(!p.tick(false, true, false).stop);
    assert!(!p.tick(false, false, false).stop);
    assert!(!p.tick(false, true, true).stop);
}

#[test]
fn poller_checks_app_every_fifty_passthrough_ticks() {
    let mut p = ScrollPoller::new();
    for _ in 0..49 {
        assert!(!p.tick(false, false, false).check_under_mouse);
    }
    assert!(p.tick(false, false, false).check_under_mouse);
    assert_eq!(p.check_count, 0);
    assert!(!p.tick(false, false, false).check_under_mouse);
}

#[test]
fn poller_activates_only_new_app() {
    let mut p = ScrollPoller::new();
    assert!(p.app_under_mouse(42));
    assert!(!p.app_under_mouse(42));
    assert!(p.app_under_mouse(7));
}

#[test]
fn screenshot_labels_filtered_in_order() {
    let ls = strings(&["main", "screenshot_1_0", "result_window", "screenshot_1_1"]);
    let r = screenshot_window_labels(&ls);
    assert_eq!(r, strings(&["screenshot_1_0", "screenshot_1_1"]));
}

#[test]
fn recording_suffix_and_lookup() {
    assert_eq!(recording_file_suffix(1722000000123), "_1722000000123.mp4");
    let names = strings(&["2024-01-01_10.00.00_5.mp4", "x_1722000000123.mp4", "y_1722000000123.mp4"]);
    assert_eq!(find_recording_file(&names, 1722000000123), Some(1));
    assert_eq!(find_recording_file(&names, 99), None);
}

#[test]
fn signed_decimal_text() {
    assert_eq!(i64_decimal(0), "0");
    assert_eq!(i64_decimal(-42), "-42");
    assert_eq!(i64_decimal(i64::MIN), "-9223372036854775808");
    assert_eq!(i64_decimal(i64::MAX), "9223372036854775807");
}

#[test]
fn stop_step_refuses_broken_file_first() {
    assert_eq!(stop_store_step(None, false), StopStep::Broken);
    assert_eq!(stop_store_step(Some(0), true), StopStep::Broken);
    assert_eq!(stop_store_step(Some(10), true), StopStep::Discard);
    assert_eq!(stop_store_step(Some(10), false), StopStep::Store);
    assert_eq!(broken_file_message("/tmp/a.mp4"), "录制文件异常: /tmp/a.mp4");
}

#[test]
fn subtitle_files_of_recording() {
    let names = strings(&["rec.mp4", "rec.1.srt", "rec.srt", "other.1.srt", "rec.2.srt", "rec.2.txt"]);
    assert_eq!(subtitle_files(&names, "rec"), vec![1, 2, 4]);
}

#[test]
fn activation_by_pid_finds_first() {
    let pids = vec![10, 20, 30, 20];
    assert_eq!(activate_window_by_pid(&pids, 20), Some(1));
    assert_eq!(activate_window_by_pid(&pids, 99), None);
    assert_eq!(activate_self(false, &pids, 30), SelfActivation::Skip);
    assert_eq!(activate_self(true, &pids, 30), SelfActivation::Activate(Some(2)));
    assert_eq!(activate_self(true, &pids, 5), SelfActivation::Activate(None));
}

#[test]
fn screenshot_gate_one_at_a_time() {
    let mut g = BusyGate::new();
    assert!(g.try_start_screenshot().is_ok());
    assert_eq!(g.try_start_screenshot().unwrap_err(), "screenshot already in progress");
    g.leave();
    assert!(g.try_start_screenshot().is_ok());
    let mut p = BusyGate::new();
    assert!(p.try_start_area_picker().is_ok());
    assert_eq!(p.try_start_area_picker().unwrap_err(), "area picker already in progress");
}

#[test]
fn capture_matching_order() {
    let cs = vec![
        CaptureKey { monitor_x: 0, monitor_y: 0, width: 2880, height: 1800 },
        CaptureKey { monitor_x: 2880, monitor_y: 0, width: 3840, height: 2160 },
    ];
    assert_eq!(match_capture(&cs, 2880, 0, 3840, 2160, 0), Some(1));
    assert_eq!(match_capture(&cs, 100, 100, 3840, 2160, 0), Some(1));
    assert_eq!(match_capture(&cs, 100, 100, 1, 1, 0), Some(0));
    assert_eq!(match_capture(&cs, 100, 100, 1, 1, 5), None);
    assert_eq!(screenshot_window_label(1722000000000, 1), "screenshot_1722000000000_1");
}

#[test]
fn record_hotkey_states() {
    assert_eq!(handle_toggle(RecordState::Idle), ToggleAction::ShowRecordWindow);
    assert_eq!(handle_toggle(RecordState::Starting), ToggleAction::ShowRecordWindow);
    assert_eq!(handle_toggle(RecordState::Recording), ToggleAction::Pause);
    assert_eq!(handle_toggle(RecordState::Paused), ToggleAction::Resume);
    assert_eq!(handle_toggle(RecordState::Stopping), ToggleAction::Ignore);
    assert!(handle_stop(RecordState::Recording));
    assert!(handle_stop(RecordState::Paused));
    assert!(!handle_stop(RecordState::Idle));
    assert!(stop_hotkey_wanted(RecordState::Paused));
    assert!(!stop_hotkey_wanted(RecordState::Stopping));
}

#[test]
fn chromium_walk_document_order() {
    let file = r#"{"roots": {"children": [{"children": [
        {"type": "url", "name": "Google", "url": "https://google.com"},
        {"type": "folder", "name": "Dev", "children": [
            {"type": "url", "name": "GitHub", "url": "https://github.com"},
            {"type": "url", "name": "", "url": "https://empty.example"},
            {"type": "url", "name": "NoUrl"},
            {"type": "url", "name": 7, "url": "https://number.example"}
        ]}
    ]}]}}"#;
    let r = chromium_bookmarks_of_file(file, "Chrome");
    assert_eq!(r.len(), 2);
    assert_eq!(r[0].title, "Google");
    assert_eq!(r[1].title, "GitHub");
    assert_eq!(r[1].url, "https://github.com");
    assert_eq!(r[1].browser, "Chrome");
    assert!(chromium_bookmarks_of_file(r#"{"version": 1}"#, "Edge").is_empty());
    assert!(chromium_bookmarks_of_file("not json", "Edge").is_empty());
    assert!(chromium_bookmarks_of_file(r#"{"roots": {"children": 3}}"#, "Edge").is_empty());
}

#[test]
fn bookmark_search_best_first() {
    let bms = vec![
        BookmarkEntry { title: "GitHub".into(), url: "https://github.com".into(), browser: "Chrome".into() },
        BookmarkEntry { title: "Google".into(), url: "https://google.com".into(), browser: "Chrome".into() },
        BookmarkEntry { title: "GitLab".into(), url: "https://gitlab.com".into(), browser: "Edge".into() },
    ];
    let r = search_bookmarks(&bms, &vec![Some(50), None, Some(80)]);
    assert_eq!(r.len(), 2);
    assert_eq!(r[0].title, "GitLab");
    assert_eq!(r[0].score, 80);
    assert_eq!(r[0].subtitle, "[Edge] https://gitlab.com");
    assert_eq!(r[1].title, "GitHub");
}

#[test]
fn file_candidates_first_twenty_lines() {
    let mut out = String::new();
    for i in 0..25 {
        out.push_str(&format!("/Users/a/doc{}.txt\n", i));
    }
    let cs = file_candidates(&out);
    assert_eq!(cs.len(), 20);
    assert_eq!(cs[3].path, "/Users/a/doc3.txt");
    assert_eq!(cs[3].name, "doc3.txt");
    let r = search_files(&cs, &(0..20).map(|i| if i % 2 == 0 { Some(i) } else { None }).collect());
    assert_eq!(r.len(), 10);
    assert_eq!(r[0].title, "doc18.txt");
    assert_eq!(r[0].action_data, "{\"path\":\"/Users/a/doc18.txt\"}");
}

#[test]
fn menu_search_skips_disabled_and_submenus() {
    let rows = vec![
        MenuRow { id: 1, title: "Open".into(), action_type: "url".into(), action_data: "https://a".into(), is_enabled: true },
        MenuRow { id: 2, title: "More".into(), action_type: "submenu".into(), action_data: "".into(), is_enabled: true },
        MenuRow { id: 3, title: "Off".into(), action_type: "shell".into(), action_data: "ls".into(), is_enabled: false },
    ];
    let r = search_menus_and_quicklinks(&rows, &vec![Some(5), Some(9), Some(9)]);
    assert_eq!(r.len(), 1);
    assert_eq!(r[0].source, "menu");
    assert_eq!(r[0].subtitle, "url");
    assert_eq!(r[0].action_data, "{\"action_data\":\"https://a\",\"action_type\":\"url\",\"id\":1}");
}

#[test]
fn sys_open_commands() {
    let m = reveal_path(Platform::MacOs, "/a/b.mp4", "/a");
    assert_eq!(m.program, "open");
    assert_eq!(m.args, strings(&["-R", "/a/b.mp4"]));
    assert!(m.check_status);
    let w = reveal_path(Platform::Windows, "C:\\x.mp4", "C:\\");
    assert_eq!(w.args, strings(&["/select,C:\\x.mp4"]));
    assert!(!w.check_status);
    let l = reveal_path(Platform::Linux, "/a/b.mp4", "/a");
    assert_eq!(l.program, "xdg-open");
    assert_eq!(l.args, strings(&["/a"]));
    let o = open_with_default(Platform::Windows, "https://x");
    assert_eq!(o.program, "cmd");
    assert_eq!(o.args, strings(&["/c", "start", "", "https://x"]));
    assert_eq!(reveal_failed("exit status: 1", "/a"), "定位失败（exit exit status: 1）: /a");
    assert_eq!(open_failed("exit status: 2", "x"), "打开失败（exit exit status: 2）: x");
}

#[test]
fn result_window_early_text_waits() {
    let mut w = ResultWindowState::new();
    assert!(!w.show_result("hello"));
    assert!(!w.update_result("hello world"));
    assert_eq!(w.clear_result(), None);
    assert!(!w.update_result("again"));
    assert_eq!(w.result_window_ready(), Some("again".to_string()));
    assert!(w.show_result("next"));
    assert_eq!(w.result_window_ready(), None);
}

#[test]
fn result_window_new_text_cancels_hide() {
    let mut w = ResultWindowState::new();
    w.result_window_ready();
    w.show_result("a");
    let k = w.clear_result().unwrap();
    assert!(w.hide_due(k));
    w.show_result("b");
    assert!(!w.hide_due(k));
    let h = w.hide_result().unwrap();
    assert!(w.hide_due(h));
}

#[test]
fn settings_window_keeps_requested_page() {
    let mut s = SettingsWindowState::new();
    assert!(matches!(s.open_settings(false, Some("models".into())), SettingsOpen::Create));
    assert_eq!(s.get_initial_page(), Some("models".to_string()));
    assert_eq!(s.get_initial_page(), None);
    match s.open_settings(true, Some("prompts".into())) {
        SettingsOpen::Focus(nav) => assert_eq!(nav, Some("prompts".to_string())),
        SettingsOpen::Create => panic!("window exists"),
    }
    assert!(matches!(s.open_settings(true, None), SettingsOpen::Focus(None)));
    assert_eq!(s.get_initial_page(), Some("prompts".to_string()));
}

#[test]
fn permission_mapping() {
    assert_eq!(screen_capture_status(false), PermissionStatus::NotDetermined);
    assert_eq!(screen_capture_status(true), PermissionStatus::Granted);
    assert_eq!(accessibility_status(false), PermissionStatus::Denied);
    assert_eq!(microphone_status(true), PermissionStatus::Granted);
    assert_eq!(
        privacy_settings_url(PrivacySection::Microphone),
        "x-apple.systempreferences:com.apple.preference.security?Privacy_Microphone"
    );
}

#[test]
fn default_record_config_from_settings() {
    let ds = vec![
        DisplayInfo { id: 5, is_primary: false, width: 1920, height: 1080 },
        DisplayInfo { id: 1, is_primary: true, width: 2880, height: 1800 },
    ];
    let c = build_default_config(
        &ds,
        Some("60".into()),
        Some("hevc".into()),
        None,
        None,
        Some("true".into()),
        Some("".into()),
        Some("USB Mic".into()),
    )
    .unwrap();
    assert_eq!(c.display_id, 1);
    assert_eq!((c.width, c.height), (2880, 1800));
    assert_eq!(c.fps, 60);
    assert_eq!(c.codec, VideoCodec::Hevc);
    assert!(!c.hide_system_cursor);
    assert!(c.system_audio);
    assert!(c.microphone);
    assert_eq!(c.microphone_device, Some("USB Mic".to_string()));
    let d = build_default_config(&ds[..1].to_vec(), Some("abc".into()), None, None, Some("false".into()), None, None, None)
        .unwrap();
    assert_eq!(d.display_id, 5);
    assert_eq!(d.fps, 30);
    assert_eq!(d.codec, VideoCodec::H264);
    assert!(!d.system_audio);
    let e = build_default_config(&vec![], None, None, None, None, None, None, None);
    assert_eq!(e.err(), Some("找不到可用显示器（helper --list-displays 返回空）".to_string()));
}

#[test]
fn request_mic_device_falls_back_when_on() {
    assert_eq!(request_mic_device(false, None, Some("A".into()), None), None);
    assert_eq!(request_mic_device(true, None, Some("A".into()), None), Some("A".to_string()));
    assert_eq!(request_mic_device(true, Some("  B ".into()), Some("A".into()), None), Some("B".to_string()));
}

#[test]
fn hotkey_event_only_for_registered_key() {
    let mut fsm = PttFsm::new();
    assert_eq!(handle_hotkey_event(Some(3), 4, true, &mut fsm, 0, 1000), FsmAction::NoAction);
    assert_eq!(fsm, PttFsm::Idle);
    assert_eq!(handle_hotkey_event(None, 3, true, &mut fsm, 0, 1000), FsmAction::NoAction);
    assert_eq!(fsm, PttFsm::Idle);
    handle_hotkey_event(Some(3), 3, true, &mut fsm, 0, 1000);
    assert_eq!(fsm, PttFsm::Pending { timer_start: 1000 });
}

#[test]
fn windows_shown_when_all_ready() {
    let mut b = ShowBarrier::new();
    b.window_created();
    b.window_created();
    assert!(b.must_force_show());
    assert!(!b.window_ready());
    assert!(b.window_ready());
    assert!(!b.must_force_show());
    b.reset();
    assert!(!b.window_ready());
}

#[test]
fn picker_labels_and_focus() {
    assert_eq!(area_picker_window_label(77, 0), "record_area_picker_77_0");
    let ls = strings(&["record_area_picker_77_1", "record_area_picker_77_0", "x_0"]);
    assert_eq!(focus_window(&ls), Some(1));
    assert_eq!(focus_window(&strings(&["a_1"])), None);
}

#[test]
fn empty_query_returns_empty() {
    assert!(!octopus_desktop::search::file_query_long_enough(""));
    let r = search_files(&vec![], &vec![]);
    assert!(r.is_empty());
}

#[test]
fn single_char_returns_empty() {
    assert!(!octopus_desktop::search::file_query_long_enough("x"));
}

#[test]
fn surrounding_plan_for_self_drawn_editor() {
    match build_surrounding(AppKind::Editor, "foo", Some("UNREGISTERED".into()), Some("a.txt".into()), "com.sublimetext.4") {
        SurroundingPlan::Fallback(v) => assert_eq!(
            v,
            vec![FallbackSource::SublimePlugin, FallbackSource::OpenFiles, FallbackSource::TitleFile]
        ),
        _ => panic!("expected fallback"),
    }
    match build_surrounding(AppKind::Editor, "foo", Some("a foo b".into()), None, "com.x") {
        SurroundingPlan::AroundRange(t) => assert_eq!(t, "a foo b"),
        _ => panic!("expected range"),
    }
    match build_surrounding(AppKind::Unknown, "x", Some("a\u{0}b".into()), None, "") {
        SurroundingPlan::AroundRange(t) => assert_eq!(t, "ab"),
        _ => panic!("expected range"),
    }
}

#[test]
fn surrounding_plan_for_terminal() {
    match build_surrounding(AppKind::Terminal, "foo", Some("line1\nfoo\nline3".into()), Some("zsh".into()), "") {
        SurroundingPlan::Terminal(s) => {
            assert_eq!(s.before, Some("line1".to_string()));
            assert_eq!(s.after, Some("\nline3".to_string()));
            assert_eq!(s.window_title, Some("zsh".to_string()));
        }
        _ => panic!("expected terminal"),
    }
    let d = degraded_surrounding(Some("t".into()));
    assert_eq!((d.before, d.after, d.window_title), (None, None, Some("t".to_string())));
}

#[test]
fn exact_file_match_skips_partial_names() {
    let out = "/a/report.docx.bak\n\n/b/old_report.docx\n/c/report.docx\n/d/report.docx\n";
    assert_eq!(
        octopus_desktop::file_hint::find_exact_file(out, "report.docx"),
        Some("/c/report.docx".to_string())
    );
    assert_eq!(octopus_desktop::file_hint::find_exact_file(out, "x.txt"), None);
}

fn zip_bytes(files: &[(&str, &str)]) -> Vec<u8> {
    let mut w = zip::ZipWriter::new(std::io::Cursor::new(Vec::new()));
    for (name, body) in files {
        w.start_file(*name, zip::write::SimpleFileOptions::default()).unwrap();
        w.write_all(body.as_bytes()).unwrap();
    }
    w.finish().unwrap().into_inner()
}

#[test]
fn zip_entries_read_names_and_bytes() {
    let bytes = zip_bytes(&[("a.txt", "hello"), ("word/document.xml", "<w:p><w:t>Hi there</w:t></w:p>")]);
    let entries = octopus_desktop::archive::zip_entries(bytes).unwrap();
    assert_eq!(entries.len(), 2);
    let first = entries[0].as_ref().unwrap();
    assert_eq!(first.name, "a.txt");
    assert_eq!(first.data.as_deref(), Some(&b"hello"[..]));
    assert_eq!(
        octopus_desktop::document::read_ooxml_text(&entries, "docx"),
        Some("Hi there".to_string())
    );
    assert!(octopus_desktop::archive::zip_entries(b"not a zip".to_vec()).is_none());
}

#[test]
fn prompt_rules() {
    assert_eq!(octopus_desktop::prompts::check_prompt_title("  ").unwrap_err(), "title 不能为空");
    assert!(octopus_desktop::prompts::check_prompt_title(" 润色 ").is_ok());
    assert_eq!(octopus_desktop::prompts::missing_prompt_error(7), "prompt id=7 不存在");
    assert_eq!(octopus_desktop::prompts::active_after_delete(5, 5), (1, true));
    assert_eq!(octopus_desktop::prompts::active_after_delete(5, 3), (5, false));
    assert_eq!(octopus_desktop::prompts::active_prompt_or_default(None), 1);
    assert!(octopus_desktop::prompts::refresh_after_update(4, 4));
    assert!(!octopus_desktop::prompts::refresh_after_update(4, 2));
}

#[test]
fn overlay_poller_modes() {
    let mut p = OverlayPoller::new();
    assert_eq!(p.tick(true, false, None), OverlayTick::Keep);
    assert_eq!(p.tick(true, true, Some(false)), OverlayTick::SetIgnore(true));
    assert_eq!(p.tick(true, true, Some(false)), OverlayTick::Keep);
    assert_eq!(p.tick(true, true, None), OverlayTick::Keep);
    assert_eq!(p.tick(true, true, Some(true)), OverlayTick::SetIgnore(false));
    assert_eq!(p.tick(true, true, Some(false)), OverlayTick::SetIgnore(true));
    assert_eq!(p.tick(true, false, Some(false)), OverlayTick::SetIgnore(false));
    assert_eq!(p.tick(false, true, Some(false)), OverlayTick::Stop);
}

#[test]
fn recording_windows_by_source() {
    assert_eq!(recording_window(SourceKind::Area), RecordingWindow::Annotation);
    assert_eq!(recording_window(SourceKind::Display), RecordingWindow::ControlPill);
    assert_eq!(control_window_url(SourceKind::Window), "record-control.html?source=window");
}

#[test]
fn scroll_escape_stops_in_copy_mode() {
    let mut s = ScrollSession::new();
    s.start().unwrap();
    s.stop_with_mode("save");
    s.stop_copy();
    let f = s.finish();
    assert!(f.store);
    assert!(!f.save_dialog);
    s.start().unwrap();
    s.release();
    assert!(s.start().is_ok());
}

// The fuzzy scores stand for what the matcher gives for the query: "git"
// matches the title "GitHub" and nothing of the other bookmark.
#[test]
fn search_bookmarks_matches_title() {
    let bookmarks = vec![
        BookmarkEntry { title: "GitHub".into(), url: "https://github.com".into(), browser: "Chrome".into() },
        BookmarkEntry { title: "Google".into(), url: "https://google.com".into(), browser: "Chrome".into() },
    ];
    let results = search_bookmarks(&bookmarks, &vec![Some(72), None]);
    assert!(!results.is_empty());
    assert_eq!(results[0].title, "GitHub");
}

// An empty query matches nothing.
#[test]
fn search_bookmarks_empty_query_returns_empty() {
    let bookmarks = vec![
        BookmarkEntry { title: "GitHub".into(), url: "https://github.com".into(), browser: "Chrome".into() },
    ];
    let results = search_bookmarks(&bookmarks, &vec![None]);
    assert!(results.is_empty());
}

#[test]
fn activation_outcome_needs_found_and_activated() {
    let running = vec![10, 42, 42];
    let found = activate_window_by_pid(&running, 42);
    assert_eq!(found, Some(1));
    assert!(activation_outcome(found, true));
    assert!(!activation_outcome(found, false));
    let missing = activate_window_by_pid(&running, 7);
    assert_eq!(missing, None);
    assert!(!activation_outcome(missing, true));
}
