use octopus_desktop::finder_selection::{
    get_finder_selection, is_finder_frontmost, run_osascript_timeout, OsaOutcome,
};
use octopus_desktop::focus_tracker::{
    cached_bundle_id, cached_pid, clear_cached_pid, dispatch_copy, dispatch_paste,
    save_frontmost_pid, CopyDispatch, FocusCache, FocusTracker,
};
use octopus_desktop::input_source::{
    is_ascii_id, read_current_source_id, select_source, select_succeeded, InputSourceGuard,
    SwitchStep,
};
use octopus_desktop::keystroke::{
    copy, copy_to_pid, key_events, needs_osascript_fallback, paste_to_pid, paste_via_osascript,
    send_key_combo_to_pid, send_via_osascript, wkwebview_fallback_apps, KeyModifier, KeySend,
    KeyTarget, FLAG_COMMAND, FLAG_SHIFT, KEY_C, KEY_V,
};
use octopus_desktop::paste::{paste, PasteMethod, PasteStep};

#[test]
fn test_needs_osascript_fallback_wechat() {
    assert!(needs_osascript_fallback(Some("com.tencent.xinWeChat")));
}

#[test]
fn test_needs_osascript_fallback_sublime() {
    assert!(!needs_osascript_fallback(Some("com.sublimetext.4")));
}

#[test]
fn test_needs_osascript_fallback_doubao() {
    assert!(!needs_osascript_fallback(Some("com.electron.doubao")));
}

#[test]
fn test_needs_osascript_fallback_none() {
    assert!(!needs_osascript_fallback(None));
}

#[test]
fn test_wkwebview_fallback_list_contains_wechat() {
    let apps = wkwebview_fallback_apps();
    assert!(apps.contains(&"com.tencent.xinWeChat".to_string()));
    assert!(!apps.contains(&"com.sublimetext.4".to_string()));
}

#[test]
fn combo_to_non_positive_pid_broadcasts() {
    assert_eq!(send_key_combo_to_pid(KeyModifier::Command, KEY_V, 0).target, KeyTarget::Broadcast);
    assert_eq!(send_key_combo_to_pid(KeyModifier::Command, KEY_V, -3).target, KeyTarget::Broadcast);
    assert_eq!(paste_to_pid(412).target, KeyTarget::Pid(412));
    assert_eq!(copy_to_pid(9).key_code, KEY_C);
}

#[test]
fn combination_is_down_then_up_with_flags() {
    let ev = key_events(send_key_combo_to_pid(KeyModifier::CommandShift, 0x11, 5));
    assert_eq!(ev.len(), 2);
    assert!(ev[0].key_down);
    assert!(!ev[1].key_down);
    assert_eq!(ev[0].flags, FLAG_COMMAND | FLAG_SHIFT);
    assert_eq!(ev[1].key_code, 0x11);
    assert_eq!(ev[1].target, KeyTarget::Pid(5));
}

#[test]
fn keystroke_script_names_key_and_modifiers() {
    let s = send_via_osascript("c", "command down");
    assert!(s.starts_with("tell application \"System Events\"\n"));
    assert!(s.contains("keystroke \"c\" using command down\n"));
    assert!(!s.contains("tell frontProc"));
    assert!(s.ends_with("end tell"));
}

#[test]
fn ascii_id_detection() {
    assert!(is_ascii_id("com.apple.keylayout.ABC"));
    assert!(is_ascii_id("com.apple.keylayout.US"));
    assert!(!is_ascii_id("com.apple.inputmethod.SCIM.ITABC"));
    assert!(!is_ascii_id("com.apple.keylayout.Pinyin"));
}

#[test]
fn input_source_switch_steps() {
    match InputSourceGuard::switch_to_ascii(Some("com.apple.keylayout.ABC".to_string())) {
        SwitchStep::Done(g) => assert!(g.is_none()),
        SwitchStep::Select(_) => panic!("already ASCII"),
    }
    match InputSourceGuard::switch_to_ascii(None) {
        SwitchStep::Done(g) => assert!(g.is_none()),
        SwitchStep::Select(_) => panic!("unknown source"),
    }
    let ime = "com.apple.inputmethod.SCIM.ITABC".to_string();
    match InputSourceGuard::switch_to_ascii(Some(ime.clone())) {
        SwitchStep::Select(id) => assert_eq!(id, "com.apple.keylayout.ABC"),
        SwitchStep::Done(_) => panic!("should switch"),
    }
    match InputSourceGuard::after_select(ime.clone(), "com.apple.keylayout.ABC", false) {
        SwitchStep::Select(id) => assert_eq!(id, "com.apple.keylayout.US"),
        SwitchStep::Done(_) => panic!("should try US"),
    }
    match InputSourceGuard::after_select(ime.clone(), "com.apple.keylayout.US", false) {
        SwitchStep::Done(g) => assert!(g.is_none()),
        SwitchStep::Select(_) => panic!("gives up after US"),
    }
    match InputSourceGuard::after_select(ime.clone(), "com.apple.keylayout.US", true) {
        SwitchStep::Done(Some(g)) => assert_eq!(g.restore_id(), ime),
        _ => panic!("guard expected"),
    }
}

#[test]
fn input_source_script_output() {
    assert_eq!(read_current_source_id("  com.apple.keylayout.ABC\n"), Some("com.apple.keylayout.ABC".to_string()));
    assert_eq!(read_current_source_id(" \n"), None);
    assert!(select_succeeded("true\n"));
    assert!(!select_succeeded("false"));
    let s = select_source("com.apple.keylayout.US");
    assert!(s.contains("if (srcId === 'com.apple.keylayout.US') {"));
    assert!(s.starts_with("\nObjC.import('Carbon')\n"));
}

#[test]
fn test_is_finder_frontmost_returns_bool() {
    let _ = is_finder_frontmost(None);
    assert!(is_finder_frontmost(Some("com.apple.finder")));
    assert!(!is_finder_frontmost(Some("com.apple.Safari")));
}

#[test]
fn finder_selection_lines() {
    let out = OsaOutcome::Finished {
        success: true,
        stdout: "/Users/a/x.txt\n  /Users/a/y z.pdf  \n\n".to_string(),
        stderr: String::new(),
    };
    assert_eq!(
        get_finder_selection(out),
        Ok(vec!["/Users/a/x.txt".to_string(), "/Users/a/y z.pdf".to_string()])
    );
    assert_eq!(get_finder_selection(OsaOutcome::TimedOut), Err("osascript 超时（可能等待自动化权限对话框）".to_string()));
    assert_eq!(
        run_osascript_timeout(OsaOutcome::SpawnFailed("no such file".to_string())),
        Err("osascript 执行失败: no such file".to_string())
    );
    assert_eq!(
        run_osascript_timeout(OsaOutcome::Finished { success: false, stdout: String::new(), stderr: "denied".to_string() }),
        Err("denied".to_string())
    );
}

#[test]
fn focus_cache_skips_self_and_is_used_once() {
    let mut cache = FocusCache::new();
    save_frontmost_pid(&mut cache, Some((42, Some("com.apple.TextEdit".to_string()), "TextEdit".to_string())));
    assert_eq!(cached_pid(&cache), Some(42));
    save_frontmost_pid(&mut cache, Some((7, None, "octopus".to_string())));
    save_frontmost_pid(&mut cache, Some((8, None, "osascript-helper".to_string())));
    assert_eq!(cached_pid(&cache), Some(42));
    assert_eq!(cached_bundle_id(&cache), Some("com.apple.TextEdit".to_string()));
    let tracker = FocusTracker::new();
    let front = Some((99, Some("com.other".to_string()), "Other".to_string()));
    match tracker.simulate_paste(&mut cache, &front) {
        KeySend::Combo(c) => assert_eq!(c.target, KeyTarget::Pid(42)),
        KeySend::Script(_) => panic!("combo expected"),
    }
    assert_eq!(cached_pid(&cache), None);
    match tracker.simulate_paste(&mut cache, &front) {
        KeySend::Combo(c) => assert_eq!(c.target, KeyTarget::Pid(99)),
        KeySend::Script(_) => panic!("combo expected"),
    }
    save_frontmost_pid(&mut cache, Some((5, None, "Notes".to_string())));
    assert_eq!(cached_bundle_id(&cache), Some(String::new()));
    clear_cached_pid(&mut cache);
    assert_eq!(cached_pid(&cache), None);
}

#[test]
fn dispatch_routes_by_application() {
    let wechat = Some((3, Some("com.tencent.xinWeChat".to_string()), "WeChat".to_string()));
    match dispatch_copy(&wechat) {
        (KeySend::Script(s), CopyDispatch::Osascript) => assert!(s.contains("keystroke \"c\" using command down")),
        _ => panic!("script expected"),
    }
    match dispatch_paste(&wechat) {
        KeySend::Script(s) => assert_eq!(s, paste_via_osascript()),
        KeySend::Combo(_) => panic!("script expected"),
    }
    match dispatch_copy(&None) {
        (KeySend::Combo(c), CopyDispatch::CGEvent) => assert_eq!(c, copy()),
        _ => panic!("broadcast expected"),
    }
}

#[test]
fn paste_method_and_steps() {
    assert_eq!(PasteMethod::from("direct"), PasteMethod::Direct);
    assert_eq!(PasteMethod::from("none"), PasteMethod::NoPaste);
    assert_eq!(PasteMethod::from("anything"), PasteMethod::Clipboard);
    assert_eq!(paste("none", true, true), vec![PasteStep::WriteClipboard]);
    assert_eq!(paste("direct", false, true), vec![PasteStep::TypeText]);
    let steps = paste("clipboard", false, true);
    assert_eq!(steps.first(), Some(&PasteStep::BackupClipboard));
    assert_eq!(steps.last(), Some(&PasteStep::RestoreClipboard));
    assert!(steps.contains(&PasteStep::SwitchToAscii));
    assert!(steps.contains(&PasteStep::Sleep(200)));
    let steps = paste("clipboard", true, false);
    assert_eq!(steps.len(), 4);
}
