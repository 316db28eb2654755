use octopus_desktop::activation::{
    is_regular_window, should_hide_on_float, FloatFocus, FocusReturn, WindowEntry,
};

#[test]
fn is_regular_window_matches_fixed_and_prefix() {
    assert!(is_regular_window("settings_window"));
    assert!(is_regular_window("compact_editor_window"));
    assert!(is_regular_window("terminal_1"));
    assert!(is_regular_window("terminal_42"));
    assert!(is_regular_window("terminal_action_agent"));
    assert!(!is_regular_window("clipboard_window"));
    assert!(!is_regular_window("action_bar_window"));
    assert!(!is_regular_window("main"));
    assert!(!is_regular_window(""));
    assert!(!is_regular_window("terminal"));
}

#[test]
fn should_hide_on_float_excludes_clipboard_includes_terminal() {
    assert!(should_hide_on_float("settings_window"));
    assert!(should_hide_on_float("compact_editor_window"));
    assert!(should_hide_on_float("terminal_1"));
    assert!(should_hide_on_float("terminal_action_agent"));
    assert!(!should_hide_on_float("clipboard_window"));
    assert!(!should_hide_on_float("action_bar_window"));
    assert!(!should_hide_on_float("overlay_window"));
}

#[test]
fn float_depth_lifecycle() {
    let mut f = FloatFocus::new();
    assert_eq!(f.float_depth_increment(), 1);
    assert_eq!(f.float_depth_increment(), 2);
    assert!(!f.float_depth_decrement_and_is_zero());
    assert!(f.float_depth_decrement_and_is_zero());

    let mut f = FloatFocus::new();
    assert!(f.float_depth_decrement_and_is_zero());
    assert!(f.float_depth_decrement_and_is_zero());

    let mut f = FloatFocus::new();
    f.float_depth_increment();
    f.was_inactive = true;
    assert!(f.float_depth_decrement_and_is_zero());
    f.float_clear_state();
    assert!(!f.was_inactive);

    let mut f = FloatFocus::new();
    f.float_depth_increment();
    f.was_inactive = true;
    f.float_depth_increment();
    assert!(!f.float_depth_decrement_and_is_zero());
    assert!(f.was_inactive, "an inner close keeps the outer state");
    assert!(f.float_depth_decrement_and_is_zero());
    f.float_clear_state();
    assert!(!f.was_inactive);

    let mut f = FloatFocus::new();
    f.float_depth_increment();
    f.was_inactive = true;
    f.float_depth_increment();
    f.float_depth_increment();
    assert!(!f.float_depth_decrement_and_is_zero());
    assert!(f.was_inactive);
    assert!(!f.float_depth_decrement_and_is_zero());
    assert!(f.was_inactive);
    assert!(f.float_depth_decrement_and_is_zero());
    f.float_clear_state();
    assert!(!f.was_inactive);
}

fn windows(v: &[(&str, bool)]) -> Vec<WindowEntry> {
    v.iter()
        .map(|(l, vis)| WindowEntry { label: l.to_string(), visible: *vis })
        .collect()
}

#[test]
fn outer_show_records_and_close_returns_focus() {
    let mut f = FloatFocus::new();
    let ws = windows(&[("settings_window", true), ("clipboard_window", true), ("terminal_2", false)]);
    let hidden = f.before_floating_window_show(false, Some(77), 1, &ws, true);
    assert_eq!(hidden, vec!["settings_window".to_string()]);
    assert_eq!(f.prev_app, Some(77));
    let inner = f.before_floating_window_show(true, Some(1), 1, &ws, true);
    assert!(inner.is_empty());
    let out = f.after_floating_window_hide();
    assert_eq!(out.focus, FocusReturn::Keep);
    assert!(out.show.is_empty());
    let out = f.after_floating_window_hide();
    assert_eq!(out.focus, FocusReturn::Activate(77));
    assert_eq!(out.show, vec!["settings_window".to_string()]);
    assert_eq!(f.depth, 0);
    assert!(f.temp_hidden.is_empty());
}

#[test]
fn close_without_front_app_deactivates() {
    let mut f = FloatFocus::new();
    let ws = windows(&[]);
    f.before_floating_window_show(false, Some(1), 1, &ws, false);
    let out = f.after_floating_window_hide();
    assert_eq!(out.focus, FocusReturn::Deactivate);
}
