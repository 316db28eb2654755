use octopus_desktop::context_text::{
    char_level_slice, extract_sublime_selection, merge_cjk_line_breaks, slice_around_text,
    strip_control_chars, truncate_text_head, truncate_text_tail, try_slice_around_text,
};
use octopus_desktop::doc_text::extract_text_from_ooxml_xml;
use octopus_desktop::file_hint::{
    ax_error_desc, bundle_id_to_procname, extract_filename_from_title, filter_lsof_doc_files,
    find_file_in_session_json, name_result_is_app_name, path_matches_filename, SessionWindow,
};

#[test]
fn test_strip_null_bytes() {
    let input = "\0项\0目\0是\0多\0\0crate\0Rust";
    assert_eq!(strip_control_chars(input), "项目是多crateRust");
}

#[test]
fn test_strip_keeps_newlines_tabs() {
    let input = "line1\n\0line2\t\0end\r\n";
    assert_eq!(strip_control_chars(input), "line1\nline2\tend\r\n");
}

#[test]
fn test_strip_cjk_no_nulls() {
    let input = "你好世界 hello";
    assert_eq!(strip_control_chars(input), "你好世界 hello");
}

#[test]
fn test_strip_all_control() {
    let input = "\0\0\0\x01\x02\x03";
    assert_eq!(strip_control_chars(input), "");
}

#[test]
fn test_strip_normal_text_unchanged() {
    let input = "正常文本 without any control chars";
    assert_eq!(strip_control_chars(input), input);
}

#[test]
fn test_ax_error_desc_known() {
    assert_eq!(ax_error_desc(-25212), "kAXErrorAPIDisabled (AX API 被禁用——检查辅助功能权限)");
    assert_eq!(ax_error_desc(-25205), "kAXErrorCannotComplete (操作无法完成)");
    assert_eq!(ax_error_desc(-25200), "kAXErrorFailure (通用失败)");
    assert_eq!(ax_error_desc(0), "kAXErrorSuccess (成功)");
}

#[test]
fn test_ax_error_desc_unknown() {
    assert_eq!(ax_error_desc(-99999), "未知 AX 错误码");
}

#[test]
fn test_tail_by_lines() {
    let s = "l1\nl2\nl3\nl4\nl5\nSELECTED";
    let result = truncate_text_tail(s, 2, 1000).unwrap();
    let lines: Vec<&str> = result.lines().collect();
    assert_eq!(lines.len(), 2);
    assert_eq!(lines[0], "l5");
    assert_eq!(lines[1], "SELECTED");
}

#[test]
fn test_tail_by_chars() {
    let s = "abcdefghijklmnopqrstuvwxyz";
    let result = truncate_text_tail(s, 1000, 5).unwrap();
    assert_eq!(result, "vwxyz");
}

#[test]
fn test_tail_empty() {
    assert_eq!(truncate_text_tail("", 10, 10), None);
}

#[test]
fn test_head_normal() {
    let s = "abcdef";
    assert_eq!(truncate_text_head(s, 3), Some("abc…".to_string()));
}

#[test]
fn test_head_short() {
    let s = "ab";
    assert_eq!(truncate_text_head(s, 5), Some("ab".to_string()));
}

#[test]
fn test_head_empty() {
    assert_eq!(truncate_text_head("", 5), None);
}

#[test]
fn test_extract_filename_sublime() {
    assert_eq!(
        extract_filename_from_title("test.txt — Sublime Text"),
        Some("test.txt".to_string())
    );
}

#[test]
fn test_extract_filename_wps() {
    assert_eq!(
        extract_filename_from_title("report.docx - WPS Office"),
        Some("report.docx".to_string())
    );
}

#[test]
fn test_extract_filename_untitled() {
    assert_eq!(extract_filename_from_title("untitled — Sublime Text"), None);
}

#[test]
fn test_extract_filename_app_name_only() {
    assert_eq!(extract_filename_from_title("Sublime Text"), None);
}

#[test]
fn test_extract_filename_no_extension() {
    assert_eq!(extract_filename_from_title("Makefile — Sublime Text"), None);
}

#[test]
fn test_extract_filename_vscode() {
    assert_eq!(
        extract_filename_from_title("main.rs - octopus - Visual Studio Code"),
        Some("main.rs".to_string())
    );
}

#[test]
fn test_extract_filename_empty_title() {
    assert_eq!(extract_filename_from_title(""), None);
}

#[test]
fn test_extract_filename_only_extension() {
    assert_eq!(
        extract_filename_from_title(".bashrc — Sublime Text"),
        Some(".bashrc".to_string())
    );
}

#[test]
fn test_extract_filename_dotted_path() {
    assert_eq!(
        extract_filename_from_title("src/main.rs — Sublime Text"),
        Some("src/main.rs".to_string())
    );
}

#[test]
fn test_slice_normal() {
    let full = "Hello world this is a test sentence";
    let result = slice_around_text(full, "world", 5).unwrap();
    assert_eq!(result.0.as_deref(), Some("ello "));
    assert_eq!(result.1.as_deref(), Some(" this"));
}

#[test]
fn test_slice_start_of_text() {
    let full = "Hello world";
    let result = slice_around_text(full, "Hello", 5).unwrap();
    assert_eq!(result.0, None);
    assert_eq!(result.1.as_deref(), Some(" worl"));
}

#[test]
fn test_slice_end_of_text() {
    let full = "Hello world";
    let result = slice_around_text(full, "world", 5).unwrap();
    assert_eq!(result.0.as_deref(), Some("ello "));
    assert_eq!(result.1, None);
}

#[test]
fn test_slice_case_insensitive() {
    let full = "Hello WORLD test";
    let result = slice_around_text(full, "world", 3).unwrap();
    assert_eq!(result.0.as_deref(), Some("lo "));
    assert_eq!(result.1.as_deref(), Some(" te"));
}

#[test]
fn test_slice_cjk() {
    let full = "你好世界这是一段测试文字";
    let result = slice_around_text(full, "这是", 2).unwrap();
    assert_eq!(result.0.as_deref(), Some("世界"));
    assert_eq!(result.1.as_deref(), Some("一段"));
}

#[test]
fn test_slice_not_found() {
    assert_eq!(slice_around_text("hello world", "nonexistent", 5), None);
}

#[test]
fn test_slice_empty_selected() {
    assert_eq!(slice_around_text("hello", "", 5), None);
}

#[test]
fn test_slice_empty_full() {
    assert_eq!(slice_around_text("", "test", 5), None);
}

#[test]
fn test_slice_limit_exceeds_content() {
    let full = "ABC SELECT DEF";
    let result = slice_around_text(full, "SELECT", 1000).unwrap();
    assert_eq!(result.0.as_deref(), Some("ABC "));
    assert_eq!(result.1.as_deref(), Some(" DEF"));
}

#[test]
fn test_slice_selected_with_whitespace() {
    let full = "hello world end";
    let result = slice_around_text(full, "  world  ", 3).unwrap();
    assert_eq!(result.0.as_deref(), Some("lo "));
    assert_eq!(result.1.as_deref(), Some(" en"));
}

#[test]
fn test_slice_multiple_occurrences() {
    let full = "aaa bbb aaa ccc";
    let result = slice_around_text(full, "aaa", 3).unwrap();
    assert_eq!(result.0, None);
    assert_eq!(result.1.as_deref(), Some(" bb"));
}

#[test]
fn test_try_read_file_context_real_file() {
    let content = "这是上文内容。\n选中这段文字。\n这是下文内容。";
    let result = slice_around_text(content, "选中这段文字。", 1000).unwrap();
    assert_eq!(result.0.as_deref(), Some("这是上文内容。\n"));
    assert_eq!(result.1.as_deref(), Some("\n这是下文内容。"));
}

#[test]
fn test_try_read_file_context_large_file() {
    let before: String = "A".repeat(2000);
    let after: String = "B".repeat(2000);
    let content = format!("{}SELECTED{}", before, after);
    let result = slice_around_text(&content, "SELECTED", 1000).unwrap();
    assert_eq!(result.0.as_ref().unwrap().len(), 1000);
    assert!(result.0.as_ref().unwrap().chars().all(|c| c == 'A'));
    assert_eq!(result.1.as_ref().unwrap().len(), 1000);
    assert!(result.1.as_ref().unwrap().chars().all(|c| c == 'B'));
}

#[test]
fn test_try_read_file_context_multiline_selected() {
    let content = "line1\nline2\nline3\nSELECTED\nline5\nline6";
    let result = slice_around_text(content, "SELECTED", 1000).unwrap();
    assert_eq!(result.0.as_deref(), Some("line1\nline2\nline3\n"));
    assert_eq!(result.1.as_deref(), Some("\nline5\nline6"));
}

#[test]
fn test_path_matches_exact() {
    assert!(path_matches_filename("/home/user/main.rs", "main.rs"));
    assert!(path_matches_filename("/tmp/test.txt", "test.txt"));
}

#[test]
fn test_path_matches_no_false_positive() {
    assert!(!path_matches_filename("/x/ba.rs", "a.rs"));
    assert!(!path_matches_filename("/home/main.rs/file.txt", "main.rs"));
}

#[test]
fn test_path_matches_no_path() {
    assert!(path_matches_filename("main.rs", "main.rs"));
}

fn win(history: &[&str], buffers: &[&str]) -> SessionWindow {
    SessionWindow {
        file_history: Some(history.iter().map(|s| Some(s.to_string())).collect()),
        buffers: Some(buffers.iter().map(|s| Some(s.to_string())).collect()),
    }
}

#[test]
fn test_session_json_file_history_single_window() {
    let windows = Some(vec![win(&["/other/file.txt", "/home/user/main.rs"], &[])]);
    let result = find_file_in_session_json(&windows, "main.rs");
    assert_eq!(result, Some("/home/user/main.rs".to_string()));
}

#[test]
fn test_session_json_buffers_single_window() {
    let windows = Some(vec![win(&[], &["", "/home/user/notes.md"])]);
    let result = find_file_in_session_json(&windows, "notes.md");
    assert_eq!(result, Some("/home/user/notes.md".to_string()));
}

#[test]
fn test_session_json_multi_window() {
    let windows = Some(vec![win(&["/a/x.rs"], &[]), win(&["/b/y.rs"], &["/c/target.go"])]);
    let result = find_file_in_session_json(&windows, "target.go");
    assert_eq!(result, Some("/c/target.go".to_string()));
}

#[test]
fn test_session_json_empty_buffers_filtered() {
    let windows = Some(vec![win(&[], &["", ""])]);
    assert_eq!(find_file_in_session_json(&windows, "anything.txt"), None);
}

#[test]
fn test_session_json_suffix_no_false_positive() {
    let windows = Some(vec![win(&["/x/ba.rs"], &[])]);
    assert_eq!(find_file_in_session_json(&windows, "a.rs"), None);
}

#[test]
fn test_session_json_not_found() {
    let windows = Some(vec![win(&["/a/b.rs"], &[])]);
    assert_eq!(find_file_in_session_json(&windows, "missing.rs"), None);
}

#[test]
fn test_session_json_empty_windows() {
    let windows: Option<Vec<SessionWindow>> = Some(vec![]);
    assert_eq!(find_file_in_session_json(&windows, "main.rs"), None);
}

#[test]
fn test_name_result_is_app_name_yes() {
    assert!(name_result_is_app_name("Sublime Text"));
    assert!(name_result_is_app_name("WPS Office"));
    assert!(name_result_is_app_name("Code"));
    assert!(name_result_is_app_name("sublime text"));
}

#[test]
fn test_name_result_is_app_name_no() {
    assert!(!name_result_is_app_name("main.rs"));
    assert!(!name_result_is_app_name("test.txt"));
    assert!(!name_result_is_app_name("unknown_app"));
}

#[test]
fn test_merge_cjk_normal() {
    let input = "这是第一行的文\n本内容继续";
    let result = merge_cjk_line_breaks(input);
    assert_eq!(result, "这是第一行的文本内容继续");
}

#[test]
fn test_merge_cjk_preserves_paragraph_break() {
    let input = "第一段文字\n\n第二段文字";
    let result = merge_cjk_line_breaks(input);
    assert_eq!(result, "第一段文字\n\n第二段文字");
}

#[test]
fn test_merge_cjk_ascii_no_merge() {
    let input = "hello world\n继续文本";
    let result = merge_cjk_line_breaks(input);
    assert_eq!(result, "hello world\n继续文本");
}

#[test]
fn test_merge_cjk_multi_line() {
    let input = "这是一段很长的文字第一\n行继续到第二行\n再继续到第三行";
    let result = merge_cjk_line_breaks(input);
    assert_eq!(result, "这是一段很长的文字第一行继续到第二行再继续到第三行");
}

#[test]
fn test_merge_cjk_empty_input() {
    assert_eq!(merge_cjk_line_breaks(""), "");
}

#[test]
fn test_filter_lsof_normal() {
    let input = "pwpsoffice\nn/Users/user/report.docx\nn/Users/user/notes.txt\nn/dev/null";
    let result = filter_lsof_doc_files(input);
    assert_eq!(result, vec!["/Users/user/report.docx"]);
}

#[test]
fn test_filter_lsof_excludes_lock_files() {
    let input = "n/Users/user/report.docx\nn/Users/user/.~report.docx";
    let result = filter_lsof_doc_files(input);
    assert_eq!(result, vec!["/Users/user/report.docx"]);
}

#[test]
fn test_filter_lsof_multiple_formats() {
    let input = "n/a/b.pdf\nn/c/d.xlsx\nn/e/f.pptx\nn/g/h.txt\nn/i/j.doc";
    let result = filter_lsof_doc_files(input);
    assert_eq!(result, vec!["/a/b.pdf", "/c/d.xlsx", "/e/f.pptx", "/i/j.doc"]);
}

#[test]
fn test_filter_lsof_excludes_dev_and_frameworks() {
    let input = "n/dev/urandom\nn/Applications/wpsoffice.app/pdf.framework/pdf";
    let result = filter_lsof_doc_files(input);
    assert!(result.is_empty());
}

#[test]
fn test_filter_lsof_path_with_spaces() {
    let input = "n/Users/user/my report final.docx";
    let result = filter_lsof_doc_files(input);
    assert_eq!(result, vec!["/Users/user/my report final.docx"]);
}

#[test]
fn test_bundle_id_to_procname_wps() {
    assert_eq!(bundle_id_to_procname("com.kingsoft.wpsoffice.mac"), "wpsoffice");
}

#[test]
fn test_bundle_id_to_procname_pages() {
    assert_eq!(bundle_id_to_procname("com.apple.iWork.Pages"), "Pages");
}

#[test]
fn test_bundle_id_to_procname_sublime() {
    assert_eq!(bundle_id_to_procname("com.sublimetext.4"), "Sublime");
}

#[test]
fn test_bundle_id_to_procname_fallback() {
    assert_eq!(bundle_id_to_procname("com.example.myeditor"), "myeditor");
}

#[test]
fn test_char_level_slice_normal() {
    let chars: Vec<char> = "Hello world test".chars().collect();
    let (before, after) = char_level_slice(&chars, 6, "world", "Hello world test", 5);
    assert_eq!(before.as_deref(), Some("ello "));
    assert_eq!(after.as_deref(), Some(" test"));
}

#[test]
fn test_char_level_slice_start() {
    let chars: Vec<char> = "Hello world".chars().collect();
    let (before, after) = char_level_slice(&chars, 0, "Hello", "Hello world", 5);
    assert_eq!(before, None);
    assert_eq!(after.as_deref(), Some(" worl"));
}

#[test]
fn test_char_level_slice_cjk() {
    let full = "你好世界测试文字";
    let chars: Vec<char> = full.chars().collect();
    let (before, after) = char_level_slice(&chars, 15, "试", full, 2);
    assert_eq!(before.as_deref(), Some("界测"));
    assert_eq!(after.as_deref(), Some("文字"));
}

#[test]
fn test_ooxml_xml_basic() {
    let xml = r#"<doc><w:p><w:r><w:t>Hello</w:t></w:r></w:p><w:p><w:r><w:t>World</w:t></w:r></w:p></doc>"#;
    let result = extract_text_from_ooxml_xml(xml);
    assert!(result.contains("Hello"));
    assert!(result.contains("World"));
}

#[test]
fn test_ooxml_xml_with_attributes() {
    let xml = r#"<w:p><w:r><w:t xml:space="preserve">测试</w:t></w:r></w:p>"#;
    let result = extract_text_from_ooxml_xml(xml);
    assert_eq!(result.trim(), "测试");
}

#[test]
fn test_ooxml_xml_pptx_a_tag() {
    let xml = r#"<a:p><a:r><a:t>Slide text</a:t></a:r></a:p>"#;
    let result = extract_text_from_ooxml_xml(xml);
    assert!(result.contains("Slide text"));
}

#[test]
fn test_ooxml_xml_empty() {
    let xml = r#"<doc><w:p></w:p></doc>"#;
    let result = extract_text_from_ooxml_xml(xml);
    assert!(result.is_empty() || result.trim().is_empty());
}

#[test]
fn test_slice_nfkc_kangxi() {
    let full = "这里的常数可能不是把一个项目";
    let sel = "⾥的常数";
    let result = slice_around_text(full, sel, 5);
    assert!(result.is_some(), "the NFKC form should match the Kangxi radical");
    if let Some((before, _after)) = result {
        assert!(before.as_deref().unwrap_or("").contains("这"));
    }
}

#[test]
fn test_slice_nfkc_fullwidth_punct() {
    let full = "Hello, World";
    let sel = "Hello，";
    let result = slice_around_text(full, sel, 5);
    assert!(result.is_some(), "the NFKC form should match full-width punctuation");
}

#[test]
fn test_slice_nfkc_short_rejected() {
    let full = "测试文本内容";
    let sel = "⾥";
    let result = slice_around_text(full, sel, 5);
    assert!(result.is_none());
}

#[test]
fn extract_sublime_selection_no_selection() {
    assert_eq!(extract_sublime_selection("hello world", 5, 5), None);
    assert_eq!(extract_sublime_selection("hello", 0, 0), None);
    assert_eq!(extract_sublime_selection("任意文本", 2, 2), None);
}

#[test]
fn extract_sublime_selection_reversed_range() {
    assert_eq!(extract_sublime_selection("hello", 4, 2), None);
    assert_eq!(extract_sublime_selection("hello", 3, 3), None);
}

#[test]
fn extract_sublime_selection_normal() {
    assert_eq!(extract_sublime_selection("hello world", 0, 5), Some("hello".into()));
    assert_eq!(extract_sublime_selection("hello world", 6, 11), Some("world".into()));
    assert_eq!(extract_sublime_selection("选中Text", 0, 8), Some("选中Text".into()));
}

#[test]
fn extract_sublime_selection_cjk_char_offset() {
    assert_eq!(extract_sublime_selection("你好世界", 1, 3), Some("好世".into()));
}

#[test]
fn extract_sublime_selection_whitespace_only() {
    assert_eq!(extract_sublime_selection("a   b", 1, 4), None);
    assert_eq!(extract_sublime_selection("a\n\nb", 1, 3), None);
}

#[test]
fn extract_sublime_selection_clamps_overflow() {
    assert_eq!(extract_sublime_selection("abc", 1, 100), Some("bc".into()));
    assert_eq!(extract_sublime_selection("abc", 50, 100), None);
}

#[test]
fn extract_sublime_selection_empty_text() {
    assert_eq!(extract_sublime_selection("", 0, 5), None);
}

#[test]
fn extract_sublime_selection_valid_range_returns_some() {
    let cases = [("hello", 0, 1), ("选中Text", 0, 2), ("a\nb", 0, 3), ("你好", 0, 2)];
    for (text, s, e) in cases {
        assert!(
            extract_sublime_selection(text, s, e).is_some(),
            "sel=[{},{}] of {:?} should give Some",
            s,
            e,
            text
        );
    }
}

#[test]
fn case_insensitive_match_off_boundary_is_reported() {
    // 'İ' lowercases to two characters (one byte more), so the byte offset of
    // the lowercase match falls inside '中' of the original text.
    assert_eq!(try_slice_around_text("İ中ABC", "中abc", 3), None);
    assert_eq!(
        try_slice_around_text("Hello WORLD test", "world", 3),
        Some(Some((Some("lo ".to_string()), Some(" te".to_string()))))
    );
}
