use octopus_desktop::file_hint::find_file_in_session;
use octopus_desktop::record_audio_probe::{audio_tracks_from_streams, ffprobe_streams};
use octopus_desktop::surrounding::{browser_answer_context, sublime_export_fields};

#[test]
fn session_lookup_reads_history_then_buffers() {
    let session = r#"{"windows": [
        {"file_history": ["/a/notes.txt", 5, "/b/report.md"],
         "buffers": [{"file": "/c/report.md"}, {"file": ""}]},
        {"file_history": [], "buffers": [{"file": "/d/todo.md"}, {"name": "x"}]}
    ]}"#;
    assert_eq!(find_file_in_session(session, "report.md"), Some("/b/report.md".to_string()));
    assert_eq!(find_file_in_session(session, "todo.md"), Some("/d/todo.md".to_string()));
    assert_eq!(find_file_in_session(session, "missing.md"), None);
}

#[test]
fn session_lookup_needs_json_with_windows() {
    assert_eq!(find_file_in_session("not json", "a.txt"), None);
    assert_eq!(find_file_in_session(r#"{"windows": {}}"#, "a.txt"), None);
    assert_eq!(find_file_in_session(r#"{"other": [{"file_history": ["/a.txt"]}]}"#, "a.txt"), None);
    assert_eq!(
        find_file_in_session(r#"{"windows": [{"file_history": "/a.txt", "buffers": [{"file": "/x/a.txt"}]}]}"#, "a.txt"),
        Some("/x/a.txt".to_string())
    );
}

#[test]
fn sublime_export_fields_with_defaults() {
    let full = r#"{"content": "hello world", "sel_start": 6, "sel_end": 11, "file_path": "/tmp/a.txt"}"#;
    assert_eq!(
        sublime_export_fields(full),
        Some(("hello world".to_string(), 6, 11, Some("/tmp/a.txt".to_string())))
    );
    assert_eq!(
        sublime_export_fields(r#"{"sel_start": -1, "sel_end": 2.5, "file_path": null}"#),
        Some((String::new(), 0, 0, None))
    );
    assert_eq!(sublime_export_fields("[1, 2]"), Some((String::new(), 0, 0, None)));
    assert_eq!(sublime_export_fields("{"), None);
}

#[test]
fn browser_answer_is_trimmed_and_read() {
    let out = "  {\"before\":\"left \",\"after\":\"\",\"title\":\"Page\"}\n";
    let (ctx, diag) = browser_answer_context(out).unwrap();
    assert_eq!(ctx.before, Some("left ".to_string()));
    assert_eq!(ctx.after, None);
    assert_eq!(ctx.window_title, Some("Page".to_string()));
    assert_eq!(diag, Some("browser: AppleScript execute javascript (44 chars result)".to_string()));
    assert!(browser_answer_context(r#"{"before":"","after":"","title":""}"#).is_none());
    assert!(browser_answer_context(r#"{"before": 3}"#).is_none());
    assert!(browser_answer_context("missing value").is_none());
}

#[test]
fn ffprobe_streams_read_strictly() {
    let out = br#"{"streams": [
        {"codec_type": "video", "codec_name": "h264"},
        {"codec_type": "audio", "codec_name": "aac", "sample_rate": "48000", "channels": 2},
        {"codec_type": "audio", "codec_name": null, "channels": null}
    ]}"#;
    let streams = ffprobe_streams(out).unwrap();
    assert_eq!(streams.len(), 3);
    assert_eq!(streams[1].sample_rate.as_deref(), Some("48000"));
    assert_eq!(streams[2].codec_name, None);
    let tracks = audio_tracks_from_streams(&streams);
    assert_eq!(tracks.len(), 2);
    assert_eq!((tracks[0].index, tracks[0].codec.as_str(), tracks[0].sample_rate, tracks[0].channels), (1, "aac", 48000, 2));
}

#[test]
fn ffprobe_streams_refuse_bad_shapes() {
    assert!(ffprobe_streams(br#"{"streams": [{"codec_name": "aac"}]}"#).is_none());
    assert!(ffprobe_streams(br#"{"streams": [{"codec_type": "audio", "channels": 4294967296}]}"#).is_none());
    assert!(ffprobe_streams(br#"{"streams": [{"codec_type": "audio", "sample_rate": 48000}]}"#).is_none());
    assert!(ffprobe_streams(br#"{"format": {}}"#).is_none());
    assert!(ffprobe_streams(&[0xff, 0xfe]).is_none());
    assert_eq!(ffprobe_streams(br#"{"streams": []}"#).map(|s| s.len()), Some(0));
}
