//! Screen recording bookkeeping: which microphone to record, what is stored
//! about a finished recording, the library filter, the post-processing
//! commands (GIF export, audio track merge) and the subtitle options.
use vstd::prelude::*;
use crate::text::{all_ws, chars_of, opt_seq, owned, push_chars, push_str, str_eq, trim, trimmed};
use crate::unicode::{spec_lowercase, spec_uppercase_char, to_lowercase, to_uppercase_char};
use crate::record_audio_probe::{parse_u32, parse_u32_str};

verus! {

/// A boolean setting from its stored text: `true` is true, anything else
/// false, and a missing value the default.
pub open spec fn bool_setting(stored: Option<Seq<char>>, default: bool) -> bool {
    match stored {
        Some(s) => s == "true"@,
        None => default,
    }
}

/// A boolean setting from the settings store.
pub fn parse_bool_config(stored: Option<String>, default: bool) -> (b: bool)
    ensures
        b == bool_setting(opt_seq(stored), default),
{
    match stored {
        Some(s) => str_eq(s.as_str(), "true"),
        None => default,
    }
}

/// The microphone to record: the explicitly chosen device (trimmed) unless it
/// is blank, else the recording microphone setting, else the speech
/// recognition microphone setting; a setting that is empty or only white
/// space counts as unset, so a blank name is never chosen.
pub open spec fn mic_choice(explicit: Option<Seq<char>>, record_device: Option<Seq<char>>, asr_microphone: Option<Seq<char>>) -> Option<Seq<char>> {
    if explicit is Some && trim(explicit->0).len() > 0 {
        Some(trim(explicit->0))
    } else if record_device is Some && trim(record_device->0).len() > 0 {
        record_device
    } else if asr_microphone is Some && trim(asr_microphone->0).len() > 0 {
        asr_microphone
    } else {
        None
    }
}

/// The microphone device name for a recording, from the explicit choice and
/// the two stored settings (`record_microphone_device`, `microphone`).
pub fn resolve_mic_device_name(
    explicit: Option<&str>,
    record_device: Option<String>,
    asr_microphone: Option<String>,
) -> (r: Option<String>)
    ensures
        opt_seq(r) == mic_choice(
            match explicit {
                Some(s) => Some(s@),
                None => None,
            },
            opt_seq(record_device),
            opt_seq(asr_microphone),
        ),
{
    if let Some(name) = explicit {
        let v = chars_of(name);
        let t = trimmed(&v);
        if !t.as_str().is_empty() {
            return Some(t);
        }
    }
    match record_device {
        Some(d) => {
            if !is_blank(d.as_str()) {
                return Some(d);
            }
        },
        None => {},
    }
    match asr_microphone {
        Some(m) => if is_blank(m.as_str()) {
            None
        } else {
            Some(m)
        },
        None => None,
    }
}

/// Whether `s` is empty or only white space.
fn is_blank(s: &str) -> (b: bool)
    ensures
        b == (trim(s@).len() == 0),
{
    let v = chars_of(s);
    let b = all_ws(&v, 0, v.len());
    assert(v@.subrange(0, v@.len() as int) =~= s@);
    b
}

/// What a recording captures.
#[derive(Clone, Copy, Debug, PartialEq, Eq, Structural)]
pub enum SourceKind {
    Display,
    Window,
    Area,
}

/// Stored name of a source kind.
pub open spec fn source_type_name(s: SourceKind) -> Seq<char> {
    match s {
        SourceKind::Display => "display"@,
        SourceKind::Window => "window"@,
        SourceKind::Area => "area"@,
    }
}

/// The stored name of a recording source (`display`, `window`, `area`).
pub fn source_type_str(s: SourceKind) -> (r: &'static str)
    ensures
        r@ == source_type_name(s),
{
    match s {
        SourceKind::Display => "display",
        SourceKind::Window => "window",
        SourceKind::Area => "area",
    }
}

/// A recording as it was requested.
pub struct RecordingRequest {
    pub recording_id: i64,
    pub source: SourceKind,
    pub width: u32,
    pub height: u32,
    pub system_audio_enabled: bool,
    pub microphone_enabled: bool,
    pub microphone_device: Option<String>,
}

/// What is stored about a finished recording besides the file.
pub struct MetaFields {
    pub recording_id: i64,
    pub width: u32,
    pub height: u32,
    pub source_type: String,
    pub has_system_audio: bool,
    pub has_microphone: bool,
    pub mic_device_name: Option<String>,
}

/// The stored fields of a recording, from its request and the two
/// microphone settings.
pub fn derive_fields_from_request(
    req: &RecordingRequest,
    record_device: Option<String>,
    asr_microphone: Option<String>,
) -> (r: Result<MetaFields, String>)
    ensures
        r matches Ok(m) && m.recording_id == req.recording_id && m.width == req.width && m.height
            == req.height && m.source_type@ == source_type_name(req.source) && m.has_system_audio
            == req.system_audio_enabled && m.has_microphone == req.microphone_enabled && opt_seq(
            m.mic_device_name,
        ) == mic_choice(
            opt_seq(req.microphone_device),
            opt_seq(record_device),
            opt_seq(asr_microphone),
        ),
{
    let explicit: Option<&str> = match &req.microphone_device {
        Some(d) => Some(d.as_str()),
        None => None,
    };
    Ok(MetaFields {
        recording_id: req.recording_id,
        width: req.width,
        height: req.height,
        source_type: owned(source_type_str(req.source)),
        has_system_audio: req.system_audio_enabled,
        has_microphone: req.microphone_enabled,
        mic_device_name: resolve_mic_device_name(explicit, record_device, asr_microphone),
    })
}

/// The installation help shown when `ffmpeg` is missing.
pub open spec fn ffmpeg_hint() -> Seq<char> {
    "ffmpeg 未找到。安装方式：\n1. brew install ffmpeg\n2. curl -L https://evermeet.cx/ffmpeg/getrelease/zip -o /tmp/ffmpeg.zip && unzip /tmp/ffmpeg.zip -d ~/.octopus/bin/\n3. 手动下载放到 ~/.octopus/bin/ffmpeg"@
}

/// How to install `ffmpeg`.
pub fn ffmpeg_missing_hint() -> (s: String)
    ensures
        s@ == ffmpeg_hint(),
{
    owned(
        "ffmpeg 未找到。安装方式：\n1. brew install ffmpeg\n2. curl -L https://evermeet.cx/ffmpeg/getrelease/zip -o /tmp/ffmpeg.zip && unzip /tmp/ffmpeg.zip -d ~/.octopus/bin/\n3. 手动下载放到 ~/.octopus/bin/ffmpeg",
    )
}

/// Recording state and seconds recorded.
pub struct RecordStatus {
    pub state: String,
    pub elapsed_secs: u64,
}

/// The status report from the state's name and the elapsed seconds (none: 0).
pub fn record_status(state_name: &str, elapsed: Option<u64>) -> (r: RecordStatus)
    ensures
        r.state@ == spec_lowercase(state_name@),
        r.elapsed_secs == (match elapsed {
            Some(e) => e,
            None => 0,
        }),
{
    RecordStatus {
        state: to_lowercase(state_name),
        elapsed_secs: match elapsed {
            Some(e) => e,
            None => 0,
        },
    }
}

/// Library listing parameters as the window sends them (missing fields are 0 / false).
#[derive(Clone, Copy, Debug, PartialEq, Eq, Structural)]
pub struct ListRecordingsParams {
    pub limit: u32,
    pub offset: u32,
    pub include_deleted: bool,
    pub favorites_only: bool,
}

/// Library listing filter.
#[derive(Clone, Copy, Debug, PartialEq, Eq, Structural)]
pub struct ListFilter {
    pub limit: u32,
    pub offset: u32,
    pub include_deleted: bool,
    pub favorites_only: bool,
}

impl Default for ListRecordingsParams {
    fn default() -> (p: ListRecordingsParams)
        ensures
            p == (ListRecordingsParams {
                limit: 0,
                offset: 0,
                include_deleted: false,
                favorites_only: false,
            }),
    {
        ListRecordingsParams { limit: 0, offset: 0, include_deleted: false, favorites_only: false }
    }
}

impl From<ListRecordingsParams> for ListFilter {
    fn from(p: ListRecordingsParams) -> (f: ListFilter) {
        ListFilter {
            limit: p.limit,
            offset: p.offset,
            include_deleted: p.include_deleted,
            favorites_only: p.favorites_only,
        }
    }
}

impl vstd::std_specs::convert::FromSpecImpl<ListRecordingsParams> for ListFilter {
    open spec fn obeys_from_spec() -> bool {
        true
    }

    open spec fn from_spec(p: ListRecordingsParams) -> ListFilter {
        ListFilter {
            limit: p.limit,
            offset: p.offset,
            include_deleted: p.include_deleted,
            favorites_only: p.favorites_only,
        }
    }
}

/// The filter for a listing request; no parameters list with zero limit and
/// offset, without deleted recordings, not only favourites.
pub fn list_filter(params: Option<ListRecordingsParams>) -> (f: ListFilter)
    ensures
        f == (match params {
            Some(p) => ListFilter {
                limit: p.limit,
                offset: p.offset,
                include_deleted: p.include_deleted,
                favorites_only: p.favorites_only,
            },
            None => ListFilter { limit: 0, offset: 0, include_deleted: false, favorites_only: false },
        }),
{
    let p = match params {
        Some(p) => p,
        None => ListRecordingsParams::default(),
    };
    ListFilter::from(p)
}

/// The new recording made by merging the audio tracks.
pub struct MergeResult {
    pub new_id: i64,
    pub file_path: String,
}

/// Only a recording with at least two audio tracks can be merged.
pub fn check_merge_tracks(track_count: usize) -> (r: Result<(), String>)
    ensures
        track_count >= 2 ==> r is Ok,
        track_count < 2 ==> (r matches Err(e) && e@ == "不是多音轨录屏，无需合并"@),
{
    if track_count < 2 {
        return Err(owned("不是多音轨录屏，无需合并"));
    }
    Ok(())
}

/// `ffmpeg` arguments that mix the first two audio tracks of `input` into
/// one AAC track of `output`, copying the video.
pub open spec fn merge_args(input: Seq<char>, output: Seq<char>) -> Seq<Seq<char>> {
    seq![
        "-y"@,
        "-i"@,
        input,
        "-filter_complex"@,
        "[0:a:0][0:a:1]amix=inputs=2:duration=longest:dropout_transition=0[a]"@,
        "-map"@,
        "0:v"@,
        "-map"@,
        "[a]"@,
        "-c:v"@,
        "copy"@,
        "-c:a"@,
        "aac"@,
        "-b:a"@,
        "192k"@,
        output,
    ]
}

/// The audio merge command line (after the `ffmpeg` path).
pub fn merge_ffmpeg_args(input: &str, output: &str) -> (r: Vec<String>)
    ensures
        r@.map_values(|s: String| s@) == merge_args(input@, output@),
{
    let mut r: Vec<String> = Vec::new();
    r.push(owned("-y"));
    r.push(owned("-i"));
    r.push(owned(input));
    r.push(owned("-filter_complex"));
    r.push(owned("[0:a:0][0:a:1]amix=inputs=2:duration=longest:dropout_transition=0[a]"));
    r.push(owned("-map"));
    r.push(owned("0:v"));
    r.push(owned("-map"));
    r.push(owned("[a]"));
    r.push(owned("-c:v"));
    r.push(owned("copy"));
    r.push(owned("-c:a"));
    r.push(owned("aac"));
    r.push(owned("-b:a"));
    r.push(owned("192k"));
    r.push(owned(output));
    assert(r@.map_values(|s: String| s@) =~= merge_args(input@, output@));
    r
}

/// `ffmpeg` arguments that turn `input` into a looping GIF at 15 frames per
/// second, 800 pixels wide.
pub open spec fn gif_args(input: Seq<char>, output: Seq<char>) -> Seq<Seq<char>> {
    seq!["-y"@, "-i"@, input, "-vf"@, "fps=15,scale=800:-1:flags=lanczos"@, "-loop"@, "0"@, output]
}

/// The GIF export command line (after the `ffmpeg` path).
pub fn gif_ffmpeg_args(input: &str, output: &str) -> (r: Vec<String>)
    ensures
        r@.map_values(|s: String| s@) == gif_args(input@, output@),
{
    let mut r: Vec<String> = Vec::new();
    r.push(owned("-y"));
    r.push(owned("-i"));
    r.push(owned(input));
    r.push(owned("-vf"));
    r.push(owned("fps=15,scale=800:-1:flags=lanczos"));
    r.push(owned("-loop"));
    r.push(owned("0"));
    r.push(owned(output));
    assert(r@.map_values(|s: String| s@) =~= gif_args(input@, output@));
    r
}

/// Both post-processing commands read the recording and write the new file:
/// `-i` is the second argument and the input path follows it, and the last
/// argument is the output path.
pub proof fn law_commands_read_input_write_output(input: Seq<char>, output: Seq<char>)
    ensures
        gif_args(input, output).len() == 8,
        gif_args(input, output)[1] == "-i"@,
        gif_args(input, output)[2] == input,
        gif_args(input, output).last() == output,
        merge_args(input, output).len() == 16,
        merge_args(input, output)[1] == "-i"@,
        merge_args(input, output)[2] == input,
        merge_args(input, output).last() == output,
{
}

/// Title of the merged copy: `merged`, or the title with ` (merged)` appended.
pub open spec fn merged_title_spec(title: Seq<char>) -> Seq<char> {
    if title.len() == 0 {
        "merged"@
    } else {
        title + " (merged)"@
    }
}

/// Title of the merged copy of a recording.
pub fn merged_title(title: &str) -> (r: String)
    ensures
        r@ == merged_title_spec(title@),
{
    if title.is_empty() {
        owned("merged")
    } else {
        let mut r = owned(title);
        push_str(&mut r, " (merged)");
        r
    }
}

/// An audio track of a recording.
pub struct AudioTrackInfo {
    pub index: u32,
    pub merged: bool,
    pub codec: String,
    pub sample_rate: u32,
    pub channels: u32,
}

/// The single track of a merged recording: as the first probed track says,
/// else AAC, 48 kHz, stereo (probing unavailable or finding nothing).
pub fn merged_track(probed: Option<(String, u32, u32)>) -> (t: AudioTrackInfo)
    ensures
        t.index == 0,
        t.merged,
        match probed {
            Some((codec, rate, ch)) => t.codec@ == codec@ && t.sample_rate == rate && t.channels == ch,
            None => t.codec@ == "aac"@ && t.sample_rate == 48000 && t.channels == 2,
        },
{
    match probed {
        Some((codec, rate, ch)) => AudioTrackInfo {
            index: 0,
            merged: true,
            codec,
            sample_rate: rate,
            channels: ch,
        },
        None => AudioTrackInfo {
            index: 0,
            merged: true,
            codec: owned("aac"),
            sample_rate: 48000,
            channels: 2,
        },
    }
}

/// `s` with its first character uppercased (which may give several characters).
pub open spec fn capitalized(s: Seq<char>) -> Seq<char> {
    if s.len() == 0 {
        Seq::empty()
    } else {
        spec_uppercase_char(s[0]) + s.drop_first()
    }
}

/// Capitalises a provider name for display (`openai` gives `Openai`).
pub fn capitalize(s: &str) -> (r: String)
    ensures
        r@ == capitalized(s@),
{
    let v = chars_of(s);
    if v.len() == 0 {
        return String::new();
    }
    let mut r = to_uppercase_char(v[0]);
    push_chars(&mut r, &v, 1, v.len());
    assert(v@.subrange(1, v@.len() as int) =~= v@.drop_first());
    r
}

/// A language model offered for polishing subtitles.
pub struct LlmOption {
    pub key: String,
    pub label: String,
}

/// The subtitle polishing entry of a model: key `provider:model`, label
/// `model (Provider)`.
pub fn subtitle_llm_option(provider: &str, model_name: &str) -> (o: LlmOption)
    ensures
        o.key@ == provider@ + ":"@ + model_name@,
        o.label@ == model_name@ + " ("@ + capitalized(provider@) + ")"@,
{
    let mut key = owned(provider);
    push_str(&mut key, ":");
    push_str(&mut key, model_name);
    let mut label = owned(model_name);
    push_str(&mut label, " (");
    let cap = capitalize(provider);
    push_str(&mut label, cap.as_str());
    push_str(&mut label, ")");
    LlmOption { key, label }
}

/// Which audio track subtitles are made from.
#[derive(Clone, Copy, Debug, PartialEq, Eq, Structural)]
pub enum TrackPreference {
    Auto,
    System,
    Microphone,
}

/// Track preference from the request: `system`, `microphone`, otherwise automatic.
pub fn track_preference(track: Option<&str>) -> (p: TrackPreference)
    ensures
        p == (match track {
            Some(t) => if t@ == "system"@ {
                TrackPreference::System
            } else if t@ == "microphone"@ {
                TrackPreference::Microphone
            } else {
                TrackPreference::Auto
            },
            None => TrackPreference::Auto,
        }),
{
    match track {
        Some(t) => if str_eq(t, "system") {
            TrackPreference::System
        } else if str_eq(t, "microphone") {
            TrackPreference::Microphone
        } else {
            TrackPreference::Auto
        },
        None => TrackPreference::Auto,
    }
}

/// How subtitle polishing went.
pub enum PolishOutcome {
    Skipped,
    Polished,
    FallbackRatio,
    NoLlmConfig,
    Failed(String),
}

/// The outcome as reported with the subtitles (none when skipped).
pub fn polish_outcome_str(o: PolishOutcome) -> (r: Option<String>)
    ensures
        opt_seq(r) == (match o {
            PolishOutcome::Skipped => None,
            PolishOutcome::Polished => Some("polished"@),
            PolishOutcome::FallbackRatio => Some("fallbackRatio"@),
            PolishOutcome::NoLlmConfig => Some("noLlmConfig"@),
            PolishOutcome::Failed(m) => Some("failed:"@ + m@),
        }),
{
    match o {
        PolishOutcome::Skipped => None,
        PolishOutcome::Polished => Some(owned("polished")),
        PolishOutcome::FallbackRatio => Some(owned("fallbackRatio")),
        PolishOutcome::NoLlmConfig => Some(owned("noLlmConfig")),
        PolishOutcome::Failed(m) => {
            let mut s = owned("failed:");
            push_str(&mut s, m.as_str());
            Some(s)
        },
    }
}


/// A display that can be recorded.
#[derive(Clone, Copy, Debug, PartialEq, Eq, Structural)]
pub struct DisplayInfo {
    pub id: u32,
    pub is_primary: bool,
    pub width: u32,
    pub height: u32,
}

/// Video codecs of a recording.
#[derive(Clone, Copy, Debug, PartialEq, Eq, Structural)]
pub enum VideoCodec {
    H264,
    Hevc,
}

/// The recording made by the recording shortcut and the tray: the primary
/// display at its native size, and the stored video and audio settings.
pub struct DefaultRecordConfig {
    pub display_id: u32,
    pub fps: u32,
    pub width: u32,
    pub height: u32,
    pub codec: VideoCodec,
    pub hide_system_cursor: bool,
    pub system_audio: bool,
    pub microphone: bool,
    pub microphone_device: Option<String>,
}

/// Index of the display to record: the first primary one, else the first.
pub open spec fn primary_display(ds: Seq<DisplayInfo>) -> Option<int> {
    if exists|i: int| 0 <= i < ds.len() && ds[i].is_primary {
        Some(choose|i: int| 0 <= i < ds.len() && ds[i].is_primary && forall|j: int| 0 <= j < i ==> !ds[j].is_primary)
    } else if ds.len() > 0 {
        Some(0)
    } else {
        None
    }
}

/// The stored frame rate, 30 when unset or not a number.
pub open spec fn fps_setting(stored: Option<Seq<char>>) -> u32 {
    match stored {
        Some(s) => match parse_u32(s) {
            Some(n) => n,
            None => 30,
        },
        None => 30,
    }
}

/// The stored codec: `hevc`, anything else H.264.
pub open spec fn codec_setting(stored: Option<Seq<char>>) -> VideoCodec {
    if stored == Some("hevc"@) {
        VideoCodec::Hevc
    } else {
        VideoCodec::H264
    }
}

/// Error when no display is listed.
pub open spec fn no_display_error() -> Seq<char> {
    "找不到可用显示器（helper --list-displays 返回空）"@
}

fn find_primary(ds: &Vec<DisplayInfo>) -> (r: Option<usize>)
    ensures
        r matches Some(i) ==> i < ds@.len(),
        match r {
            Some(i) => primary_display(ds@) == Some(i as int),
            None => primary_display(ds@) is None,
        },
{
    let mut i: usize = 0;
    while i < ds.len()
        invariant
            i <= ds@.len(),
            forall|j: int| 0 <= j < i ==> !(#[trigger] ds@[j]).is_primary,
        decreases ds@.len() - i,
    {
        if ds[i].is_primary {
            proof {
                let c = choose|k: int| 0 <= k < ds@.len() && ds@[k].is_primary && forall|j: int| 0 <= j < k ==> !ds@[j].is_primary;
                assert(0 <= i < ds@.len() && ds@[i as int].is_primary && forall|j: int| 0 <= j < i ==> !ds@[j].is_primary);
                if c < i {
                    assert(!ds@[c].is_primary);
                } else if c > i {
                    assert(!ds@[i as int].is_primary);
                }
            }
            return Some(i);
        }
        i = i + 1;
    }
    if ds.len() > 0 {
        Some(0)
    } else {
        None
    }
}

/// The default recording from the listed displays and the stored settings
/// (`record_fps`, `record_codec`, `record_hide_cursor`, `record_system_audio`,
/// `record_microphone`, and the two microphone device settings); an error
/// when no display is listed.
pub fn build_default_config(
    displays: &Vec<DisplayInfo>,
    fps: Option<String>,
    codec: Option<String>,
    hide_cursor: Option<String>,
    system_audio: Option<String>,
    microphone: Option<String>,
    record_device: Option<String>,
    asr_microphone: Option<String>,
) -> (r: Result<DefaultRecordConfig, String>)
    ensures
        match primary_display(displays@) {
            None => r matches Err(e) && e@ == no_display_error(),
            Some(i) => r matches Ok(c) && {
                &&& c.display_id == displays@[i].id
                &&& c.width == displays@[i].width
                &&& c.height == displays@[i].height
                &&& c.fps == fps_setting(opt_seq(fps))
                &&& c.codec == codec_setting(opt_seq(codec))
                &&& c.hide_system_cursor == bool_setting(opt_seq(hide_cursor), false)
                &&& c.system_audio == bool_setting(opt_seq(system_audio), true)
                &&& c.microphone == bool_setting(opt_seq(microphone), false)
                &&& opt_seq(c.microphone_device) == mic_choice(None, opt_seq(record_device), opt_seq(asr_microphone))
            },
        },
{
    let i = match find_primary(displays) {
        Some(i) => i,
        None => {
            return Err(owned("找不到可用显示器（helper --list-displays 返回空）"));
        },
    };
    let d = displays[i];
    let fps_v: u32 = match &fps {
        Some(t) => match parse_u32_str(t.as_str()) {
            Some(n) => n,
            None => 30,
        },
        None => 30,
    };
    let codec_v = match &codec {
        Some(t) => if str_eq(t.as_str(), "hevc") {
            VideoCodec::Hevc
        } else {
            VideoCodec::H264
        },
        None => VideoCodec::H264,
    };
    Ok(DefaultRecordConfig {
        display_id: d.id,
        fps: fps_v,
        width: d.width,
        height: d.height,
        codec: codec_v,
        hide_system_cursor: parse_bool_config(hide_cursor, false),
        system_audio: parse_bool_config(system_audio, true),
        microphone: parse_bool_config(microphone, false),
        microphone_device: resolve_mic_device_name(None, record_device, asr_microphone),
    })
}

/// The microphone device sent with a recording request: with the microphone
/// on, the requested device falls back to the stored settings; with it off
/// the request is left as it is.
pub fn request_mic_device(
    enabled: bool,
    requested: Option<String>,
    record_device: Option<String>,
    asr_microphone: Option<String>,
) -> (r: Option<String>)
    ensures
        !enabled ==> opt_seq(r) == opt_seq(requested),
        enabled ==> opt_seq(r) == mic_choice(opt_seq(requested), opt_seq(record_device), opt_seq(asr_microphone)),
{
    if !enabled {
        return requested;
    }
    match &requested {
        Some(t) => resolve_mic_device_name(Some(t.as_str()), record_device, asr_microphone),
        None => resolve_mic_device_name(None, record_device, asr_microphone),
    }
}

} // verus!
