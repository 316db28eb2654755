//! Audio tracks of a recording as `ffprobe` reports them, and the command
//! lines that probe them and write them back as metadata.
use vstd::prelude::*;
use crate::doc_text::parse_usize;
use crate::text::{chars_of, opt_seq, owned, push_str, str_eq, trim, trimmed};
use crate::json::{array_of, field, get, get_array, parse_json, spec_json, JsonValue};
use crate::unicode::utf8_decode;

verus! {

/// One stream of `ffprobe -show_streams` output, as far as it is read.
pub struct FfprobeStream {
    pub codec_type: String,
    pub codec_name: Option<String>,
    pub sample_rate: Option<String>,
    pub channels: Option<u32>,
}

/// A stream by value: codec type, codec name, sample rate, channels.
pub type StreamView = (Seq<char>, Option<Seq<char>>, Option<Seq<char>>, Option<u32>);

/// A stream by value.
pub open spec fn stream_view(s: FfprobeStream) -> StreamView {
    (s.codec_type@, opt_seq(s.codec_name), opt_seq(s.sample_rate), s.channels)
}

/// An optional text member: absent or null is none, a string is its text,
/// anything else does not read (`None`).
pub open spec fn optional_text(j: Option<JsonValue>) -> Option<Option<Seq<char>>> {
    match j {
        None => Some(None),
        Some(JsonValue::Null) => Some(None),
        Some(JsonValue::Str(s)) => Some(Some(s@)),
        _ => None,
    }
}

/// An optional `u32` member: absent or null is none, a whole number up to
/// `u32::MAX` is its value, anything else does not read (`None`).
pub open spec fn optional_u32(j: Option<JsonValue>) -> Option<Option<u32>> {
    match j {
        None => Some(None),
        Some(JsonValue::Null) => Some(None),
        Some(JsonValue::Number(Some(n))) => if n <= u32::MAX {
            Some(Some(n as u32))
        } else {
            None
        },
        _ => None,
    }
}

/// One stream of the answer read strictly: `codec_type` must be a string,
/// the other members must read as `optional_text` and `optional_u32` say.
pub open spec fn stream_of_json(j: JsonValue) -> Option<StreamView> {
    match (field(j, "codec_type"@), optional_text(field(j, "codec_name"@)), optional_text(
        field(j, "sample_rate"@),
    ), optional_u32(field(j, "channels"@))) {
        (Some(JsonValue::Str(t)), Some(name), Some(rate), Some(ch)) => Some((t@, name, rate, ch)),
        _ => None,
    }
}

/// The streams of an `ffprobe -print_format json -show_streams` answer
/// given as JSON: its `streams` array with every stream reading; none when
/// the answer is not JSON, has no such array, or a stream does not read.
pub open spec fn streams_of_json(j: Option<JsonValue>) -> Option<Seq<StreamView>> {
    match j {
        Some(v) => match array_of(field(v, "streams"@)) {
            Some(a) => if forall|i: int| 0 <= i < a.len() ==> (#[trigger] stream_of_json(a[i])) is Some {
                Some(Seq::new(a.len(), |i: int| stream_of_json(a[i])->0))
            } else {
                None
            },
            None => None,
        },
        None => None,
    }
}

/// What the bytes `b` say as JSON: none when they are not UTF-8.
pub open spec fn json_of_bytes(b: Seq<u8>) -> Option<JsonValue> {
    if vstd::utf8::valid_utf8(b) {
        spec_json(vstd::utf8::decode_utf8(b))
    } else {
        None
    }
}

fn optional_text_of(j: Option<&JsonValue>) -> (r: Option<Option<String>>)
    ensures
        match r {
            Some(t) => optional_text(match j { Some(v) => Some(*v), None => None }) == Some(opt_seq(t)),
            None => optional_text(match j { Some(v) => Some(*v), None => None }) is None,
        },
{
    match j {
        None => Some(None),
        Some(JsonValue::Null) => Some(None),
        Some(JsonValue::Str(s)) => Some(Some(owned(s.as_str()))),
        _ => None,
    }
}

fn optional_u32_of(j: Option<&JsonValue>) -> (r: Option<Option<u32>>)
    ensures
        r == optional_u32(match j { Some(v) => Some(*v), None => None }),
{
    match j {
        None => Some(None),
        Some(JsonValue::Null) => Some(None),
        Some(JsonValue::Number(Some(n))) => if *n <= 0xffff_ffffu64 {
            Some(Some(*n as u32))
        } else {
            None
        },
        _ => None,
    }
}

fn stream_of(j: &JsonValue) -> (r: Option<FfprobeStream>)
    ensures
        match r {
            Some(s) => stream_of_json(*j) == Some(stream_view(s)),
            None => stream_of_json(*j) is None,
        },
{
    let codec_type = match get(j, "codec_type") {
        Some(JsonValue::Str(t)) => owned(t.as_str()),
        _ => return None,
    };
    let codec_name = match optional_text_of(get(j, "codec_name")) {
        Some(x) => x,
        None => return None,
    };
    let sample_rate = match optional_text_of(get(j, "sample_rate")) {
        Some(x) => x,
        None => return None,
    };
    let channels = match optional_u32_of(get(j, "channels")) {
        Some(x) => x,
        None => return None,
    };
    Some(FfprobeStream { codec_type, codec_name, sample_rate, channels })
}

/// The streams of what `ffprobe -print_format json -show_streams` printed
/// (`stdout`), read as strictly as a typed reader: none when the output is
/// not UTF-8 JSON with a `streams` array whose every stream reads.
pub fn ffprobe_streams(stdout: &[u8]) -> (r: Option<Vec<FfprobeStream>>)
    ensures
        match r {
            Some(ss) => streams_of_json(json_of_bytes(stdout@)) == Some(
                Seq::new(ss@.len(), |i: int| stream_view(ss@[i])),
            ),
            None => streams_of_json(json_of_bytes(stdout@)) is None,
        },
{
    let text = match utf8_decode(stdout) {
        Some(t) => t,
        None => return None,
    };
    let j = match parse_json(text.as_str()) {
        Some(j) => j,
        None => return None,
    };
    let items = match get_array(&j, "streams") {
        Some(a) => a,
        None => return None,
    };
    let mut out: Vec<FfprobeStream> = Vec::new();
    let mut i: usize = 0;
    while i < items.len()
        invariant
            json_of_bytes(stdout@) == Some(j),
            array_of(field(j, "streams"@)) == Some(items@),
            i <= items@.len(),
            out@.len() == i,
            forall|k: int| 0 <= k < i ==> (#[trigger] stream_of_json(items@[k])) == Some(stream_view(out@[k])),
        decreases items@.len() - i,
    {
        match stream_of(&items[i]) {
            Some(s) => {
                out.push(s);
            },
            None => {
                assert(stream_of_json(items@[i as int]) is None);
                return None;
            },
        }
        i = i + 1;
    }
    proof {
        assert(Seq::new(out@.len(), |k: int| stream_view(out@[k])) =~= Seq::new(
            items@.len(),
            |k: int| stream_of_json(items@[k])->0,
        ));
    }
    Some(out)
}

/// An audio track found in a file.
pub struct RawAudioTrack {
    pub index: u32,
    pub codec: String,
    pub sample_rate: u32,
    pub channels: u32,
}

/// `u32::from_str`: an optional `+` and decimal digits, within range.
pub open spec fn parse_u32(s: Seq<char>) -> Option<u32> {
    match parse_usize(s) {
        Some(n) => if n <= u32::MAX {
            Some(n as u32)
        } else {
            None
        },
        None => None,
    }
}

/// Parses a decimal `u32` the way `str::parse::<u32>` does.
pub fn parse_u32_str(s: &str) -> (r: Option<u32>)
    ensures
        r == parse_u32(s@),
{
    let v = chars_of(s);
    let r = crate::doc_text::parse_usize_range(&v, 0, v.len());
    assert(v@.subrange(0, v@.len() as int) =~= s@);
    match r {
        Some(n) => if n <= 0xffff_ffffusize {
            Some(n as u32)
        } else {
            None
        },
        None => None,
    }
}

/// The track of stream number `i`: codec (empty when missing), sample rate
/// (0 when missing or not a number), channels (0 when missing).
pub open spec fn track_of(i: int, s: FfprobeStream, t: RawAudioTrack) -> bool {
    &&& t.index == i
    &&& t.codec@ == (match s.codec_name {
        Some(c) => c@,
        None => Seq::empty(),
    })
    &&& t.sample_rate == (match s.sample_rate {
        Some(r) => match parse_u32(r@) {
            Some(n) => n,
            None => 0,
        },
        None => 0,
    })
    &&& t.channels == (match s.channels {
        Some(c) => c,
        None => 0,
    })
}

/// Indices of the audio streams among `ss`, in order.
pub open spec fn audio_indices(ss: Seq<FfprobeStream>) -> Seq<int>
    decreases ss.len(),
{
    if ss.len() == 0 {
        Seq::empty()
    } else if ss.last().codec_type@ == "audio"@ {
        audio_indices(ss.drop_last()).push(ss.len() - 1)
    } else {
        audio_indices(ss.drop_last())
    }
}

proof fn lemma_audio_indices_bound(ss: Seq<FfprobeStream>)
    ensures
        forall|k: int| 0 <= k < audio_indices(ss).len() ==> 0 <= #[trigger] audio_indices(ss)[k] < ss.len(),
    decreases ss.len(),
{
    if ss.len() > 0 {
        lemma_audio_indices_bound(ss.drop_last());
        let r = audio_indices(ss.drop_last());
        assert forall|k: int| 0 <= k < audio_indices(ss).len() implies 0 <= #[trigger] audio_indices(ss)[k] < ss.len() by {
            if k < r.len() {
                assert(audio_indices(ss)[k] == r[k]);
            }
        }
    }
}

/// The audio tracks of a probed file: its audio streams in order, each
/// numbered by its position among all the streams listed.
pub fn audio_tracks_from_streams(streams: &Vec<FfprobeStream>) -> (r: Vec<RawAudioTrack>)
    requires
        streams@.len() <= u32::MAX,
    ensures
        r@.len() == audio_indices(streams@).len(),
        forall|k: int| 0 <= k < r@.len() ==> track_of(
            audio_indices(streams@)[k],
            streams@[audio_indices(streams@)[k]],
            #[trigger] r@[k],
        ),
{
    let mut tracks: Vec<RawAudioTrack> = Vec::new();
    let mut i: usize = 0;
    while i < streams.len()
        invariant
            i <= streams@.len(),
            streams@.len() <= u32::MAX,
            tracks@.len() == audio_indices(streams@.take(i as int)).len(),
            forall|k: int| 0 <= k < tracks@.len() ==> track_of(
                audio_indices(streams@.take(i as int))[k],
                streams@[audio_indices(streams@.take(i as int))[k]],
                #[trigger] tracks@[k],
            ),
        decreases streams@.len() - i,
    {
        proof {
            assert(streams@.take(i + 1).drop_last() =~= streams@.take(i as int));
            assert(streams@.take(i + 1).last() == streams@[i as int]);
            lemma_audio_indices_bound(streams@.take(i as int));
        }
        let s = &streams[i];
        if str_eq(s.codec_type.as_str(), "audio") {
            let codec = match &s.codec_name {
                Some(c) => owned(c.as_str()),
                None => String::new(),
            };
            let sample_rate: u32 = match &s.sample_rate {
                Some(sr) => match parse_u32_str(sr.as_str()) {
                    Some(n) => n,
                    None => 0,
                },
                None => 0,
            };
            let channels: u32 = match s.channels {
                Some(c) => c,
                None => 0,
            };
            tracks.push(RawAudioTrack { index: i as u32, codec, sample_rate, channels });
        }
        i = i + 1;
    }
    assert(streams@.take(streams@.len() as int) =~= streams@);
    tracks
}

/// `ffprobe` arguments that list the audio streams of `mp4` as JSON.
pub fn ffprobe_args(mp4: &str) -> (r: Vec<String>)
    ensures
        r@.map_values(|s: String| s@) == seq![
            "-v"@,
            "quiet"@,
            "-print_format"@,
            "json"@,
            "-show_streams"@,
            "-select_streams"@,
            "a"@,
            mp4@,
        ],
{
    let mut r: Vec<String> = Vec::new();
    r.push(owned("-v"));
    r.push(owned("quiet"));
    r.push(owned("-print_format"));
    r.push(owned("json"));
    r.push(owned("-show_streams"));
    r.push(owned("-select_streams"));
    r.push(owned("a"));
    r.push(owned(mp4));
    assert(r@.map_values(|s: String| s@) =~= seq![
        "-v"@,
        "quiet"@,
        "-print_format"@,
        "json"@,
        "-show_streams"@,
        "-select_streams"@,
        "a"@,
        mp4@,
    ]);
    r
}

/// The error of a failed `ffprobe` run, with its error output.
pub fn ffprobe_failed(stderr: &str) -> (e: String)
    ensures
        e@ == "ffprobe 退出码非 0: "@ + stderr@,
{
    let mut e = owned("ffprobe 退出码非 0: ");
    push_str(&mut e, stderr);
    e
}

/// `ffmpeg` arguments that copy `mp4` to `tmp` with the track list `json`
/// stored as metadata.
pub fn metadata_ffmpeg_args(mp4: &str, json: &str, tmp: &str) -> (r: Vec<String>)
    ensures
        r@.map_values(|s: String| s@) == seq![
            "-y"@,
            "-i"@,
            mp4@,
            "-c"@,
            "copy"@,
            "-metadata"@,
            "octopus_audio_tracks="@ + json@,
            tmp@,
        ],
{
    let mut r: Vec<String> = Vec::new();
    r.push(owned("-y"));
    r.push(owned("-i"));
    r.push(owned(mp4));
    r.push(owned("-c"));
    r.push(owned("copy"));
    r.push(owned("-metadata"));
    let mut m = owned("octopus_audio_tracks=");
    push_str(&mut m, json);
    r.push(m);
    r.push(owned(tmp));
    assert(r@.map_values(|s: String| s@) =~= seq![
        "-y"@,
        "-i"@,
        mp4@,
        "-c"@,
        "copy"@,
        "-metadata"@,
        "octopus_audio_tracks="@ + json@,
        tmp@,
    ]);
    r
}

/// The path `which` printed: trimmed, nothing when empty.
pub fn which_output_path(stdout: &str) -> (r: Option<String>)
    ensures
        trim(stdout@).len() == 0 ==> r is None,
        trim(stdout@).len() > 0 ==> (r matches Some(p) && p@ == trim(stdout@)),
{
    let v = chars_of(stdout);
    let t = trimmed(&v);
    if t.as_str().is_empty() {
        None
    } else {
        Some(t)
    }
}

} // verus!
