//! Reading ffprobe's JSON report of a clip: the frame size of the video
//! stream, whether an audio stream is present, and the duration texts that
//! the streams and the container report, in the order they are consulted.
use vstd::prelude::*;
use crate::json::{
    elements_of, i64_of, json_contents, json_parse_bytes, member, parse_json_bytes, text_of,
    value_elements, value_i64, value_member, value_text, JsonView,
};
use crate::text::str_equal;

verus! {

/// Why a probe report could not be read.
#[derive(Debug)]
pub enum ProbeError {
    /// The report is not one JSON value.
    InvalidJson,
}

/// The duration text of a video (`video`) or an audio stream, if it has one.
#[derive(Debug)]
pub struct StreamDuration {
    pub video: bool,
    pub duration: Option<String>,
}

/// What a probe report says of a clip.
#[derive(Debug)]
pub struct ProbeInfo {
    /// Width of the last video stream, 0 without one.
    pub width: i32,
    /// Height of the last video stream, 0 without one.
    pub height: i32,
    /// Whether an audio stream is present.
    pub has_audio: bool,
    /// The video and audio streams' duration texts, in stream order.
    pub stream_durations: Vec<StreamDuration>,
    /// The container's duration text.
    pub format_duration: Option<String>,
}

/// Mathematical model of a probe result.
pub struct ProbeInfoView {
    pub width: i32,
    pub height: i32,
    pub has_audio: bool,
    pub stream_durations: Seq<(bool, Option<Seq<char>>)>,
    pub format_duration: Option<Seq<char>>,
}

/// The view of an optional text.
pub open spec fn opt_text(t: Option<String>) -> Option<Seq<char>> {
    match t {
        Some(s) => Some(s@),
        None => None,
    }
}

/// The view of a stream's duration entry.
pub open spec fn duration_view(d: StreamDuration) -> (bool, Option<Seq<char>>) {
    (d.video, opt_text(d.duration))
}

impl View for ProbeInfo {
    type V = ProbeInfoView;

    open spec fn view(&self) -> ProbeInfoView {
        ProbeInfoView {
            width: self.width,
            height: self.height,
            has_audio: self.has_audio,
            stream_durations: self.stream_durations@.map_values(|d: StreamDuration| duration_view(d)),
            format_duration: opt_text(self.format_duration),
        }
    }
}

/// A frame dimension of a stream: the integer member `key`, as a 32-bit
/// integer (truncated), or 0.
pub open spec fn dimension(st: JsonView, key: Seq<char>) -> i32 {
    match i64_of(member(st, key)) {
        Some(n) => n as i32,
        None => 0,
    }
}

/// The probe result before any stream is read.
pub open spec fn empty_probe() -> ProbeInfoView {
    ProbeInfoView { width: 0, height: 0, has_audio: false, stream_durations: Seq::empty(), format_duration: None }
}

/// One stream read into a probe result: a video stream sets the frame size,
/// an audio stream marks audio; both add their duration text.
pub open spec fn read_stream(acc: ProbeInfoView, st: JsonView) -> ProbeInfoView {
    let codec = text_of(member(st, "codec_type"@));
    let d = text_of(member(st, "duration"@));
    if codec == Some("video"@) {
        ProbeInfoView {
            width: dimension(st, "width"@),
            height: dimension(st, "height"@),
            stream_durations: acc.stream_durations.push((true, d)),
            ..acc
        }
    } else if codec == Some("audio"@) {
        ProbeInfoView { has_audio: true, stream_durations: acc.stream_durations.push((false, d)), ..acc }
    } else {
        acc
    }
}

/// The streams read in order.
pub open spec fn read_streams(streams: Seq<JsonView>) -> ProbeInfoView
    decreases streams.len(),
{
    if streams.len() == 0 {
        empty_probe()
    } else {
        read_stream(read_streams(streams.drop_last()), streams.last())
    }
}

/// What a report says: its `streams` array read in order (none when it is
/// missing), and the `duration` text of its `format` object.
pub open spec fn probe_info(report: JsonView) -> ProbeInfoView {
    let streams = match elements_of(member(report, "streams"@)) {
        Some(s) => s,
        None => Seq::empty(),
    };
    let format_duration = match member(report, "format"@) {
        Some(f) => text_of(member(f, "duration"@)),
        None => None,
    };
    ProbeInfoView { format_duration, ..read_streams(streams) }
}

/// The text of member `key` of a value.
fn member_text(v: &serde_json::Value, key: &str) -> (r: Option<String>)
    ensures
        opt_text(r) == text_of(member(json_contents(*v), key@)),
{
    match value_member(v, key) {
        Some(m) => match value_text(m) {
            Some(s) => Some(s.to_owned()),
            None => None,
        },
        None => None,
    }
}

/// A frame dimension of a stream, as `dimension` gives it.
fn member_dimension(v: &serde_json::Value, key: &str) -> (r: i32)
    ensures
        r == dimension(json_contents(*v), key@),
{
    match value_member(v, key) {
        Some(m) => match value_i64(m) {
            Some(n) => n as i32,
            None => 0,
        },
        None => 0,
    }
}

/// Reads ffprobe's JSON report (its standard output) of a clip's streams.
pub fn probe_streams(stdout: &[u8]) -> (r: Result<ProbeInfo, ProbeError>)
    ensures
        match json_parse_bytes(stdout@) {
            None => r matches Err(ProbeError::InvalidJson),
            Some(report) => r matches Ok(info) && info@ == probe_info(report),
        },
{
    let json = match parse_json_bytes(stdout) {
        Some(v) => v,
        None => return Err(ProbeError::InvalidJson),
    };
    let ghost report = json_contents(json);
    let mut info = ProbeInfo {
        width: 0,
        height: 0,
        has_audio: false,
        stream_durations: Vec::new(),
        format_duration: None,
    };
    assert(info@.stream_durations =~= empty_probe().stream_durations);
    let ghost streams: Seq<JsonView> = match elements_of(member(report, "streams"@)) {
        Some(s) => s,
        None => Seq::empty(),
    };
    match value_member(&json, "streams") {
        Some(sv) => match value_elements(sv) {
            Some(list) => {
                assert(streams == list@.map_values(|x: serde_json::Value| json_contents(x)));
                let n = list.len();
                for i in 0..n
                    invariant
                        n == list.len(),
                        streams == list@.map_values(|x: serde_json::Value| json_contents(x)),
                        info@ == read_streams(streams.take(i as int)),
                {
                    let st = &list[i];
                    let ghost before = info@;
                    assert(streams.take(i + 1).drop_last() =~= streams.take(i as int));
                    assert(streams.take(i + 1).last() == json_contents(*st));
                    let codec = member_text(st, "codec_type");
                    let is_video = match &codec {
                        Some(c) => str_equal(c.as_str(), "video"),
                        None => false,
                    };
                    let is_audio = match &codec {
                        Some(c) => str_equal(c.as_str(), "audio"),
                        None => false,
                    };
                    if is_video {
                        info.width = member_dimension(st, "width");
                        info.height = member_dimension(st, "height");
                        let d = member_text(st, "duration");
                        info.stream_durations.push(StreamDuration { video: true, duration: d });
                    } else if is_audio {
                        info.has_audio = true;
                        let d = member_text(st, "duration");
                        info.stream_durations.push(StreamDuration { video: false, duration: d });
                    }
                    assert(info@.stream_durations =~= read_streams(streams.take(i + 1)).stream_durations);
                }
                assert(streams.take(n as int) =~= streams);
            },
            None => {
                assert(streams =~= Seq::<JsonView>::empty());
            },
        },
        None => {
            assert(streams =~= Seq::<JsonView>::empty());
        },
    }
    info.format_duration = match value_member(&json, "format") {
        Some(f) => member_text(f, "duration"),
        None => None,
    };
    Ok(info)
}

} // verus!

verus! {

/// Whether a stream of a probe report has the codec type `codec`.
pub open spec fn has_codec(st: JsonView, codec: Seq<char>) -> bool {
    text_of(member(st, "codec_type"@)) == Some(codec)
}

proof fn lemma_audio_found(streams: Seq<JsonView>)
    ensures
        read_streams(streams).has_audio
            <==> exists|i: int| 0 <= i < streams.len() && has_codec(#[trigger] streams[i], "audio"@),
    decreases streams.len(),
{
    reveal_strlit("video");
    reveal_strlit("audio");
    if streams.len() > 0 {
        let init = streams.drop_last();
        lemma_audio_found(init);
        let last = streams.last();
        assert("video"@ != "audio"@) by {
            assert("video"@[0] != "audio"@[0]);
        }
        if read_streams(streams).has_audio {
            if !has_codec(last, "audio"@) {
                assert(read_streams(init).has_audio);
                let i = choose|i: int| 0 <= i < init.len() && has_codec(#[trigger] init[i], "audio"@);
                assert(streams[i] == init[i]);
            } else {
                assert(streams[streams.len() - 1] == last);
            }
        }
        if exists|i: int| 0 <= i < streams.len() && has_codec(#[trigger] streams[i], "audio"@) {
            let i = choose|i: int| 0 <= i < streams.len() && has_codec(#[trigger] streams[i], "audio"@);
            if i < streams.len() - 1 {
                assert(init[i] == streams[i]);
            }
        }
    }
}

/// A probed clip has audio exactly when some stream of the report has the
/// codec type "audio": streams of any other type (video, data, subtitles)
/// never mark audio.
pub proof fn law_audio_means_an_audio_stream(report: JsonView)
    ensures
        probe_info(report).has_audio <==> (elements_of(member(report, "streams"@)) matches Some(streams)
            && exists|i: int| 0 <= i < streams.len() && has_codec(#[trigger] streams[i], "audio"@)),
{
    match elements_of(member(report, "streams"@)) {
        Some(s) => lemma_audio_found(s),
        None => lemma_audio_found(Seq::empty()),
    }
}

} // verus!
