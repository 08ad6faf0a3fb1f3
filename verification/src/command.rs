//! The command synthesizer: derives the output path and composes the
//! ordered argument sequence for the external encoder from a profile, an
//! optional burn request, a resolved strategy, and the bitrate policy.
//!
//! Paths are treated as strings with `/` as the directory separator.

use vstd::prelude::*;
use vstd::string::*;
use crate::accel::{EncodingStrategy, HwKind};
use crate::bitrate::{calculate_bitrate, calculate_max_bitrate, tier_max, tier_target};
use crate::media::{BurnRequest, MediaProfile, SubtitleTrack};
use crate::strutil::{spec_decimal, str_eq, usize_to_string};

verus! {

/// Length of the directory prefix of `p` up to position `k`: one past the
/// last `/` strictly before `k`, or zero when there is none.
pub open spec fn dir_len_upto(p: Seq<char>, k: int) -> int
    decreases k,
{
    if k <= 0 {
        0
    } else if p[k - 1] == '/' {
        k
    } else {
        dir_len_upto(p, k - 1)
    }
}

/// Length of the directory prefix of `p` (one past its last `/`).
pub open spec fn dir_len(p: Seq<char>) -> int {
    dir_len_upto(p, p.len() as int)
}

/// Position of the last `.` strictly before `k` that sits strictly after
/// position `d` (a dot leading the file name names a hidden file, not an
/// extension); the sentinel `d` when there is none.
pub open spec fn last_dot_upto(p: Seq<char>, d: int, k: int) -> int
    decreases k,
{
    if k <= 0 {
        d
    } else if p[k - 1] == '.' && k - 1 > d {
        k - 1
    } else {
        last_dot_upto(p, d, k - 1)
    }
}

/// Where the stem of `p` ends: just before the extension dot of the file
/// name, or the end of `p` when the name has no extension.
pub open spec fn stem_end(p: Seq<char>) -> int {
    let d = dir_len(p);
    let j = last_dot_upto(p, d, p.len() as int);
    if j == d {
        p.len() as int
    } else {
        j
    }
}

/// The derived output path: same directory, stem preserved, suffixed
/// `_appletv_subs` when a burn occurred or `_appletv` otherwise, with the
/// target container's canonical extension.
pub open spec fn spec_output_path(p: Seq<char>, burned: bool) -> Seq<char> {
    p.take(stem_end(p)) + if burned {
        "_appletv_subs.mp4"@
    } else {
        "_appletv.mp4"@
    }
}

/// Derive the output path for an input path.
pub fn get_output_path(input_path: &str, burned: bool) -> (r: String)
    ensures
        r@ == spec_output_path(input_path@, burned),
{
    let n = input_path.unicode_len();
    let mut d: usize = 0;
    let mut i: usize = 0;
    while i < n
        invariant
            n == input_path@.len(),
            i <= n,
            d <= i,
            d == dir_len_upto(input_path@, i as int),
        decreases n - i,
    {
        if input_path.get_char(i) == '/' {
            d = i + 1;
        }
        i = i + 1;
    }
    proof {
        assert(dir_len(input_path@) == d);
    }
    let mut j = d;
    i = 0;
    while i < n
        invariant
            n == input_path@.len(),
            i <= n,
            d <= j,
            j <= n,
            j == d || (d < j && j < i),
            j == last_dot_upto(input_path@, d as int, i as int),
        decreases n - i,
    {
        if i > d && input_path.get_char(i) == '.' {
            j = i;
        }
        i = i + 1;
    }
    let se: usize = if j == d {
        n
    } else {
        j
    };
    proof {
        assert(se == stem_end(input_path@));
    }
    let stem = input_path.substring_char(0, se);
    proof {
        assert(stem@ =~= input_path@.take(se as int));
    }
    if burned {
        String::from_str(stem).concat("_appletv_subs.mp4")
    } else {
        String::from_str(stem).concat("_appletv.mp4")
    }
}

/// How one character of an input path reads inside the quoted argument of
/// the text-subtitle rendering filter: backslash, colon, and single quote
/// need escaping per the filter syntax.
pub open spec fn escape_char(c: char) -> Seq<char> {
    if c == '\\' {
        "\\\\"@
    } else if c == ':' {
        "\\:"@
    } else if c == '\'' {
        "'\\''"@
    } else {
        seq![c]
    }
}

/// The whole path escaped character by character.
pub open spec fn escape_filter_path(s: Seq<char>) -> Seq<char>
    decreases s.len(),
{
    if s.len() == 0 {
        Seq::empty()
    } else {
        escape_filter_path(s.drop_last()) + escape_char(s.last())
    }
}

/// Escape a path for use inside the rendering filter's quoted argument.
pub fn escape_filter_input(s: &str) -> (r: String)
    ensures
        r@ == escape_filter_path(s@),
{
    let n = s.unicode_len();
    let mut out = String::new();
    let mut i: usize = 0;
    while i < n
        invariant
            n == s@.len(),
            i <= n,
            out@ == escape_filter_path(s@.take(i as int)),
        decreases n - i,
    {
        proof {
            assert(s@.take(i + 1).drop_last() =~= s@.take(i as int));
            assert(s@.take(i + 1).last() == s@[i as int]);
        }
        let c = s.get_char(i);
        if c == '\\' {
            out.append("\\\\");
        } else if c == ':' {
            out.append("\\:");
        } else if c == '\'' {
            out.append("'\\''");
        } else {
            let piece = s.substring_char(i, i + 1);
            proof {
                assert(piece@ =~= seq![c]);
            }
            out.append(piece);
        }
        i = i + 1;
    }
    proof {
        assert(s@.take(n as int) =~= s@);
    }
    out
}

/// The compositing filter graph for a bitmap burn: overlays the subtitle
/// plane at the given subtitle-only index onto the video plane.
pub open spec fn overlay_filter_spec(idx: int) -> Seq<char> {
    "[0:v][0:s:"@ + spec_decimal(idx) + "]overlay"@
}

/// Build the bitmap-overlay filter graph string.
pub fn overlay_filter(subtitle_index: usize) -> (r: String)
    ensures
        r@ == overlay_filter_spec(subtitle_index as int),
{
    String::from_str("[0:v][0:s:").concat(usize_to_string(subtitle_index).as_str()).concat(
        "]overlay",
    )
}

/// The rendering filter for a text burn: references the original input
/// file path (escaped) and the subtitle stream index within it.
pub open spec fn subtitles_filter_spec(path: Seq<char>, idx: int) -> Seq<char> {
    "subtitles='"@ + escape_filter_path(path) + "':si="@ + spec_decimal(idx)
}

/// Build the text-subtitle rendering filter string.
pub fn subtitles_filter(input_path: &str, subtitle_index: usize) -> (r: String)
    ensures
        r@ == subtitles_filter_spec(input_path@, subtitle_index as int),
{
    String::from_str("subtitles='").concat(escape_filter_input(input_path).as_str()).concat(
        "':si=",
    ).concat(usize_to_string(subtitle_index).as_str())
}

/// The software (CRF x264-style) video parameter set.
pub open spec fn sw_args_spec() -> Seq<Seq<char>> {
    seq![
        "-c:v"@,
        "libx264"@,
        "-preset"@,
        "medium"@,
        "-crf"@,
        "20"@,
        "-profile:v"@,
        "high"@,
        "-level"@,
        "4.1"@,
    ]
}

/// Software encoding arguments: constant-rate-factor x264 with the fixed
/// preset, CRF 20, High profile, Level 4.1.
pub fn get_sw_encoding_args() -> (r: Vec<String>)
    ensures
        r.deep_view() == sw_args_spec(),
{
    let mut args: Vec<String> = Vec::new();
    args.push(String::from_str("-c:v"));
    args.push(String::from_str("libx264"));
    args.push(String::from_str("-preset"));
    args.push(String::from_str("medium"));
    args.push(String::from_str("-crf"));
    args.push(String::from_str("20"));
    args.push(String::from_str("-profile:v"));
    args.push(String::from_str("high"));
    args.push(String::from_str("-level"));
    args.push(String::from_str("4.1"));
    proof {
        assert(args.deep_view() =~= sw_args_spec());
    }
    args
}

/// The fixed parameter set of each hardware kind, carrying the bitrate
/// tier's target, and its VBV cap where the kind supports one.
pub open spec fn hw_args_spec(kind: HwKind, pixels: int) -> Seq<Seq<char>> {
    match kind {
        HwKind::Videotoolbox => seq![
            "-c:v"@,
            "h264_videotoolbox"@,
            "-b:v"@,
            tier_target(pixels),
            "-profile:v"@,
            "high"@,
            "-level"@,
            "4.1"@,
            "-allow_sw"@,
            "1"@,
        ],
        HwKind::Nvenc => seq![
            "-c:v"@,
            "h264_nvenc"@,
            "-preset"@,
            "p7"@,
            "-b:v"@,
            tier_target(pixels),
            "-maxrate"@,
            tier_max(pixels),
            "-profile:v"@,
            "high"@,
            "-level"@,
            "4.1"@,
        ],
        HwKind::Qsv => seq![
            "-c:v"@,
            "h264_qsv"@,
            "-preset"@,
            "veryslow"@,
            "-b:v"@,
            tier_target(pixels),
            "-profile:v"@,
            "high"@,
            "-level"@,
            "4.1"@,
        ],
        HwKind::Vaapi => seq![
            "-vaapi_device"@,
            "/dev/dri/renderD128"@,
            "-c:v"@,
            "h264_vaapi"@,
            "-b:v"@,
            tier_target(pixels),
            "-profile:v"@,
            "high"@,
        ],
    }
}

/// Hardware encoding arguments for a resolved kind at a resolution.
pub fn get_hw_encoding_args(kind: HwKind, width: u32, height: u32) -> (r: Vec<String>)
    ensures
        r.deep_view() == hw_args_spec(kind, width as int * height as int),
{
    let mut args: Vec<String> = Vec::new();
    match kind {
        HwKind::Videotoolbox => {
            args.push(String::from_str("-c:v"));
            args.push(String::from_str("h264_videotoolbox"));
            args.push(String::from_str("-b:v"));
            args.push(calculate_bitrate(width, height));
            args.push(String::from_str("-profile:v"));
            args.push(String::from_str("high"));
            args.push(String::from_str("-level"));
            args.push(String::from_str("4.1"));
            args.push(String::from_str("-allow_sw"));
            args.push(String::from_str("1"));
        },
        HwKind::Nvenc => {
            args.push(String::from_str("-c:v"));
            args.push(String::from_str("h264_nvenc"));
            args.push(String::from_str("-preset"));
            args.push(String::from_str("p7"));
            args.push(String::from_str("-b:v"));
            args.push(calculate_bitrate(width, height));
            args.push(String::from_str("-maxrate"));
            args.push(calculate_max_bitrate(width, height));
            args.push(String::from_str("-profile:v"));
            args.push(String::from_str("high"));
            args.push(String::from_str("-level"));
            args.push(String::from_str("4.1"));
        },
        HwKind::Qsv => {
            args.push(String::from_str("-c:v"));
            args.push(String::from_str("h264_qsv"));
            args.push(String::from_str("-preset"));
            args.push(String::from_str("veryslow"));
            args.push(String::from_str("-b:v"));
            args.push(calculate_bitrate(width, height));
            args.push(String::from_str("-profile:v"));
            args.push(String::from_str("high"));
            args.push(String::from_str("-level"));
            args.push(String::from_str("4.1"));
        },
        HwKind::Vaapi => {
            args.push(String::from_str("-vaapi_device"));
            args.push(String::from_str("/dev/dri/renderD128"));
            args.push(String::from_str("-c:v"));
            args.push(String::from_str("h264_vaapi"));
            args.push(String::from_str("-b:v"));
            args.push(calculate_bitrate(width, height));
            args.push(String::from_str("-profile:v"));
            args.push(String::from_str("high"));
        },
    }
    proof {
        assert(args.deep_view() =~= hw_args_spec(kind, width as int * height as int));
    }
    args
}

/// The audio arguments: a stream copy when the source already carries the
/// target codec, otherwise a transcode to the target at the fixed bitrate
/// and stereo downmix.
pub open spec fn audio_args_spec(audio_codec: Seq<char>) -> Seq<Seq<char>> {
    if audio_codec == "aac"@ {
        seq!["-c:a"@, "copy"@]
    } else {
        seq!["-c:a"@, "aac"@, "-b:a"@, "192k"@, "-ac"@, "2"@]
    }
}

/// Build the audio arguments for a source audio codec.
pub fn audio_encoding_args(audio_codec: &str) -> (r: Vec<String>)
    ensures
        r.deep_view() == audio_args_spec(audio_codec@),
{
    let mut args: Vec<String> = Vec::new();
    if str_eq(audio_codec, "aac") {
        args.push(String::from_str("-c:a"));
        args.push(String::from_str("copy"));
    } else {
        args.push(String::from_str("-c:a"));
        args.push(String::from_str("aac"));
        args.push(String::from_str("-b:a"));
        args.push(String::from_str("192k"));
        args.push(String::from_str("-ac"));
        args.push(String::from_str("2"));
    }
    proof {
        assert(args.deep_view() =~= audio_args_spec(audio_codec@));
    }
    args
}

/// The human-facing label of a strategy, for the reporting collaborator.
pub open spec fn strategy_label_spec(s: EncodingStrategy) -> Seq<char> {
    match s {
        EncodingStrategy::Software => "software"@,
        EncodingStrategy::Hardware(HwKind::Videotoolbox) => "videotoolbox"@,
        EncodingStrategy::Hardware(HwKind::Nvenc) => "nvenc"@,
        EncodingStrategy::Hardware(HwKind::Qsv) => "qsv"@,
        EncodingStrategy::Hardware(HwKind::Vaapi) => "vaapi"@,
    }
}

/// Label a strategy for status reporting.
pub fn strategy_label(s: EncodingStrategy) -> (r: String)
    ensures
        r@ == strategy_label_spec(s),
{
    match s {
        EncodingStrategy::Software => String::from_str("software"),
        EncodingStrategy::Hardware(HwKind::Videotoolbox) => String::from_str("videotoolbox"),
        EncodingStrategy::Hardware(HwKind::Nvenc) => String::from_str("nvenc"),
        EncodingStrategy::Hardware(HwKind::Qsv) => String::from_str("qsv"),
        EncodingStrategy::Hardware(HwKind::Vaapi) => String::from_str("vaapi"),
    }
}

/// The track inside an optional burn request.
pub open spec fn burn_track(b: Option<BurnRequest>) -> Option<SubtitleTrack> {
    match b {
        Some(req) => Some(req.track),
        None => None,
    }
}

/// The probing-size hints and the input-file argument that open every
/// invocation: large analyze-duration/probe-size values make the encode
/// pass detect the stream layout identically to the initial probe.
pub open spec fn head_args_spec(path: Seq<char>) -> Seq<Seq<char>> {
    seq!["-analyzeduration"@, "100000000"@, "-probesize"@, "100000000"@, "-i"@, path]
}

/// The video-plane arguments: one of the three mutually exclusive burn
/// branches. A bitmap burn composites via the overlay filter graph; a text
/// burn renders via the subtitles filter; both force the software parameter
/// set. Without a burn the resolved strategy's parameter set is emitted.
pub open spec fn video_args_spec(
    p: MediaProfile,
    burn: Option<SubtitleTrack>,
    strategy: EncodingStrategy,
) -> Seq<Seq<char>> {
    match burn {
        Some(t) => if t.is_bitmap {
            seq!["-filter_complex"@, overlay_filter_spec(t.subtitle_index as int)] + sw_args_spec()
        } else {
            seq!["-vf"@, subtitles_filter_spec(p.path@, t.subtitle_index as int)] + sw_args_spec()
        },
        None => match strategy {
            EncodingStrategy::Software => sw_args_spec(),
            EncodingStrategy::Hardware(k) => hw_args_spec(k, p.width as int * p.height as int),
        },
    }
}

/// The closing arguments: no subtitle streams in the output, fast-start
/// container metadata, the forced output format, overwrite, and the
/// derived output path.
pub open spec fn tail_args_spec(path: Seq<char>, burned: bool) -> Seq<Seq<char>> {
    seq!["-sn"@, "-movflags"@, "+faststart"@, "-f"@, "mp4"@, "-y"@, spec_output_path(path, burned)]
}

/// The complete ordered argument sequence of one encoder invocation.
pub open spec fn transcode_args_spec(
    p: MediaProfile,
    burn: Option<SubtitleTrack>,
    strategy: EncodingStrategy,
) -> Seq<Seq<char>> {
    head_args_spec(p.path@) + video_args_spec(p, burn, strategy) + audio_args_spec(p.audio_codec@)
        + tail_args_spec(p.path@, burn is Some)
}

/// Compose the full encoder invocation for one file: probing hints and
/// input, the video-plane branch (burn filter or strategy parameter set),
/// the audio branch, and the closing output arguments ending in the
/// derived output path.
pub fn build_transcode_args(
    profile: &MediaProfile,
    burn: &Option<BurnRequest>,
    strategy: EncodingStrategy,
) -> (r: Vec<String>)
    ensures
        r.deep_view() == transcode_args_spec(*profile, burn_track(*burn), strategy),
{
    let mut args: Vec<String> = Vec::new();
    args.push(String::from_str("-analyzeduration"));
    args.push(String::from_str("100000000"));
    args.push(String::from_str("-probesize"));
    args.push(String::from_str("100000000"));
    args.push(String::from_str("-i"));
    args.push(profile.path.clone());
    proof {
        assert(args.deep_view() =~= head_args_spec(profile.path@));
    }
    let ghost head = args.deep_view();
    match burn {
        Some(req) => {
            if req.track.is_bitmap {
                args.push(String::from_str("-filter_complex"));
                args.push(overlay_filter(req.track.subtitle_index));
            } else {
                args.push(String::from_str("-vf"));
                args.push(subtitles_filter(profile.path.as_str(), req.track.subtitle_index));
            }
            let mut sw = get_sw_encoding_args();
            args.append(&mut sw);
        },
        None => {
            match strategy {
                EncodingStrategy::Software => {
                    let mut sw = get_sw_encoding_args();
                    args.append(&mut sw);
                },
                EncodingStrategy::Hardware(kind) => {
                    let mut hw = get_hw_encoding_args(kind, profile.width, profile.height);
                    args.append(&mut hw);
                },
            }
        },
    }
    proof {
        assert(args.deep_view() =~= head + video_args_spec(*profile, burn_track(*burn), strategy));
    }
    let ghost with_video = args.deep_view();
    let mut audio = audio_encoding_args(profile.audio_codec.as_str());
    args.append(&mut audio);
    proof {
        assert(args.deep_view() =~= with_video + audio_args_spec(profile.audio_codec@));
    }
    let ghost with_audio = args.deep_view();
    args.push(String::from_str("-sn"));
    args.push(String::from_str("-movflags"));
    args.push(String::from_str("+faststart"));
    args.push(String::from_str("-f"));
    args.push(String::from_str("mp4"));
    args.push(String::from_str("-y"));
    args.push(get_output_path(profile.path.as_str(), burn.is_some()));
    proof {
        assert(args.deep_view() =~= with_audio + tail_args_spec(profile.path@, burn_track(*burn) is Some));
        assert(args.deep_view() =~= transcode_args_spec(*profile, burn_track(*burn), strategy));
    }
    args
}

} // verus!
