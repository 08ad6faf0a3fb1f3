//! The media data model and the stream classifier: raw probed stream records
//! are turned into a typed [`MediaProfile`] with classified subtitle tracks.

use vstd::prelude::*;
use vstd::string::*;
use crate::strutil::str_eq;

verus! {

broadcast use vstd::string::group_string_axioms;

/// The three type tags the classifier distinguishes are pairwise distinct.
proof fn lemma_type_tags_distinct()
    ensures
        "video"@ != "audio"@,
        "video"@ != "subtitle"@,
        "audio"@ != "subtitle"@,
{
    reveal_strlit("video");
    reveal_strlit("audio");
    reveal_strlit("subtitle");
    assert("video"@[0] == 'v');
    assert("audio"@[0] == 'a');
    assert("video"@.len() == 5);
    assert("subtitle"@.len() == 8);
}

/// One stream record as reported by the external analyzer: a type tag
/// (`"video"`, `"audio"`, `"subtitle"`, or anything else), a codec
/// identifier, pixel dimensions (zero when absent), and optional tags.
pub struct StreamRecord {
    pub codec_type: String,
    pub codec_name: String,
    pub width: u32,
    pub height: u32,
    pub language: Option<String>,
    pub title: Option<String>,
}

/// A classified subtitle track. `subtitle_index` is the position among
/// subtitle streams only (0-based), which is the index the encoder's
/// subtitle-stream selector references, distinct from the global stream
/// index.
pub struct SubtitleTrack {
    pub subtitle_index: usize,
    pub codec: String,
    pub language: Option<String>,
    pub title: Option<String>,
    pub is_bitmap: bool,
}

impl Clone for SubtitleTrack {
    fn clone(&self) -> (res: Self)
        ensures
            res == *self,
    {
        SubtitleTrack {
            subtitle_index: self.subtitle_index,
            codec: self.codec.clone(),
            language: clone_opt_string(&self.language),
            title: clone_opt_string(&self.title),
            is_bitmap: self.is_bitmap,
        }
    }
}

/// The profile derived once per input file: codecs of the first video and
/// first audio stream (or the `"unknown"` sentinel), the probed container
/// identifier, the pixel dimensions, and all subtitle tracks in probe order.
pub struct MediaProfile {
    pub path: String,
    pub video_codec: String,
    pub audio_codec: String,
    pub container: String,
    pub width: u32,
    pub height: u32,
    pub subtitle_tracks: Vec<SubtitleTrack>,
}

/// A request to burn one chosen subtitle track into the video plane.
pub struct BurnRequest {
    pub track: SubtitleTrack,
}

/// Copy an optional string, preserving its value.
pub fn clone_opt_string(o: &Option<String>) -> (r: Option<String>)
    ensures
        r == *o,
{
    match o {
        Some(s) => Some(s.clone()),
        None => None,
    }
}

/// The closed set of raster (bitmap) subtitle codec identifiers: the
/// optical-disc and broadcast formats that need pixel compositing rather
/// than text rendering.
pub open spec fn is_bitmap_codec(codec: Seq<char>) -> bool {
    ||| codec == "hdmv_pgs_subtitle"@
    ||| codec == "pgssub"@
    ||| codec == "dvd_subtitle"@
    ||| codec == "dvdsub"@
    ||| codec == "dvb_subtitle"@
    ||| codec == "dvbsub"@
}

/// True iff the codec identifier names a known raster subtitle format;
/// every other identifier, recognized or not, is treated as text-based.
pub fn is_bitmap_subtitle(codec: &str) -> (r: bool)
    ensures
        r == is_bitmap_codec(codec@),
{
    str_eq(codec, "hdmv_pgs_subtitle") || str_eq(codec, "pgssub") || str_eq(codec, "dvd_subtitle")
        || str_eq(codec, "dvdsub") || str_eq(codec, "dvb_subtitle") || str_eq(codec, "dvbsub")
}

/// The first record at or after position `i` whose type tag equals `tag`.
pub open spec fn first_of_type_from(streams: Seq<StreamRecord>, tag: Seq<char>, i: int) -> Option<
    StreamRecord,
>
    decreases streams.len() - i,
{
    if i < 0 || i >= streams.len() {
        None
    } else if streams[i].codec_type@ == tag {
        Some(streams[i])
    } else {
        first_of_type_from(streams, tag, i + 1)
    }
}

/// The first video stream of the probe, if any.
pub open spec fn first_video(streams: Seq<StreamRecord>) -> Option<StreamRecord> {
    first_of_type_from(streams, "video"@, 0)
}

/// The first audio stream of the probe, if any.
pub open spec fn first_audio(streams: Seq<StreamRecord>) -> Option<StreamRecord> {
    first_of_type_from(streams, "audio"@, 0)
}

/// The subsequence of subtitle-typed records, in probe order.
pub open spec fn subtitle_streams(streams: Seq<StreamRecord>) -> Seq<StreamRecord>
    decreases streams.len(),
{
    if streams.len() == 0 {
        Seq::empty()
    } else {
        let rest = subtitle_streams(streams.drop_last());
        if streams.last().codec_type@ == "subtitle"@ {
            rest.push(streams.last())
        } else {
            rest
        }
    }
}

/// The view of an optional string.
pub open spec fn opt_str_view(o: Option<String>) -> Option<Seq<char>> {
    match o {
        Some(s) => Some(s@),
        None => None,
    }
}

/// The track `t` is the classification of subtitle stream `r` at position
/// `j` of the subtitle-only ordering.
pub open spec fn track_of_stream(t: SubtitleTrack, r: StreamRecord, j: int) -> bool {
    &&& t.subtitle_index == j
    &&& t.codec@ == r.codec_name@
    &&& opt_str_view(t.language) == opt_str_view(r.language)
    &&& opt_str_view(t.title) == opt_str_view(r.title)
    &&& t.is_bitmap == is_bitmap_codec(r.codec_name@)
}

/// Subtitle indices are contiguous from 0 and equal each track's position
/// in the sequence.
pub open spec fn profile_wf(p: MediaProfile) -> bool {
    forall|j: int|
        0 <= j < p.subtitle_tracks@.len() ==> (#[trigger] p.subtitle_tracks@[j]).subtitle_index
            == j
}

/// The profile `p` is the classification of `streams` probed from `path`
/// inside container `container`.
pub open spec fn profile_of_streams(
    p: MediaProfile,
    path: Seq<char>,
    container: Seq<char>,
    streams: Seq<StreamRecord>,
) -> bool {
    &&& p.path@ == path
    &&& p.container@ == container
    &&& match first_video(streams) {
        Some(r) => p.video_codec@ == r.codec_name@ && p.width == r.width && p.height == r.height,
        None => p.video_codec@ == "unknown"@ && p.width == 0 && p.height == 0,
    }
    &&& match first_audio(streams) {
        Some(r) => p.audio_codec@ == r.codec_name@,
        None => p.audio_codec@ == "unknown"@,
    }
    &&& p.subtitle_tracks@.len() == subtitle_streams(streams).len()
    &&& forall|j: int|
        0 <= j < p.subtitle_tracks@.len() ==> track_of_stream(
            #[trigger] p.subtitle_tracks@[j],
            subtitle_streams(streams)[j],
            j,
        )
}

/// Build the [`MediaProfile`] of a probe result: the first video stream
/// populates the video fields, the first audio stream the audio field, and
/// every subtitle stream is collected in order under a sequential
/// `subtitle_index` starting at 0. Absent video or audio yields the
/// `"unknown"` sentinel and zero dimensions.
pub fn classify_streams(path: String, container: String, streams: &Vec<StreamRecord>) -> (p:
    MediaProfile)
    ensures
        profile_of_streams(p, path@, container@, streams@),
        profile_wf(p),
{
    let n = streams.len();
    let mut video_codec = String::from_str("unknown");
    let mut audio_codec = String::from_str("unknown");
    let mut width: u32 = 0;
    let mut height: u32 = 0;
    let mut video_found = false;
    let mut audio_found = false;
    let mut tracks: Vec<SubtitleTrack> = Vec::new();
    let mut i: usize = 0;
    while i < n
        invariant
            n == streams@.len(),
            i <= n,
            if video_found {
                match first_video(streams@) {
                    Some(r) => video_codec@ == r.codec_name@ && width == r.width && height
                        == r.height,
                    None => false,
                }
            } else {
                &&& first_video(streams@) == first_of_type_from(streams@, "video"@, i as int)
                &&& video_codec@ == "unknown"@
                &&& width == 0
                &&& height == 0
            },
            if audio_found {
                match first_audio(streams@) {
                    Some(r) => audio_codec@ == r.codec_name@,
                    None => false,
                }
            } else {
                &&& first_audio(streams@) == first_of_type_from(streams@, "audio"@, i as int)
                &&& audio_codec@ == "unknown"@
            },
            tracks@.len() == subtitle_streams(streams@.take(i as int)).len(),
            tracks@.len() <= i,
            forall|j: int|
                0 <= j < tracks@.len() ==> track_of_stream(
                    #[trigger] tracks@[j],
                    subtitle_streams(streams@.take(i as int))[j],
                    j,
                ),
        decreases n - i,
    {
        let stream = &streams[i];
        proof {
            assert(streams@.take(i + 1).drop_last() =~= streams@.take(i as int));
            assert(streams@.take(i + 1).last() == streams@[i as int]);
        }
        if str_eq(stream.codec_type.as_str(), "video") {
            if !video_found {
                video_codec = stream.codec_name.clone();
                width = stream.width;
                height = stream.height;
                video_found = true;
            }
        } else if str_eq(stream.codec_type.as_str(), "audio") {
            if !audio_found {
                audio_codec = stream.codec_name.clone();
                audio_found = true;
            }
        } else if str_eq(stream.codec_type.as_str(), "subtitle") {
            let track = SubtitleTrack {
                subtitle_index: tracks.len(),
                codec: stream.codec_name.clone(),
                language: clone_opt_string(&stream.language),
                title: clone_opt_string(&stream.title),
                is_bitmap: is_bitmap_subtitle(stream.codec_name.as_str()),
            };
            tracks.push(track);
        }
        proof {
            lemma_type_tags_distinct();
            let ct = streams@[i as int].codec_type@;
            if ct == "video"@ {
                assert(first_of_type_from(streams@, "video"@, i as int) == Some(
                    streams@[i as int],
                ));
            } else {
                assert(first_of_type_from(streams@, "video"@, i as int) == first_of_type_from(
                    streams@,
                    "video"@,
                    i + 1,
                ));
            }
            if ct == "audio"@ {
                assert(first_of_type_from(streams@, "audio"@, i as int) == Some(
                    streams@[i as int],
                ));
            } else {
                assert(first_of_type_from(streams@, "audio"@, i as int) == first_of_type_from(
                    streams@,
                    "audio"@,
                    i + 1,
                ));
            }
            if ct == "subtitle"@ {
                assert(subtitle_streams(streams@.take(i + 1)) == subtitle_streams(
                    streams@.take(i as int),
                ).push(streams@[i as int]));
            } else {
                assert(subtitle_streams(streams@.take(i + 1)) == subtitle_streams(
                    streams@.take(i as int),
                ));
            }
        }
        i = i + 1;
    }
    proof {
        assert(streams@.take(n as int) =~= streams@);
    }
    MediaProfile {
        path,
        video_codec,
        audio_codec,
        container,
        width,
        height,
        subtitle_tracks: tracks,
    }
}

} // verus!
