//! The compatibility evaluator: decides whether a profiled file already
//! satisfies the target delivery profile (H.264 video, AAC audio, an
//! MP4-family container) or must be transcoded.

use vstd::prelude::*;
use crate::media::MediaProfile;
use crate::strutil::{has_substring, contains_substr, str_eq};

verus! {

/// The single target video codec identifier.
pub open spec fn target_video_codec() -> Seq<char> {
    "h264"@
}

/// The single target audio codec identifier.
pub open spec fn target_audio_codec() -> Seq<char> {
    "aac"@
}

/// The probed container identifier names the target container family:
/// it contains one of the target aliases as a substring (the probe may
/// list several aliases, e.g. `"mov,mp4,m4a,3gp,3g2,mj2"`).
pub open spec fn container_compatible(container: Seq<char>) -> bool {
    has_substring(container, "mp4"@) || has_substring(container, "m4v"@)
}

/// The profile is compliant: target video codec, target audio codec, and a
/// container that names the target family. The `"unknown"` sentinel never
/// equals a target identifier, so an undetected stream is non-compliant.
pub open spec fn spec_compliant(p: MediaProfile) -> bool {
    &&& p.video_codec@ == target_video_codec()
    &&& p.audio_codec@ == target_audio_codec()
    &&& container_compatible(p.container@)
}

/// A transcode is needed exactly when the profile is not compliant.
pub open spec fn spec_needs_transcoding(p: MediaProfile) -> bool {
    !spec_compliant(p)
}

/// Pure pass/transcode decision for one profile. Callers that hold a burn
/// request must force a transcode themselves, since burning re-encodes the
/// video plane even when the codecs already match.
pub fn needs_transcoding(profile: &MediaProfile) -> (r: bool)
    ensures
        r == spec_needs_transcoding(*profile),
{
    let video_compatible = str_eq(profile.video_codec.as_str(), "h264");
    let audio_compatible = str_eq(profile.audio_codec.as_str(), "aac");
    let container_ok = contains_substr(profile.container.as_str(), "mp4") || contains_substr(
        profile.container.as_str(),
        "m4v",
    );
    !(video_compatible && audio_compatible && container_ok)
}

/// Every profile with the target video codec, the target audio codec, and a
/// container naming a target alias needs no transcode.
pub proof fn lemma_compliant_profile_passes(p: MediaProfile)
    requires
        p.video_codec@ == target_video_codec(),
        p.audio_codec@ == target_audio_codec(),
        container_compatible(p.container@),
    ensures
        !spec_needs_transcoding(p),
{
}

/// Whenever any one of the three compliance conditions fails, a transcode is
/// needed, regardless of the other two.
pub proof fn lemma_any_mismatch_forces_transcode(p: MediaProfile)
    requires
        p.video_codec@ != target_video_codec() || p.audio_codec@ != target_audio_codec()
            || !container_compatible(p.container@),
    ensures
        spec_needs_transcoding(p),
{
}

} // verus!
