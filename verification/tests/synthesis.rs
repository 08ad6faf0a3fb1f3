use tvcode::accel::{
    detect_hardware_acceleration, EncoderAvailability, EncodingStrategy, HwKind, Platform,
};
use tvcode::command::{
    build_transcode_args, escape_filter_input, get_hw_encoding_args, get_output_path,
    get_sw_encoding_args, overlay_filter, subtitles_filter,
};
use tvcode::media::{BurnRequest, MediaProfile, SubtitleTrack};

fn profile(path: &str, video: &str, audio: &str, container: &str, width: u32, height: u32) -> MediaProfile {
    MediaProfile {
        path: path.to_string(),
        video_codec: video.to_string(),
        audio_codec: audio.to_string(),
        container: container.to_string(),
        width,
        height,
        subtitle_tracks: Vec::new(),
    }
}

fn track(subtitle_index: usize, codec: &str, is_bitmap: bool) -> SubtitleTrack {
    SubtitleTrack {
        subtitle_index,
        codec: codec.to_string(),
        language: None,
        title: None,
        is_bitmap,
    }
}

fn strs(args: &[&str]) -> Vec<String> {
    args.iter().map(|s| s.to_string()).collect()
}

#[test]
fn output_path_without_burn() {
    assert_eq!(get_output_path("movie.mkv", false), "movie_appletv.mp4");
}

#[test]
fn output_path_with_burn() {
    assert_eq!(get_output_path("movie.mkv", true), "movie_appletv_subs.mp4");
}

#[test]
fn output_path_keeps_the_directory() {
    assert_eq!(get_output_path("/films/b.c/movie.mkv", false), "/films/b.c/movie_appletv.mp4");
}

#[test]
fn output_path_without_extension() {
    assert_eq!(get_output_path("movie", false), "movie_appletv.mp4");
}

#[test]
fn output_path_of_a_hidden_file_keeps_the_whole_name() {
    assert_eq!(get_output_path(".hidden", false), ".hidden_appletv.mp4");
}

#[test]
fn software_args_are_the_fixed_crf_set() {
    assert_eq!(
        get_sw_encoding_args(),
        strs(&["-c:v", "libx264", "-preset", "medium", "-crf", "20", "-profile:v", "high", "-level", "4.1"])
    );
}

#[test]
fn videotoolbox_args_carry_the_target_bitrate() {
    assert_eq!(
        get_hw_encoding_args(HwKind::Videotoolbox, 1280, 720),
        strs(&["-c:v", "h264_videotoolbox", "-b:v", "5M", "-profile:v", "high", "-level", "4.1", "-allow_sw", "1"])
    );
}

#[test]
fn nvenc_args_carry_target_and_cap() {
    assert_eq!(
        get_hw_encoding_args(HwKind::Nvenc, 3840, 2160),
        strs(&["-c:v", "h264_nvenc", "-preset", "p7", "-b:v", "20M", "-maxrate", "30M", "-profile:v", "high", "-level", "4.1"])
    );
}

#[test]
fn qsv_args_carry_the_target_bitrate() {
    assert_eq!(
        get_hw_encoding_args(HwKind::Qsv, 1920, 1080),
        strs(&["-c:v", "h264_qsv", "-preset", "veryslow", "-b:v", "8M", "-profile:v", "high", "-level", "4.1"])
    );
}

#[test]
fn vaapi_args_name_the_render_device() {
    assert_eq!(
        get_hw_encoding_args(HwKind::Vaapi, 1920, 1080),
        strs(&["-vaapi_device", "/dev/dri/renderD128", "-c:v", "h264_vaapi", "-b:v", "8M", "-profile:v", "high"])
    );
}

#[test]
fn filter_path_escaping_handles_backslash_colon_and_quote() {
    assert_eq!(escape_filter_input("plain.mkv"), "plain.mkv");
    assert_eq!(escape_filter_input("a\\b"), "a\\\\b");
    assert_eq!(escape_filter_input("c:video"), "c\\:video");
    assert_eq!(escape_filter_input("it's"), "it'\\''s");
}

#[test]
fn overlay_filter_references_the_subtitle_plane() {
    assert_eq!(overlay_filter(1), "[0:v][0:s:1]overlay");
    assert_eq!(overlay_filter(12), "[0:v][0:s:12]overlay");
}

#[test]
fn subtitles_filter_references_the_escaped_input_path() {
    assert_eq!(
        subtitles_filter("dir/it's a.mkv", 0),
        "subtitles='dir/it'\\''s a.mkv':si=0"
    );
}

#[test]
fn full_hd_hevc_on_linux_with_nvenc_and_no_burn() {
    // The whole pipeline for a 1920x1080 HEVC/AC3/MKV file on a Linux host
    // with NVENC available and no burn request.
    let p = profile("movie.mkv", "hevc", "ac3", "matroska,webm", 1920, 1080);
    let avail = EncoderAvailability { nvenc: true, qsv: false, vaapi: false };
    let strategy = detect_hardware_acceleration(Platform::Linux, false, avail);
    assert_eq!(strategy, EncodingStrategy::Hardware(HwKind::Nvenc));
    let args = build_transcode_args(&p, &None, strategy);
    assert_eq!(
        args,
        strs(&[
            "-analyzeduration", "100000000", "-probesize", "100000000",
            "-i", "movie.mkv",
            "-c:v", "h264_nvenc", "-preset", "p7", "-b:v", "8M", "-maxrate", "12M",
            "-profile:v", "high", "-level", "4.1",
            "-c:a", "aac", "-b:a", "192k", "-ac", "2",
            "-sn", "-movflags", "+faststart", "-f", "mp4", "-y",
            "movie_appletv.mp4",
        ])
    );
}

#[test]
fn bitmap_burn_forces_software_and_composites_the_chosen_plane() {
    // Same file, but the user picks the bitmap track at position 2
    // (0-based subtitle index 1): software is forced, the overlay filter
    // references subtitle stream 1, the output carries the burn suffix,
    // and no subtitle streams survive into the output.
    let p = profile("movie.mkv", "hevc", "ac3", "matroska,webm", 1920, 1080);
    let burn = Some(BurnRequest { track: track(1, "hdmv_pgs_subtitle", true) });
    let avail = EncoderAvailability { nvenc: true, qsv: false, vaapi: false };
    let strategy = detect_hardware_acceleration(Platform::Linux, true, avail);
    assert_eq!(strategy, EncodingStrategy::Software);
    let args = build_transcode_args(&p, &burn, strategy);
    assert_eq!(
        args,
        strs(&[
            "-analyzeduration", "100000000", "-probesize", "100000000",
            "-i", "movie.mkv",
            "-filter_complex", "[0:v][0:s:1]overlay",
            "-c:v", "libx264", "-preset", "medium", "-crf", "20",
            "-profile:v", "high", "-level", "4.1",
            "-c:a", "aac", "-b:a", "192k", "-ac", "2",
            "-sn", "-movflags", "+faststart", "-f", "mp4", "-y",
            "movie_appletv_subs.mp4",
        ])
    );
    assert!(args.contains(&"-sn".to_string()));
}

#[test]
fn text_burn_renders_from_the_original_path() {
    let p = profile("movie.mkv", "h264", "aac", "mov,mp4,m4a,3gp,3g2,mj2", 1280, 720);
    let burn = Some(BurnRequest { track: track(0, "subrip", false) });
    let args = build_transcode_args(&p, &burn, EncodingStrategy::Software);
    assert_eq!(
        args,
        strs(&[
            "-analyzeduration", "100000000", "-probesize", "100000000",
            "-i", "movie.mkv",
            "-vf", "subtitles='movie.mkv':si=0",
            "-c:v", "libx264", "-preset", "medium", "-crf", "20",
            "-profile:v", "high", "-level", "4.1",
            "-c:a", "copy",
            "-sn", "-movflags", "+faststart", "-f", "mp4", "-y",
            "movie_appletv_subs.mp4",
        ])
    );
}

#[test]
fn matching_audio_is_stream_copied() {
    let p = profile("clip.avi", "mpeg4", "aac", "avi", 640, 480);
    let args = build_transcode_args(&p, &None, EncodingStrategy::Software);
    let pos = args.iter().position(|a| a == "-c:a").unwrap();
    assert_eq!(args[pos + 1], "copy");
}
