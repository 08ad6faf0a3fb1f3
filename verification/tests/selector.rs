use tvcode::media::SubtitleTrack;
use tvcode::subtitle::select_subtitle_track;

fn tracks(n: usize) -> Vec<SubtitleTrack> {
    (0..n)
        .map(|j| SubtitleTrack {
            subtitle_index: j,
            codec: "subrip".to_string(),
            language: Some(format!("lang{}", j)),
            title: None,
            is_bitmap: false,
        })
        .collect()
}

#[test]
fn selection_zero_skips() {
    assert!(select_subtitle_track(&tracks(3), Some(0)).is_none());
}

#[test]
fn selection_one_past_the_end_skips() {
    assert!(select_subtitle_track(&tracks(3), Some(4)).is_none());
}

#[test]
fn non_numeric_selection_skips() {
    assert!(select_subtitle_track(&tracks(3), None).is_none());
}

#[test]
fn empty_track_list_skips_every_selection() {
    assert!(select_subtitle_track(&tracks(0), Some(1)).is_none());
    assert!(select_subtitle_track(&tracks(0), Some(0)).is_none());
}

#[test]
fn in_range_selections_pick_the_track_one_below() {
    let ts = tracks(3);
    for n in 1..=3usize {
        let r = select_subtitle_track(&ts, Some(n)).unwrap();
        assert_eq!(r.track.subtitle_index, n - 1);
        assert_eq!(r.track.language.as_deref(), Some(format!("lang{}", n - 1).as_str()));
    }
}
