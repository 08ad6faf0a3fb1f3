//! The subtitle selector: interprets an already-obtained user selection
//! against the classified subtitle tracks, yielding an optional burn
//! request. It never performs the prompting itself.

use vstd::prelude::*;
use crate::media::{BurnRequest, SubtitleTrack};

verus! {

/// The 1-based selection `n` picks a track out of `len` of them.
pub open spec fn selection_in_range(n: int, len: nat) -> bool {
    1 <= n <= len
}

/// Interpret a user's subtitle selection. `None` stands for a non-numeric
/// reply; `Some(0)` is the explicit skip; `Some(n)` with `n` in
/// `[1, tracks.len()]` picks the track at 0-based position `n - 1`; any
/// out-of-range value fails soft and yields no request.
pub fn select_subtitle_track(tracks: &Vec<SubtitleTrack>, selection: Option<usize>) -> (r: Option<
    BurnRequest,
>)
    ensures
        r is Some <==> (selection is Some && selection_in_range(selection->0 as int, tracks@.len())),
        selection is Some && selection_in_range(selection->0 as int, tracks@.len()) ==> r == Some(
            BurnRequest { track: tracks@[selection->0 - 1] },
        ),
{
    match selection {
        Some(n) => {
            if n >= 1 && n <= tracks.len() {
                Some(BurnRequest { track: tracks[n - 1].clone() })
            } else {
                None
            }
        },
        None => None,
    }
}

/// Selection 0 and selection `len + 1` both fall outside the accepting
/// range, and the accepting selections `1..=len` map one-to-one onto the
/// 0-based track positions `0..len`.
pub proof fn lemma_selection_bounds(len: nat)
    ensures
        !selection_in_range(0, len),
        !selection_in_range(len + 1 as int, len),
        forall|n: int| #[trigger] selection_in_range(n, len) ==> 0 <= n - 1 < len,
        forall|n: int, m: int|
            selection_in_range(n, len) && selection_in_range(m, len) && n != m ==> n - 1 != m - 1,
        forall|j: int| 0 <= j < len ==> #[trigger] selection_in_range(j + 1, len) && (j + 1) - 1
            == j,
{
}

} // verus!
