//! Decisions that the API's endpoints make before they query.

use vstd::prelude::*;

verus! {

/// Which track a track-info request asks for.
#[derive(Clone, Copy, Debug, PartialEq, Eq, Structural)]
pub enum TrackQuery {
    /// The track with this id.
    ById(i32),
    /// The most recently released tracks.
    Latest,
    /// Neither an id nor `latest: true` was given.
    Unspecified,
}

/// An id wins over `latest`; `latest` counts only when it is `true`.
pub fn track_query(track_id: Option<i32>, latest: Option<bool>) -> (r: TrackQuery)
    ensures
        track_id matches Some(id) ==> r == TrackQuery::ById(id),
        track_id is None && latest == Some(true) ==> r == TrackQuery::Latest,
        track_id is None && latest != Some(true) ==> r == TrackQuery::Unspecified,
{
    match track_id {
        Some(id) => TrackQuery::ById(id),
        None => match latest {
            Some(true) => TrackQuery::Latest,
            _ => TrackQuery::Unspecified,
        },
    }
}

} // verus!
