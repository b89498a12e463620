use vstd::prelude::*;

use crate::outcome::Rejection;
use crate::text::{join, joined, texts};

verus! {

/// How many tracks a search asks for.
pub const SEARCH_LIMIT: u32 = 5;

/// How many of the user's playlists are listed.
pub const PLAYLIST_LIMIT: u32 = 10;

/// A track found by a search.
#[derive(Clone, Debug, PartialEq, Eq)]
pub struct TrackResult {
    pub id: String,
    pub title: String,
    pub contributors: Vec<String>,
}

/// One of the user's playlists.
#[derive(Clone, Debug, PartialEq, Eq)]
pub struct PlaylistResult {
    pub id: String,
    pub name: String,
}

/// How a found track is offered: "title - contributor, contributor".
pub open spec fn track_label_text(t: TrackResult) -> Seq<char> {
    t.title@ + " - "@ + joined(texts(t.contributors@), ", "@)
}

impl TrackResult {
    /// How the track is offered in a menu.
    pub fn label(&self) -> (r: String)
        ensures
            r@ == track_label_text(*self),
    {
        let mut r = self.title.clone();
        r.append(" - ");
        let names = join(&self.contributors, ", ");
        r.append(names.as_str());
        r
    }
}

/// The menu entries for found tracks, in order; nothing found is refused.
pub fn track_menu(tracks: &Vec<TrackResult>) -> (r: Result<Vec<String>, Rejection>)
    ensures
        tracks@.len() == 0 ==> r == Err::<Vec<String>, Rejection>(Rejection::NothingFound),
        tracks@.len() > 0 ==> (r matches Ok(labels) && labels@.len() == tracks@.len()
            && forall|i: int| 0 <= i < labels@.len() ==> #[trigger] labels@[i]@ == track_label_text(tracks@[i])),
{
    if tracks.len() == 0 {
        return Err(Rejection::NothingFound);
    }
    let mut labels: Vec<String> = Vec::new();
    let mut i: usize = 0;
    while i < tracks.len()
        invariant
            i <= tracks@.len(),
            labels@.len() == i,
            forall|k: int| 0 <= k < i ==> #[trigger] labels@[k]@ == track_label_text(tracks@[k]),
        decreases tracks@.len() - i,
    {
        labels.push(tracks[i].label());
        i = i + 1;
    }
    Ok(labels)
}

/// The menu entries for playlists, their names in order; none is refused.
pub fn playlist_menu(playlists: &Vec<PlaylistResult>) -> (r: Result<Vec<String>, Rejection>)
    ensures
        playlists@.len() == 0 ==> r == Err::<Vec<String>, Rejection>(Rejection::NothingFound),
        playlists@.len() > 0 ==> (r matches Ok(names) && names@.len() == playlists@.len()
            && forall|i: int| 0 <= i < names@.len() ==> #[trigger] names@[i] == playlists@[i].name),
{
    if playlists.len() == 0 {
        return Err(Rejection::NothingFound);
    }
    let mut names: Vec<String> = Vec::new();
    let mut i: usize = 0;
    while i < playlists.len()
        invariant
            i <= playlists@.len(),
            names@.len() == i,
            forall|k: int| 0 <= k < i ==> #[trigger] names@[k] == playlists@[k].name,
        decreases playlists@.len() - i,
    {
        names.push(playlists[i].name.clone());
        i = i + 1;
    }
    Ok(names)
}

} // verus!
