use vstd::prelude::*;

use crate::text::{copy_strings, decimal, decimal_text, join, joined, texts};

verus! {

/// What the service is playing: a music track, with its artists, or a
/// podcast episode, which has none.
#[derive(Clone, Debug, PartialEq, Eq)]
pub enum PlayableItem {
    Track { title: String, artists: Vec<String> },
    Episode { title: String },
}

impl PlayableItem {
    /// The item's title.
    pub open spec fn spec_title(&self) -> String {
        match self {
            PlayableItem::Track { title, .. } => *title,
            PlayableItem::Episode { title } => *title,
        }
    }

    /// The names credited on the item; none for an episode.
    pub open spec fn spec_contributors(&self) -> Seq<String> {
        match self {
            PlayableItem::Track { artists, .. } => artists@,
            PlayableItem::Episode { .. } => Seq::empty(),
        }
    }

    /// The item's title.
    pub fn title(&self) -> (r: String)
        ensures
            r == self.spec_title(),
    {
        match self {
            PlayableItem::Track { title, .. } => title.clone(),
            PlayableItem::Episode { title } => title.clone(),
        }
    }

    /// The names credited on the item, in order; none for an episode.
    pub fn contributors(&self) -> (r: Vec<String>)
        ensures
            r@ == self.spec_contributors(),
    {
        match self {
            PlayableItem::Track { artists, .. } => copy_strings(artists),
            PlayableItem::Episode { .. } => Vec::new(),
        }
    }
}

/// The playback status as the service reports it.
#[derive(Clone, Debug, PartialEq, Eq)]
pub struct CurrentPlayback {
    pub is_playing: bool,
    /// Elapsed whole seconds into the item.
    pub progress: Option<u64>,
    pub item: Option<PlayableItem>,
}

/// The last known playback status.
#[derive(Clone, Debug, PartialEq, Eq)]
pub struct PlaybackSnapshot {
    pub is_playing: bool,
    /// Elapsed whole seconds into the current item; none when nothing is loaded.
    pub progress: Option<u64>,
    pub title: String,
    pub contributors: Vec<String>,
}

/// What the status command reports for `s`.
pub open spec fn status_text(s: PlaybackSnapshot) -> Seq<char> {
    if !s.is_playing {
        "You are not listening to anything at the moment"@
    } else {
        "You are listening to "@ + s.title@ + " by "@ + joined(texts(s.contributors@), ", "@)
            + ". Progress: "@ + decimal(spec_progress(s) as nat)
    }
}

/// The elapsed seconds of `s`, zero when unknown.
pub open spec fn spec_progress(s: PlaybackSnapshot) -> u64 {
    match s.progress {
        Some(p) => p,
        None => 0,
    }
}

impl PlaybackSnapshot {
    /// Not playing, nothing loaded.
    pub open spec fn is_idle(&self) -> bool {
        &&& !self.is_playing
        &&& self.progress is None
        &&& self.title@.len() == 0
        &&& self.contributors@.len() == 0
    }

    /// The snapshot used while nothing is known: not playing, nothing loaded.
    pub fn idle() -> (r: PlaybackSnapshot)
        ensures
            r.is_idle(),
    {
        PlaybackSnapshot { is_playing: false, progress: None, title: String::new(), contributors: Vec::new() }
    }

    /// The snapshot for what the service reported: with an item loaded, its
    /// state, progress, title and contributors; otherwise the idle snapshot.
    pub fn from_playback(current: Option<CurrentPlayback>) -> (r: PlaybackSnapshot)
        ensures
            match current {
                Some(c) => match c.item {
                    Some(item) => {
                        &&& r.is_playing == c.is_playing
                        &&& r.progress == c.progress
                        &&& r.title == item.spec_title()
                        &&& r.contributors@ == item.spec_contributors()
                    },
                    None => r.is_idle(),
                },
                None => r.is_idle(),
            },
    {
        match current {
            Some(c) => match c.item {
                Some(item) => {
                    let title = item.title();
                    let contributors = item.contributors();
                    PlaybackSnapshot { is_playing: c.is_playing, progress: c.progress, title, contributors }
                },
                None => PlaybackSnapshot::idle(),
            },
            None => PlaybackSnapshot::idle(),
        }
    }

    /// Elapsed seconds, zero when unknown.
    pub fn progress_seconds(&self) -> (r: u64)
        ensures
            r == spec_progress(*self),
    {
        match self.progress {
            Some(p) => p,
            None => 0,
        }
    }

    /// The report of the status command: what is playing, by whom, and how
    /// far in, or that nothing is playing.
    pub fn status_message(&self) -> (r: String)
        ensures
            r@ == status_text(*self),
    {
        if !self.is_playing {
            return String::from_str("You are not listening to anything at the moment");
        }
        let mut r = String::from_str("You are listening to ");
        r.append(self.title.as_str());
        r.append(" by ");
        let names = join(&self.contributors, ", ");
        r.append(names.as_str());
        r.append(". Progress: ");
        let seconds = decimal_text(self.progress_seconds());
        r.append(seconds.as_str());
        r
    }
}

} // verus!
