//! The typed values that responses decode into.
use vstd::prelude::*;
use crate::xml::opt_view;

verus! {

/// The track currently being played.
#[derive(Debug)]
pub struct CurrentTrack {
    /// The current time of the track, as hh:mm:ss.
    pub position: String,
    /// The total length of the track, as hh:mm:ss.
    pub duration: String,
    /// The source URI of the track.
    pub uri: String,
    /// The title of the track.
    pub title: Option<String>,
    /// The artist or creator of the track.
    pub artist: Option<String>,
}

/// What a [`CurrentTrack`] holds.
pub struct CurrentTrackView {
    pub position: Seq<char>,
    pub duration: Seq<char>,
    pub uri: Seq<char>,
    pub title: Option<Seq<char>>,
    pub artist: Option<Seq<char>>,
}

impl View for CurrentTrack {
    type V = CurrentTrackView;

    open spec fn view(&self) -> CurrentTrackView {
        CurrentTrackView {
            position: self.position@,
            duration: self.duration@,
            uri: self.uri@,
            title: opt_view(self.title),
            artist: opt_view(self.artist),
        }
    }
}

/// The playback state of a speaker.
#[derive(Debug, Clone, Copy, PartialEq, Eq, Structural)]
pub enum PlaybackState {
    /// Playback is stopped.
    Stopped,
    /// The track is playing.
    Playing,
    /// The track is paused.
    Paused,
    /// The speaker is between two playback states.
    Transitioning,
}

/// The playback state that a transport-state string names; no other string names one.
pub open spec fn playback_state_of(s: Seq<char>) -> Option<PlaybackState> {
    if s == "STOPPED"@ {
        Some(PlaybackState::Stopped)
    } else if s == "PLAYING"@ {
        Some(PlaybackState::Playing)
    } else if s == "PAUSED_PLAYBACK"@ {
        Some(PlaybackState::Paused)
    } else if s == "TRANSITIONING"@ {
        Some(PlaybackState::Transitioning)
    } else {
        None
    }
}

/// The readable name of a playback state.
pub open spec fn playback_state_name(p: PlaybackState) -> Seq<char> {
    match p {
        PlaybackState::Stopped => "Stopped"@,
        PlaybackState::Playing => "Playing"@,
        PlaybackState::Paused => "Paused"@,
        PlaybackState::Transitioning => "Transitioning"@,
    }
}

impl PlaybackState {
    /// Decodes a transport-state string; any string but the four known ones is an error.
    pub fn new(state_str: &str) -> (r: Result<Self, String>)
        ensures
            match playback_state_of(state_str@) {
                Some(p) => r == Ok::<PlaybackState, String>(p),
                None => r matches Err(e) && e@ == "Invalid state"@,
            },
    {
        let s = state_str.to_owned();
        if s == "STOPPED".to_owned() {
            Ok(PlaybackState::Stopped)
        } else if s == "PLAYING".to_owned() {
            Ok(PlaybackState::Playing)
        } else if s == "PAUSED_PLAYBACK".to_owned() {
            Ok(PlaybackState::Paused)
        } else if s == "TRANSITIONING".to_owned() {
            Ok(PlaybackState::Transitioning)
        } else {
            Err("Invalid state".to_owned())
        }
    }

    /// The readable name of the state.
    pub fn to_string(&self) -> (r: String)
        ensures
            r@ == playback_state_name(*self),
    {
        match self {
            PlaybackState::Stopped => "Stopped".to_owned(),
            PlaybackState::Playing => "Playing".to_owned(),
            PlaybackState::Paused => "Paused".to_owned(),
            PlaybackState::Transitioning => "Transitioning".to_owned(),
        }
    }
}

/// The playback status of a speaker.
#[derive(Debug)]
pub struct PlaybackStatus {
    /// The playback state (playing, paused, ...).
    pub playback_state: PlaybackState,
    /// The transport status that the speaker reports alongside the state.
    pub status: String,
}

/// What a [`PlaybackStatus`] holds.
pub struct PlaybackStatusView {
    pub playback_state: PlaybackState,
    pub status: Seq<char>,
}

impl View for PlaybackStatus {
    type V = PlaybackStatusView;

    open spec fn view(&self) -> PlaybackStatusView {
        PlaybackStatusView { playback_state: self.playback_state, status: self.status@ }
    }
}

/// A track in the queue.
#[derive(Debug)]
pub struct QueueItem {
    /// The length of the track, as hh:mm:ss.
    pub duration: Option<String>,
    /// The source URI of the track.
    pub uri: String,
    /// The title of the track.
    pub title: Option<String>,
    /// The artist of the track.
    pub artist: Option<String>,
}

/// What a [`QueueItem`] holds.
pub struct QueueItemView {
    pub duration: Option<Seq<char>>,
    pub uri: Seq<char>,
    pub title: Option<Seq<char>>,
    pub artist: Option<Seq<char>>,
}

impl View for QueueItem {
    type V = QueueItemView;

    open spec fn view(&self) -> QueueItemView {
        QueueItemView {
            duration: opt_view(self.duration),
            uri: self.uri@,
            title: opt_view(self.title),
            artist: opt_view(self.artist),
        }
    }
}

} // verus!
