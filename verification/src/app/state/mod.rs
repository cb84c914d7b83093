use vstd::prelude::*;

pub mod settings_state;

use crate::app::models::{ConnectDevice, RepeatMode, SongDescription, SongDescriptionView, SongsSource};

verus! {

/// Requests about playback.
///
/// A volume travels as the bit pattern of the `f64` it stands for (`f64::to_bits`): the
/// library passes it along and never computes with it.
#[derive(Debug, PartialEq, Eq)]
pub enum PlaybackAction {
    TogglePlay,
    Stop,
    Next,
    Previous,
    ToggleShuffle,
    ToggleRepeat,
    Seek(u32),
    SetVolume(u64),
    SetShuffled(bool),
    SetRepeatMode(RepeatMode),
    SwitchDevice(Option<ConnectDevice>),
    SetAvailableDevices(Vec<ConnectDevice>),
}

/// What the playback state reports after it changed.
///
/// A volume is the bit pattern of its `f64`, as in [`PlaybackAction`].
#[derive(Debug, PartialEq, Eq)]
pub enum PlaybackEvent {
    PlaybackPaused,
    PlaybackResumed,
    PlaybackStopped,
    RepeatModeChanged(RepeatMode),
    ShuffleChanged(bool),
    TrackChanged(String),
    SourceChanged,
    SeekSynced(u32),
    TrackSeeked(u32),
    VolumeSet(u64),
    SwitchedDevice(Option<ConnectDevice>),
}

/// Requests about the login flow.
#[derive(Debug, PartialEq, Eq)]
pub enum LoginAction {
    OpenLoginUrl(String),
    SetLoginSuccess(String),
    SetLoginFailure,
    ShowLogin,
    TokenRefreshed,
}

/// How a login was started.
#[derive(Clone, Copy, Debug, PartialEq, Eq)]
pub enum LoginStartedEvent {
    InitLogin,
    CompleteLogin,
    Restore,
}

/// What the login flow reports.
#[derive(Clone, Copy, Debug, PartialEq, Eq)]
pub enum LoginEvent {
    LoginStarted(LoginStartedEvent),
    LoginCompleted,
    LoginFailed,
    FreshTokenRequested,
    LogoutCompleted,
}

/// The play queue and the player's flags.
pub struct PlaybackState {
    songs: Vec<SongDescription>,
    position: Option<usize>,
    source: Option<SongsSource>,
    playing: bool,
    shuffled: bool,
}

/// The play queue as a sequence, the index of the current song in it, where the queue came
/// from, and whether playback runs and is shuffled.
pub struct PlaybackStateView {
    pub songs: Seq<SongDescriptionView>,
    pub position: Option<usize>,
    pub source: Option<SongsSource>,
    pub playing: bool,
    pub shuffled: bool,
}

impl PlaybackStateView {
    /// The current song, if there is one.
    pub open spec fn current(self) -> Option<SongDescriptionView> {
        match self.position {
            Some(i) => Some(self.songs[i as int]),
            None => None,
        }
    }
}

/// The views of a list of songs.
pub open spec fn song_views(songs: Seq<SongDescription>) -> Seq<SongDescriptionView> {
    songs.map_values(|s: SongDescription| s@)
}

impl View for PlaybackState {
    type V = PlaybackStateView;

    closed spec fn view(&self) -> PlaybackStateView {
        PlaybackStateView {
            songs: song_views(self.songs@),
            position: self.position,
            source: self.source,
            playing: self.playing,
            shuffled: self.shuffled,
        }
    }
}

impl PlaybackState {
    /// The current song, if there is one, is an entry of the queue.
    #[verifier::type_invariant]
    spec fn position_in_queue(self) -> bool {
        self.position matches Some(i) ==> i < self.songs.len()
    }

    pub fn new(
        songs: Vec<SongDescription>,
        position: Option<usize>,
        source: Option<SongsSource>,
        playing: bool,
        shuffled: bool,
    ) -> (r: Self)
        requires
            position matches Some(i) ==> i < songs.len(),
        ensures
            r@ == (PlaybackStateView {
                songs: song_views(songs@),
                position,
                source,
                playing,
                shuffled,
            }),
    {
        PlaybackState { songs, position, source, playing, shuffled }
    }

    pub fn is_playing(&self) -> (r: bool)
        ensures
            r == self@.playing,
    {
        self.playing
    }

    pub fn is_shuffled(&self) -> (r: bool)
        ensures
            r == self@.shuffled,
    {
        self.shuffled
    }

    /// The index of the current song in the queue.
    pub fn current_song_index(&self) -> (r: Option<usize>)
        ensures
            r == self@.position,
            r matches Some(i) ==> i < self@.songs.len(),
    {
        proof {
            use_type_invariant(self);
        }
        self.position
    }

    /// A copy of the current song.
    pub fn current_song(&self) -> (r: Option<SongDescription>)
        ensures
            match r {
                Some(s) => self@.current() == Some(s@),
                None => self@.current() is None,
            },
    {
        proof {
            use_type_invariant(self);
        }
        match self.position {
            Some(i) => Some(self.songs[i].clone()),
            None => None,
        }
    }

    /// The id of the current song.
    pub fn current_song_id(&self) -> (r: Option<String>)
        ensures
            match self@.current() {
                Some(s) => r == Some(s.id),
                None => r is None,
            },
    {
        proof {
            use_type_invariant(self);
        }
        match self.position {
            Some(i) => Some(self.songs[i].id.clone()),
            None => None,
        }
    }

    /// A copy of where the queue came from.
    pub fn current_source(&self) -> (r: Option<SongsSource>)
        ensures
            r == self@.source,
    {
        match &self.source {
            Some(s) => Some(s.clone()),
            None => None,
        }
    }

    /// The ids of the queued songs, in queue order.
    pub fn song_ids(&self) -> (r: Vec<String>)
        ensures
            r@ == self@.songs.map_values(|s: SongDescriptionView| s.id),
    {
        let mut r: Vec<String> = Vec::new();
        let n = self.songs.len();
        for i in 0..n
            invariant
                n == self.songs@.len(),
                r@ == self.songs@.take(i as int).map_values(|s: SongDescription| s.id),
        {
            r.push(self.songs[i].id.clone());
            assert(self.songs@.take(i + 1).map_values(|s: SongDescription| s.id)
                == self.songs@.take(i as int).map_values(|s: SongDescription| s.id).push(self.songs@[i as int].id));
        }
        assert(self.songs@.take(n as int) == self.songs@);
        assert(self.songs@.map_values(|s: SongDescription| s.id)
            == song_views(self.songs@).map_values(|s: SongDescriptionView| s.id));
        r
    }
}

impl Clone for PlaybackState {
    fn clone(&self) -> (r: Self)
        ensures
            r@ == self@,
    {
        proof {
            use_type_invariant(self);
        }
        let mut songs: Vec<SongDescription> = Vec::new();
        let n = self.songs.len();
        for i in 0..n
            invariant
                n == self.songs@.len(),
                song_views(songs@) == song_views(self.songs@.take(i as int)),
                songs@.len() == i,
        {
            songs.push(self.songs[i].clone());
            assert(song_views(self.songs@.take(i + 1))
                == song_views(self.songs@.take(i as int)).push(self.songs@[i as int]@));
            assert(song_views(songs@) == song_views(self.songs@.take(i as int)).push(self.songs@[i as int]@));
        }
        assert(self.songs@.take(n as int) == self.songs@);
        PlaybackState {
            songs,
            position: self.position,
            source: self.current_source(),
            playing: self.playing,
            shuffled: self.shuffled,
        }
    }
}

} // verus!
