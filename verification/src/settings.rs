use vstd::prelude::*;

use crate::app::models::RepeatMode;
use crate::app::state::{PlaybackAction, PlaybackEvent};
use crate::app::{AppAction, AppEvent};

verus! {

/// The colour scheme the window asks for; the same choices as the toolkit's.
#[derive(Clone, Copy, Debug, PartialEq, Eq)]
pub enum ColorScheme {
    Default,
    ForceLight,
    PreferLight,
    PreferDark,
    ForceDark,
}

/// Size and state of the main window.
#[derive(Clone, Copy, Debug, PartialEq, Eq)]
pub struct WindowGeometry {
    pub width: i32,
    pub height: i32,
    pub is_maximized: bool,
}

impl Default for WindowGeometry {
    fn default() -> (r: Self)
        ensures
            r == (WindowGeometry { width: 0, height: 0, is_maximized: false }),
    {
        WindowGeometry { width: 0, height: 0, is_maximized: false }
    }
}

/// The bit pattern of the `f64` volume 0.7, the volume used when nothing is stored.
pub const DEFAULT_VOLUME_BITS: u64 = 0x3FE6666666666666u64;

/// The application settings.
///
/// `volume` is the bit pattern of the `f64` volume (`f64::to_bits`); it is stored and handed
/// on unchanged.
#[derive(Clone, Copy, Debug, PartialEq, Eq)]
pub struct RiffSettings {
    pub theme_preference: ColorScheme,
    pub volume: u64,
    pub shuffle: bool,
    pub repeat: RepeatMode,
    pub window: WindowGeometry,
}

/// The settings used when none can be read.
pub open spec fn default_settings() -> RiffSettings {
    RiffSettings {
        theme_preference: ColorScheme::PreferDark,
        volume: DEFAULT_VOLUME_BITS,
        shuffle: false,
        repeat: RepeatMode::NoRepeat,
        window: WindowGeometry { width: 0, height: 0, is_maximized: false },
    }
}

impl Default for RiffSettings {
    fn default() -> (r: Self)
        ensures
            r == default_settings(),
    {
        RiffSettings {
            theme_preference: ColorScheme::PreferDark,
            volume: DEFAULT_VOLUME_BITS,
            shuffle: false,
            repeat: RepeatMode::NoRepeat,
            window: WindowGeometry::default(),
        }
    }
}

/// The stored theme code: 0 is forced light, 1 forced dark, 2 the system default; any other
/// code stands for no valid setting.
pub open spec fn spec_theme_from_stored(code: i32) -> Option<ColorScheme> {
    if code == 0 {
        Some(ColorScheme::ForceLight)
    } else if code == 1 {
        Some(ColorScheme::ForceDark)
    } else if code == 2 {
        Some(ColorScheme::Default)
    } else {
        None
    }
}

/// The stored repeat name: "song" and "playlist" name those modes, anything else means no
/// repeat.
pub open spec fn spec_repeat_from_stored(name: Seq<char>) -> RepeatMode {
    if name == "song"@ {
        RepeatMode::Song
    } else if name == "playlist"@ {
        RepeatMode::Playlist
    } else {
        RepeatMode::NoRepeat
    }
}

/// The name under which a repeat mode is stored.
pub open spec fn spec_repeat_stored_name(mode: RepeatMode) -> Seq<char> {
    match mode {
        RepeatMode::Song => "song"@,
        RepeatMode::Playlist => "playlist"@,
        RepeatMode::NoRepeat => "none"@,
    }
}

/// The settings built from what storage holds, or `None` when the stored theme code is not
/// one of the known ones.
pub open spec fn spec_from_stored(
    theme_code: i32,
    volume: u64,
    shuffle: bool,
    repeat: Seq<char>,
    window: WindowGeometry,
) -> Option<RiffSettings> {
    match spec_theme_from_stored(theme_code) {
        Some(theme) => Some(
            RiffSettings {
                theme_preference: theme,
                volume,
                shuffle,
                repeat: spec_repeat_from_stored(repeat),
                window,
            },
        ),
        None => None,
    }
}

impl RiffSettings {
    /// Reads a stored theme code.
    pub fn theme_from_stored(code: i32) -> (r: Option<ColorScheme>)
        ensures
            r == spec_theme_from_stored(code),
    {
        match code {
            0 => Some(ColorScheme::ForceLight),
            1 => Some(ColorScheme::ForceDark),
            2 => Some(ColorScheme::Default),
            _ => None,
        }
    }

    /// Reads a stored repeat name.
    pub fn repeat_from_stored(name: &str) -> (r: RepeatMode)
        ensures
            r == spec_repeat_from_stored(name@),
    {
        let name = name.to_owned();
        if name == "song".to_owned() {
            RepeatMode::Song
        } else if name == "playlist".to_owned() {
            RepeatMode::Playlist
        } else {
            RepeatMode::NoRepeat
        }
    }

    /// The player settings as read from storage: the volume and the shuffle flag as they are,
    /// the repeat mode from its stored name.
    pub fn load_player_settings(volume: u64, shuffle: bool, repeat: &str) -> (r: (u64, bool, RepeatMode))
        ensures
            r == (volume, shuffle, spec_repeat_from_stored(repeat@)),
    {
        (volume, shuffle, Self::repeat_from_stored(repeat))
    }

    /// The settings built from what storage holds, or `None` when the stored theme code is not
    /// one of the known ones.
    pub fn from_stored(
        theme_code: i32,
        volume: u64,
        shuffle: bool,
        repeat: &str,
        window: WindowGeometry,
    ) -> (r: Option<RiffSettings>)
        ensures
            r == spec_from_stored(theme_code, volume, shuffle, repeat@, window),
    {
        let theme_preference = match Self::theme_from_stored(theme_code) {
            Some(t) => t,
            None => {
                return None;
            },
        };
        let (volume, shuffle, repeat) = Self::load_player_settings(volume, shuffle, repeat);
        Some(RiffSettings { theme_preference, volume, shuffle, repeat, window })
    }

    /// The actions that bring the player in line with these settings: volume, shuffle and
    /// repeat, in that order.
    pub fn actions(&self) -> (r: Vec<AppAction>)
        ensures
            r@ == seq![
                AppAction::PlaybackAction(PlaybackAction::SetVolume(self.volume)),
                AppAction::PlaybackAction(PlaybackAction::SetShuffled(self.shuffle)),
                AppAction::PlaybackAction(PlaybackAction::SetRepeatMode(self.repeat)),
            ],
    {
        let mut r: Vec<AppAction> = Vec::new();
        r.push(AppAction::from(PlaybackAction::SetVolume(self.volume)));
        r.push(AppAction::from(PlaybackAction::SetShuffled(self.shuffle)));
        r.push(AppAction::from(PlaybackAction::SetRepeatMode(self.repeat)));
        r
    }
}

/// The name under which a repeat mode is stored.
pub fn repeat_stored_name(mode: RepeatMode) -> (r: String)
    ensures
        r@ == spec_repeat_stored_name(mode),
{
    match mode {
        RepeatMode::Song => "song".to_owned(),
        RepeatMode::Playlist => "playlist".to_owned(),
        RepeatMode::NoRepeat => "none".to_owned(),
    }
}

/// A single value to record in settings storage.
#[derive(Debug, PartialEq, Eq)]
pub enum SettingWrite {
    /// The "volume" key, as the bit pattern of its `f64`.
    Volume(u64),
    /// The "shuffle" key.
    Shuffle(bool),
    /// The "repeat" key, as the stored name of the mode.
    Repeat(String),
}

/// Observes the changes of the player and says what to record in settings storage.
pub struct StateTracker {}

impl StateTracker {
    pub fn new() -> (r: Self) {
        StateTracker {}
    }

    /// The value to record for a playback event: the new volume, shuffle flag or repeat mode;
    /// nothing for any other event.
    pub fn on_playback_event(&self, event: &PlaybackEvent) -> (r: Option<SettingWrite>)
        ensures
            match *event {
                PlaybackEvent::VolumeSet(v) => r == Some(SettingWrite::Volume(v)),
                PlaybackEvent::ShuffleChanged(s) => r == Some(SettingWrite::Shuffle(s)),
                PlaybackEvent::RepeatModeChanged(m) => r matches Some(SettingWrite::Repeat(name))
                    && name@ == spec_repeat_stored_name(m),
                _ => r is None,
            },
    {
        match event {
            PlaybackEvent::VolumeSet(v) => Some(SettingWrite::Volume(*v)),
            PlaybackEvent::ShuffleChanged(s) => Some(SettingWrite::Shuffle(*s)),
            PlaybackEvent::RepeatModeChanged(m) => Some(SettingWrite::Repeat(repeat_stored_name(*m))),
            _ => None,
        }
    }

    /// The value to record for an application event: playback events as above, nothing for the
    /// others.
    pub fn handle_event(&self, event: &AppEvent) -> (r: Option<SettingWrite>)
        ensures
            match *event {
                AppEvent::PlaybackEvent(pe) => match pe {
                    PlaybackEvent::VolumeSet(v) => r == Some(SettingWrite::Volume(v)),
                    PlaybackEvent::ShuffleChanged(s) => r == Some(SettingWrite::Shuffle(s)),
                    PlaybackEvent::RepeatModeChanged(m) => r matches Some(SettingWrite::Repeat(name))
                        && name@ == spec_repeat_stored_name(m),
                    _ => r is None,
                },
                _ => r is None,
            },
    {
        match event {
            AppEvent::PlaybackEvent(pe) => self.on_playback_event(pe),
            _ => None,
        }
    }
}

/// The stored repeat names are fixed: "song", "playlist" and "none"; and of all stored names,
/// exactly "song" reads as repeating the song and exactly "playlist" as repeating the playlist.
pub proof fn lemma_repeat_stored_names(name: Seq<char>)
    ensures
        spec_repeat_stored_name(RepeatMode::Song) == "song"@,
        spec_repeat_stored_name(RepeatMode::Playlist) == "playlist"@,
        spec_repeat_stored_name(RepeatMode::NoRepeat) == "none"@,
        spec_repeat_from_stored(name) == RepeatMode::Song <==> name == "song"@,
        spec_repeat_from_stored(name) == RepeatMode::Playlist <==> name == "playlist"@,
{
    reveal_strlit("song");
    reveal_strlit("playlist");
    assert("playlist"@.len() != "song"@.len());
}

/// What the tracker records for the volume, shuffle flag and repeat mode of settings `s`
/// (the values of `VolumeSet`, `ShuffleChanged` and the stored name of `RepeatModeChanged`)
/// is read back by `from_stored` as `s` itself, given the stored theme code of its theme.
pub proof fn lemma_recorded_settings_read_back(s: RiffSettings, theme_code: i32)
    requires
        spec_theme_from_stored(theme_code) == Some(s.theme_preference),
    ensures
        spec_from_stored(theme_code, s.volume, s.shuffle, spec_repeat_stored_name(s.repeat), s.window) == Some(s),
{
    lemma_repeat_name_round_trip(s.repeat);
}

/// What the tracker records for a repeat mode reads back as that same mode.
pub proof fn lemma_repeat_name_round_trip(mode: RepeatMode)
    ensures
        spec_repeat_from_stored(spec_repeat_stored_name(mode)) == mode,
{
    reveal_strlit("song");
    reveal_strlit("playlist");
    reveal_strlit("none");
    assert("playlist"@.len() != "song"@.len());
    assert("none"@[0] != "song"@[0]);
    assert("none"@.len() != "playlist"@.len());
}

} // verus!
