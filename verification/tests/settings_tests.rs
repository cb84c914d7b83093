use spotty::app::components::settings::settings_model::SettingsModel;
use spotty::app::components::top_tracks::top_tracks::{top_tracks_reaction, TopTracksReaction};
use spotty::app::models::RepeatMode;
use spotty::app::state::settings_state::{SettingsAction, SettingsState};
use spotty::app::state::{LoginEvent, PlaybackAction, PlaybackEvent, PlaybackState};
use spotty::app::{AppAction, AppEvent, AppModel, AppState, BrowserEvent};
use spotty::settings::{
    repeat_stored_name, ColorScheme, RiffSettings, SettingWrite, StateTracker, WindowGeometry,
    DEFAULT_VOLUME_BITS,
};

fn geometry() -> WindowGeometry {
    WindowGeometry { width: 1024, height: 768, is_maximized: true }
}

#[test]
fn default_settings() {
    let d = RiffSettings::default();
    assert_eq!(d.theme_preference, ColorScheme::PreferDark);
    assert_eq!(f64::from_bits(d.volume), 0.7);
    assert_eq!(d.volume, DEFAULT_VOLUME_BITS);
    assert!(!d.shuffle);
    assert_eq!(d.repeat, RepeatMode::NoRepeat);
    assert_eq!(d.window, WindowGeometry { width: 0, height: 0, is_maximized: false });
    assert_eq!(WindowGeometry::default(), WindowGeometry { width: 0, height: 0, is_maximized: false });
}

#[test]
fn theme_codes() {
    assert_eq!(RiffSettings::theme_from_stored(0), Some(ColorScheme::ForceLight));
    assert_eq!(RiffSettings::theme_from_stored(1), Some(ColorScheme::ForceDark));
    assert_eq!(RiffSettings::theme_from_stored(2), Some(ColorScheme::Default));
    assert_eq!(RiffSettings::theme_from_stored(3), None);
    assert_eq!(RiffSettings::theme_from_stored(-1), None);
}

#[test]
fn repeat_names() {
    assert_eq!(RiffSettings::repeat_from_stored("song"), RepeatMode::Song);
    assert_eq!(RiffSettings::repeat_from_stored("playlist"), RepeatMode::Playlist);
    assert_eq!(RiffSettings::repeat_from_stored("none"), RepeatMode::NoRepeat);
    assert_eq!(RiffSettings::repeat_from_stored("Song"), RepeatMode::NoRepeat);
    assert_eq!(RiffSettings::repeat_from_stored(""), RepeatMode::NoRepeat);
    for m in [RepeatMode::Song, RepeatMode::Playlist, RepeatMode::NoRepeat] {
        assert_eq!(RiffSettings::repeat_from_stored(&repeat_stored_name(m)), m);
    }
}

#[test]
fn settings_from_storage() {
    let bits = 0.3f64.to_bits();
    assert_eq!(
        RiffSettings::from_stored(1, bits, true, "playlist", geometry()),
        Some(RiffSettings {
            theme_preference: ColorScheme::ForceDark,
            volume: bits,
            shuffle: true,
            repeat: RepeatMode::Playlist,
            window: geometry(),
        })
    );
    assert_eq!(RiffSettings::from_stored(7, bits, true, "playlist", geometry()), None);
    assert_eq!(RiffSettings::load_player_settings(bits, false, "song"), (bits, false, RepeatMode::Song));
}

#[test]
fn settings_actions() {
    let s = RiffSettings {
        theme_preference: ColorScheme::Default,
        volume: 0.9f64.to_bits(),
        shuffle: true,
        repeat: RepeatMode::Song,
        window: geometry(),
    };
    assert_eq!(
        s.actions(),
        vec![
            AppAction::PlaybackAction(PlaybackAction::SetVolume(0.9f64.to_bits())),
            AppAction::PlaybackAction(PlaybackAction::SetShuffled(true)),
            AppAction::PlaybackAction(PlaybackAction::SetRepeatMode(RepeatMode::Song)),
        ]
    );
}

#[test]
fn state_tracker_records_player_changes() {
    let t = StateTracker::new();
    let bits = 0.4f64.to_bits();
    assert_eq!(t.on_playback_event(&PlaybackEvent::VolumeSet(bits)), Some(SettingWrite::Volume(bits)));
    assert_eq!(t.on_playback_event(&PlaybackEvent::ShuffleChanged(true)), Some(SettingWrite::Shuffle(true)));
    assert_eq!(
        t.on_playback_event(&PlaybackEvent::RepeatModeChanged(RepeatMode::Playlist)),
        Some(SettingWrite::Repeat("playlist".to_string()))
    );
    assert_eq!(
        t.on_playback_event(&PlaybackEvent::RepeatModeChanged(RepeatMode::NoRepeat)),
        Some(SettingWrite::Repeat("none".to_string()))
    );
    assert_eq!(t.on_playback_event(&PlaybackEvent::PlaybackPaused), None);
    assert_eq!(
        t.handle_event(&AppEvent::PlaybackEvent(PlaybackEvent::ShuffleChanged(false))),
        Some(SettingWrite::Shuffle(false))
    );
    assert_eq!(t.handle_event(&AppEvent::Started), None);
}

#[test]
fn what_the_tracker_records_reads_back() {
    let t = StateTracker::new();
    for m in [RepeatMode::Song, RepeatMode::Playlist, RepeatMode::NoRepeat] {
        match t.on_playback_event(&PlaybackEvent::RepeatModeChanged(m)) {
            Some(SettingWrite::Repeat(name)) => assert_eq!(RiffSettings::repeat_from_stored(&name), m),
            other => panic!("unexpected {:?}", other),
        }
    }
}

#[test]
fn change_settings_reloads() {
    let mut st = SettingsState::default();
    let loaded = RiffSettings {
        theme_preference: ColorScheme::ForceLight,
        volume: 0.1f64.to_bits(),
        shuffle: true,
        repeat: RepeatMode::Song,
        window: geometry(),
    };
    assert_eq!(st.update_with(SettingsAction::ChangeSettings, Some(loaded)), vec![]);
    assert_eq!(st.settings, loaded);
    assert_eq!(st.update_with(SettingsAction::ChangeSettings, None), vec![]);
    assert_eq!(st.settings, RiffSettings::default());
}

#[test]
fn settings_model_actions() {
    let mut settings = SettingsState::default();
    settings.settings.shuffle = true;
    let m = SettingsModel::new(AppModel::new(AppState {
        playback: PlaybackState::new(vec![], None, None, false, false),
        settings,
    }));
    assert_eq!(m.stop_player(), AppAction::PlaybackAction(PlaybackAction::Stop));
    assert_eq!(m.set_settings(), AppAction::SettingsAction(SettingsAction::ChangeSettings));
    assert!(m.settings().shuffle);
    assert_eq!(AppAction::from(SettingsAction::ChangeSettings), AppAction::SettingsAction(SettingsAction::ChangeSettings));
}

#[test]
fn settings_model_reads_newer_state() {
    let mut m = SettingsModel::new(AppModel::new(AppState {
        playback: PlaybackState::new(vec![], None, None, false, false),
        settings: SettingsState::default(),
    }));
    assert!(!m.settings().shuffle);
    let mut settings = SettingsState::default();
    settings.settings.repeat = RepeatMode::Song;
    m.update_state(AppState { playback: PlaybackState::new(vec![], None, None, false, false), settings });
    assert_eq!(m.settings().repeat, RepeatMode::Song);
}

#[test]
fn top_tracks_reactions() {
    assert_eq!(top_tracks_reaction(&AppEvent::Started), TopTracksReaction::LoadInitial);
    assert_eq!(top_tracks_reaction(&AppEvent::LoginEvent(LoginEvent::LoginCompleted)), TopTracksReaction::LoadInitial);
    assert_eq!(
        top_tracks_reaction(&AppEvent::BrowserEvent(BrowserEvent::TopArtistsUpdated)),
        TopTracksReaction::UpdateArtists
    );
    assert_eq!(top_tracks_reaction(&AppEvent::LoginEvent(LoginEvent::LogoutCompleted)), TopTracksReaction::PassOn);
}

#[test]
fn recorded_player_settings_load_back() {
    let t = StateTracker::new();
    let s = RiffSettings {
        theme_preference: ColorScheme::ForceDark,
        volume: 0.55f64.to_bits(),
        shuffle: true,
        repeat: RepeatMode::Playlist,
        window: geometry(),
    };
    let mut volume = None;
    let mut shuffle = None;
    let mut repeat = None;
    for event in [
        PlaybackEvent::VolumeSet(s.volume),
        PlaybackEvent::ShuffleChanged(s.shuffle),
        PlaybackEvent::RepeatModeChanged(s.repeat),
    ] {
        match t.on_playback_event(&event) {
            Some(SettingWrite::Volume(v)) => volume = Some(v),
            Some(SettingWrite::Shuffle(b)) => shuffle = Some(b),
            Some(SettingWrite::Repeat(name)) => repeat = Some(name),
            None => panic!("nothing recorded"),
        }
    }
    assert_eq!(
        RiffSettings::from_stored(1, volume.unwrap(), shuffle.unwrap(), &repeat.unwrap(), geometry()),
        Some(s)
    );
}
