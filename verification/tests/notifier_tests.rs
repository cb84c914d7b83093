use spotty::app::components::player_notifier::{
    ConnectCommand, CurrentlyPlaying, LoginCall, LoginJob, LoginReply, LoginStep, NotifierEffect,
    PlayerNotifier,
};
use spotty::app::models::{AlbumRef, ConnectDevice, RepeatMode, SongDescription, SongsSource};
use spotty::app::state::settings_state::SettingsState;
use spotty::app::state::{
    LoginAction, LoginEvent, LoginStartedEvent, PlaybackAction, PlaybackEvent, PlaybackState,
};
use spotty::app::{AppAction, AppEvent, AppModel, AppState};

fn song(id: &str) -> SongDescription {
    SongDescription {
        id: id.to_string(),
        title: format!("title {}", id),
        artists: vec![],
        album: AlbumRef { id: "al".to_string(), name: "Album".to_string() },
        duration: 1000,
        art: None,
    }
}

fn notifier(position: Option<usize>, source: Option<SongsSource>) -> PlayerNotifier {
    let songs = vec![song("s1"), song("s2"), song("s3")];
    PlayerNotifier::new(AppModel::new(AppState {
        playback: PlaybackState::new(songs, position, source, true, false),
        settings: SettingsState::default(),
    }))
}

fn device(id: &str, active: bool) -> ConnectDevice {
    ConnectDevice { id: id.to_string(), label: format!("device {}", id), is_active: active }
}

#[test]
fn currently_playing_with_source() {
    let n = notifier(Some(1), Some(SongsSource::Playlist("p1".to_string())));
    let cp = n.currently_playing().unwrap();
    assert_eq!(
        cp,
        CurrentlyPlaying::WithSource {
            source: SongsSource::Playlist("p1".to_string()),
            offset: 1,
            song: "s2".to_string()
        }
    );
    assert_eq!(cp.song_id(), "s2");
}

#[test]
fn currently_playing_without_uri_lists_songs() {
    let n = notifier(Some(2), Some(SongsSource::SavedTracks));
    let cp = n.currently_playing().unwrap();
    assert_eq!(
        cp,
        CurrentlyPlaying::Songs {
            songs: vec!["s1".to_string(), "s2".to_string(), "s3".to_string()],
            offset: 2
        }
    );
    assert_eq!(cp.song_id(), "s3");
    let n2 = notifier(Some(0), None);
    assert_eq!(n2.currently_playing().unwrap().song_id(), "s1");
}

#[test]
fn nothing_playing() {
    let n = notifier(None, Some(SongsSource::Album("a".to_string())));
    assert_eq!(n.currently_playing(), None);
    assert_eq!(n.notify_connect_player(&PlaybackEvent::TrackChanged("x".to_string())), None);
    assert_eq!(n.notify_connect_player(&PlaybackEvent::SourceChanged), None);
}

#[test]
fn track_change_loads_into_connect_player() {
    let n = notifier(Some(0), Some(SongsSource::Album("a".to_string())));
    assert_eq!(
        n.notify_connect_player(&PlaybackEvent::TrackChanged("s1".to_string())),
        Some(ConnectCommand::PlayerLoadInContext {
            source: SongsSource::Album("a".to_string()),
            offset: 0,
            song: "s1".to_string()
        })
    );
    let n2 = notifier(Some(1), Some(SongsSource::SavedTracks));
    assert_eq!(
        n2.notify_connect_player(&PlaybackEvent::SourceChanged),
        Some(ConnectCommand::PlayerLoad {
            songs: vec!["s1".to_string(), "s2".to_string(), "s3".to_string()],
            offset: 1
        })
    );
}

#[test]
fn playback_events_become_commands() {
    let n = notifier(Some(0), None);
    assert_eq!(n.notify_connect_player(&PlaybackEvent::TrackSeeked(1234)), Some(ConnectCommand::PlayerSeek(1234)));
    assert_eq!(n.notify_connect_player(&PlaybackEvent::PlaybackPaused), Some(ConnectCommand::PlayerPause));
    assert_eq!(n.notify_connect_player(&PlaybackEvent::PlaybackResumed), Some(ConnectCommand::PlayerResume));
    let bits = 0.7f64.to_bits();
    assert_eq!(n.notify_connect_player(&PlaybackEvent::VolumeSet(bits)), Some(ConnectCommand::PlayerSetVolume(bits)));
    assert_eq!(
        n.notify_connect_player(&PlaybackEvent::RepeatModeChanged(RepeatMode::Song)),
        Some(ConnectCommand::PlayerRepeat(RepeatMode::Song))
    );
    assert_eq!(n.notify_connect_player(&PlaybackEvent::ShuffleChanged(true)), Some(ConnectCommand::PlayerShuffle(true)));
    assert_eq!(n.notify_connect_player(&PlaybackEvent::PlaybackStopped), None);
    assert_eq!(n.notify_connect_player(&PlaybackEvent::SeekSynced(5)), None);
}

#[test]
fn switching_device() {
    let n = notifier(Some(0), Some(SongsSource::Album("a".to_string())));
    assert_eq!(
        n.switch_device(&Some(device("d1", true))),
        vec![
            ConnectCommand::SetDevice("d1".to_string()),
            ConnectCommand::PlayerLoadInContext {
                source: SongsSource::Album("a".to_string()),
                offset: 0,
                song: "s1".to_string()
            }
        ]
    );
    assert_eq!(n.switch_device(&None), vec![ConnectCommand::PlayerStop]);
    let idle = notifier(None, None);
    assert_eq!(idle.switch_device(&Some(device("d2", false))), vec![ConnectCommand::SetDevice("d2".to_string())]);
    assert_eq!(
        idle.on_event(&AppEvent::PlaybackEvent(PlaybackEvent::SwitchedDevice(Some(device("d2", false))))),
        vec![NotifierEffect::Send(ConnectCommand::SetDevice("d2".to_string()))]
    );
    assert_eq!(
        n.on_event(&AppEvent::PlaybackEvent(PlaybackEvent::SwitchedDevice(None))),
        vec![NotifierEffect::Send(ConnectCommand::PlayerStop)]
    );
}

#[test]
fn login_events_start_jobs() {
    let n = notifier(None, None);
    assert_eq!(n.notify_login(&LoginEvent::LoginStarted(LoginStartedEvent::InitLogin)), Some(LoginJob::Authorize));
    assert_eq!(n.notify_login(&LoginEvent::LoginStarted(LoginStartedEvent::CompleteLogin)), None);
    assert_eq!(n.notify_login(&LoginEvent::LoginStarted(LoginStartedEvent::Restore)), Some(LoginJob::RestoreSession));
    assert_eq!(n.notify_login(&LoginEvent::FreshTokenRequested), Some(LoginJob::RefreshToken));
    assert_eq!(n.notify_login(&LoginEvent::LogoutCompleted), Some(LoginJob::ClearTokens));
    assert_eq!(n.notify_login(&LoginEvent::LoginCompleted), Some(LoginJob::FetchDevices));
    assert_eq!(n.notify_login(&LoginEvent::LoginFailed), None);
    assert_eq!(
        n.on_event(&AppEvent::LoginEvent(LoginEvent::LoginCompleted)),
        vec![NotifierEffect::StartLogin(LoginJob::FetchDevices)]
    );
    assert_eq!(n.on_event(&AppEvent::Started), vec![]);
}

#[test]
fn login_outcomes() {
    assert_eq!(
        PlayerNotifier::authorization_outcome(Some("https://accounts/authorize".to_string())),
        AppAction::LoginAction(LoginAction::OpenLoginUrl("https://accounts/authorize".to_string()))
    );
    assert_eq!(PlayerNotifier::authorization_outcome(None), AppAction::LoginAction(LoginAction::SetLoginFailure));
    assert_eq!(PlayerNotifier::exchange_outcome(true), AppAction::LoginAction(LoginAction::SetLoginSuccess(String::new())));
    assert_eq!(PlayerNotifier::exchange_outcome(false), AppAction::LoginAction(LoginAction::SetLoginFailure));
    assert_eq!(PlayerNotifier::restore_outcome(true), AppAction::LoginAction(LoginAction::SetLoginSuccess(String::new())));
    assert_eq!(PlayerNotifier::restore_outcome(false), AppAction::LoginAction(LoginAction::ShowLogin));
    assert_eq!(PlayerNotifier::refresh_outcome(true), AppAction::LoginAction(LoginAction::TokenRefreshed));
    assert_eq!(PlayerNotifier::refresh_outcome(false), AppAction::LoginAction(LoginAction::SetLoginFailure));
}

#[test]
fn devices_outcome_picks_first_active() {
    let ds = vec![device("a", false), device("b", true), device("c", true)];
    assert_eq!(
        PlayerNotifier::devices_outcome(Some(ds.clone())),
        vec![
            AppAction::PlaybackAction(PlaybackAction::SwitchDevice(Some(device("b", true)))),
            AppAction::PlaybackAction(PlaybackAction::SetAvailableDevices(ds)),
        ]
    );
    let idle = vec![device("a", false)];
    assert_eq!(
        PlayerNotifier::devices_outcome(Some(idle.clone())),
        vec![AppAction::PlaybackAction(PlaybackAction::SetAvailableDevices(idle))]
    );
    assert_eq!(
        PlayerNotifier::devices_outcome(Some(vec![])),
        vec![AppAction::PlaybackAction(PlaybackAction::SetAvailableDevices(vec![]))]
    );
    assert_eq!(PlayerNotifier::devices_outcome(None), vec![]);
}

/// Runs a login job with the given replies, in order, and collects what it reports.
fn run_job(job: LoginJob, replies: Vec<LoginReply>) -> (Vec<AppAction>, Vec<LoginCall>) {
    let mut call = PlayerNotifier::first_login_call(job);
    let mut calls = vec![call];
    let mut actions = vec![];
    for reply in replies {
        let LoginStep { actions: step_actions, next } = PlayerNotifier::login_step(call, reply);
        actions.extend(step_actions);
        match next {
            Some(c) => {
                call = c;
                calls.push(c);
            }
            None => return (actions, calls),
        }
    }
    (actions, calls)
}

#[test]
fn authorization_opens_page_then_succeeds() {
    let url = "https://accounts/authorize?x=1".to_string();
    let (actions, calls) = run_job(
        LoginJob::Authorize,
        vec![LoginReply::AuthUrl(Some(url.clone())), LoginReply::Exchanged(true)],
    );
    assert_eq!(calls, vec![LoginCall::SpawnAuthcodeListener, LoginCall::ExchangeAuthcode]);
    assert_eq!(
        actions,
        vec![
            AppAction::LoginAction(LoginAction::OpenLoginUrl(url)),
            AppAction::LoginAction(LoginAction::SetLoginSuccess(String::new())),
        ]
    );
}

#[test]
fn authorization_failures() {
    // The page could not be prepared: only the failure, and no exchange.
    let (actions, calls) = run_job(
        LoginJob::Authorize,
        vec![LoginReply::AuthUrl(None), LoginReply::Exchanged(true)],
    );
    assert_eq!(calls, vec![LoginCall::SpawnAuthcodeListener]);
    assert_eq!(actions, vec![AppAction::LoginAction(LoginAction::SetLoginFailure)]);
    // The exchange failed: the page was opened first.
    let (actions, _) = run_job(
        LoginJob::Authorize,
        vec![LoginReply::AuthUrl(Some("u".to_string())), LoginReply::Exchanged(false)],
    );
    assert_eq!(
        actions,
        vec![
            AppAction::LoginAction(LoginAction::OpenLoginUrl("u".to_string())),
            AppAction::LoginAction(LoginAction::SetLoginFailure),
        ]
    );
}

#[test]
fn other_login_jobs_take_one_step() {
    assert_eq!(
        run_job(LoginJob::RestoreSession, vec![LoginReply::Restored(false)]),
        (vec![AppAction::LoginAction(LoginAction::ShowLogin)], vec![LoginCall::GetValidToken])
    );
    assert_eq!(
        run_job(LoginJob::RefreshToken, vec![LoginReply::Refreshed(true)]),
        (vec![AppAction::LoginAction(LoginAction::TokenRefreshed)], vec![LoginCall::RefreshTokenAtExpiry])
    );
    assert_eq!(
        run_job(LoginJob::ClearTokens, vec![LoginReply::Cleared]),
        (vec![], vec![LoginCall::ClearTokens])
    );
    let ds = vec![device("x", true)];
    assert_eq!(
        run_job(LoginJob::FetchDevices, vec![LoginReply::Devices(Some(ds.clone()))]),
        (
            vec![
                AppAction::PlaybackAction(PlaybackAction::SwitchDevice(Some(device("x", true)))),
                AppAction::PlaybackAction(PlaybackAction::SetAvailableDevices(ds)),
            ],
            vec![LoginCall::ListAvailableDevices]
        )
    );
}
