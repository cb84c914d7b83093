use vstd::prelude::*;

use crate::app::models::{ConnectDevice, RepeatMode, SongDescriptionView, SongsSource};
use crate::app::state::{LoginAction, LoginEvent, LoginStartedEvent, PlaybackAction, PlaybackEvent, PlaybackStateView};
use crate::app::{AppAction, AppEvent, AppModel, AppState, AppStateView};

verus! {

/// What the Connect player is to play: a queue that came from a source with a Spotify URI, or a
/// plain list of song ids.
#[derive(Debug, PartialEq, Eq)]
pub enum CurrentlyPlaying {
    WithSource { source: SongsSource, offset: usize, song: String },
    Songs { songs: Vec<String>, offset: usize },
}

impl CurrentlyPlaying {
    /// A plain list holds the song at its offset.
    pub open spec fn wf(self) -> bool {
        self matches CurrentlyPlaying::Songs { songs, offset } ==> offset < songs@.len()
    }

    /// The id of the song to play.
    pub open spec fn spec_song_id(self) -> String {
        match self {
            CurrentlyPlaying::WithSource { song, .. } => song,
            CurrentlyPlaying::Songs { songs, offset } => songs@[offset as int],
        }
    }

    pub fn song_id(&self) -> (r: &String)
        requires
            self.wf(),
        ensures
            *r == self.spec_song_id(),
    {
        match self {
            CurrentlyPlaying::WithSource { song, .. } => song,
            CurrentlyPlaying::Songs { songs, offset } => &songs[*offset],
        }
    }
}

/// Whether `cp` describes what plays in `state`: the source with the current offset and song
/// when the queue came from a source with a Spotify URI, else the ids of the whole queue with
/// the current offset.
pub open spec fn spec_describes(cp: CurrentlyPlaying, state: PlaybackStateView) -> bool {
    match state.position {
        None => false,
        Some(i) => {
            if state.source is Some && state.source->0.spec_has_spotify_uri() {
                cp == CurrentlyPlaying::WithSource {
                    source: state.source->0,
                    offset: i,
                    song: state.songs[i as int].id,
                }
            } else {
                cp matches CurrentlyPlaying::Songs { songs, offset }
                    && offset == i
                    && songs@ == state.songs.map_values(|s: SongDescriptionView| s.id)
            }
        },
    }
}

/// A command for the Spotify Connect player.
#[derive(Debug, PartialEq, Eq)]
pub enum ConnectCommand {
    PlayerLoadInContext { source: SongsSource, offset: usize, song: String },
    PlayerLoad { songs: Vec<String>, offset: usize },
    PlayerSeek(usize),
    PlayerPause,
    PlayerResume,
    /// The bit pattern of the `f64` volume, whose percentage the player is to be set to.
    PlayerSetVolume(u64),
    PlayerRepeat(RepeatMode),
    PlayerShuffle(bool),
    SetDevice(String),
    PlayerStop,
}

/// Whether `cmd` loads what plays in `state` into the Connect player.
pub open spec fn spec_load_command(cmd: ConnectCommand, state: PlaybackStateView) -> bool {
    match state.position {
        None => false,
        Some(i) => {
            if state.source is Some && state.source->0.spec_has_spotify_uri() {
                cmd == ConnectCommand::PlayerLoadInContext {
                    source: state.source->0,
                    offset: i,
                    song: state.songs[i as int].id,
                }
            } else {
                cmd matches ConnectCommand::PlayerLoad { songs, offset }
                    && offset == i
                    && songs@ == state.songs.map_values(|s: SongDescriptionView| s.id)
            }
        },
    }
}

/// The Connect command a playback event calls for.
pub open spec fn spec_connect_command(event: PlaybackEvent, state: PlaybackStateView, r: Option<ConnectCommand>) -> bool {
    match event {
        PlaybackEvent::TrackChanged(_) => match r {
            Some(cmd) => spec_load_command(cmd, state),
            None => state.position is None,
        },
        PlaybackEvent::SourceChanged => match r {
            Some(cmd) => spec_load_command(cmd, state),
            None => state.position is None,
        },
        PlaybackEvent::TrackSeeked(p) => r == Some(ConnectCommand::PlayerSeek(p as usize)),
        PlaybackEvent::PlaybackPaused => r == Some(ConnectCommand::PlayerPause),
        PlaybackEvent::PlaybackResumed => r == Some(ConnectCommand::PlayerResume),
        PlaybackEvent::VolumeSet(v) => r == Some(ConnectCommand::PlayerSetVolume(v)),
        PlaybackEvent::RepeatModeChanged(m) => r == Some(ConnectCommand::PlayerRepeat(m)),
        PlaybackEvent::ShuffleChanged(s) => r == Some(ConnectCommand::PlayerShuffle(s)),
        _ => r is None,
    }
}

/// Work of the login flow that runs away from the interface, reporting back with actions.
#[derive(Clone, Copy, Debug, PartialEq, Eq)]
pub enum LoginJob {
    /// Open the authorization page and exchange the code it gives.
    Authorize,
    /// Restore the saved session.
    RestoreSession,
    /// Refresh the access token.
    RefreshToken,
    /// Forget the stored credentials.
    ClearTokens,
    /// Fetch the available Connect devices.
    FetchDevices,
}

/// The job a login event starts, if any.
pub open spec fn spec_login_job(event: LoginEvent) -> Option<LoginJob> {
    match event {
        LoginEvent::LoginStarted(LoginStartedEvent::InitLogin) => Some(LoginJob::Authorize),
        LoginEvent::LoginStarted(LoginStartedEvent::CompleteLogin) => None,
        LoginEvent::LoginStarted(LoginStartedEvent::Restore) => Some(LoginJob::RestoreSession),
        LoginEvent::FreshTokenRequested => Some(LoginJob::RefreshToken),
        LoginEvent::LogoutCompleted => Some(LoginJob::ClearTokens),
        LoginEvent::LoginCompleted => Some(LoginJob::FetchDevices),
        _ => None,
    }
}

/// What the notifier does about an event.
#[derive(Debug, PartialEq, Eq)]
pub enum NotifierEffect {
    StartLogin(LoginJob),
    Send(ConnectCommand),
}

/// Whether `k` is the first active device of `devices`.
pub open spec fn is_first_active(devices: Seq<ConnectDevice>, k: int) -> bool {
    &&& 0 <= k < devices.len()
    &&& devices[k].is_active
    &&& forall|j: int| 0 <= j < k ==> !(#[trigger] devices[j]).is_active
}

/// The actions after fetching the Connect devices: none when fetching failed; else a switch
/// to the first device marked active, if any, then the offer of all devices.
pub open spec fn spec_devices_actions(devices: Option<Vec<ConnectDevice>>, r: Seq<AppAction>) -> bool {
    match devices {
        None => r == Seq::<AppAction>::empty(),
        Some(ds) => {
            &&& r.len() >= 1
            &&& r.last() == AppAction::PlaybackAction(PlaybackAction::SetAvailableDevices(ds))
            &&& (exists|k: int| is_first_active(ds@, k)) ==> r.len() == 2
            &&& forall|k: int| is_first_active(ds@, k) ==> r[0] == AppAction::PlaybackAction(
                PlaybackAction::SwitchDevice(Some(ds@[k])),
            )
            &&& (forall|k: int| 0 <= k < ds@.len() ==> !(#[trigger] ds@[k]).is_active) ==> r.len() == 1
        },
    }
}

/// A call that a login job makes to the Spotify services or the keyring.
#[derive(Clone, Copy, Debug, PartialEq, Eq)]
pub enum LoginCall {
    /// Prepare the authorization page and listen for the code it gives.
    SpawnAuthcodeListener,
    /// Exchange the code of the prepared page for credentials.
    ExchangeAuthcode,
    /// Restore a valid token from the saved session.
    GetValidToken,
    /// Refresh the access token.
    RefreshTokenAtExpiry,
    /// Clear the stored credentials.
    ClearTokens,
    /// List the available Connect devices.
    ListAvailableDevices,
}

/// What a login call gave.
#[derive(Debug, PartialEq, Eq)]
pub enum LoginReply {
    /// The address of the prepared authorization page, or `None` when it could not be prepared.
    AuthUrl(Option<String>),
    /// Whether the code exchange succeeded.
    Exchanged(bool),
    /// Whether the session could be restored.
    Restored(bool),
    /// Whether the token could be refreshed.
    Refreshed(bool),
    /// The stored credentials were cleared.
    Cleared,
    /// The available devices, or `None` when they could not be listed.
    Devices(Option<Vec<ConnectDevice>>),
}

/// The reply is one that the call gives.
pub open spec fn reply_answers(call: LoginCall, reply: LoginReply) -> bool {
    match call {
        LoginCall::SpawnAuthcodeListener => reply is AuthUrl,
        LoginCall::ExchangeAuthcode => reply is Exchanged,
        LoginCall::GetValidToken => reply is Restored,
        LoginCall::RefreshTokenAtExpiry => reply is Refreshed,
        LoginCall::ClearTokens => reply is Cleared,
        LoginCall::ListAvailableDevices => reply is Devices,
    }
}

/// One step of a login job: the actions to report, and the call to make next, if any.
#[derive(Debug, PartialEq, Eq)]
pub struct LoginStep {
    pub actions: Vec<AppAction>,
    pub next: Option<LoginCall>,
}

/// `a` is the action of a successful login: `SetLoginSuccess` with an empty string.
pub open spec fn is_login_success(a: AppAction) -> bool {
    a matches AppAction::LoginAction(LoginAction::SetLoginSuccess(u)) && u@.len() == 0
}

/// The step after a reply: a prepared authorization page is opened and its code is exchanged
/// next; every other reply ends the job with the actions of its outcome.
pub open spec fn spec_login_step(reply: LoginReply, actions: Seq<AppAction>, next: Option<LoginCall>) -> bool {
    match reply {
        LoginReply::AuthUrl(url) => match url {
            Some(u) => actions == seq![AppAction::LoginAction(LoginAction::OpenLoginUrl(u))]
                && next == Some(LoginCall::ExchangeAuthcode),
            None => actions == seq![AppAction::LoginAction(LoginAction::SetLoginFailure)] && next is None,
        },
        LoginReply::Exchanged(ok) => {
            &&& next is None
            &&& actions.len() == 1
            &&& ok ==> is_login_success(actions[0])
            &&& !ok ==> actions[0] == AppAction::LoginAction(LoginAction::SetLoginFailure)
        },
        LoginReply::Restored(ok) => {
            &&& next is None
            &&& actions.len() == 1
            &&& ok ==> is_login_success(actions[0])
            &&& !ok ==> actions[0] == AppAction::LoginAction(LoginAction::ShowLogin)
        },
        LoginReply::Refreshed(ok) => {
            &&& next is None
            &&& ok ==> actions == seq![AppAction::LoginAction(LoginAction::TokenRefreshed)]
            &&& !ok ==> actions == seq![AppAction::LoginAction(LoginAction::SetLoginFailure)]
        },
        LoginReply::Cleared => actions == Seq::<AppAction>::empty() && next is None,
        LoginReply::Devices(devices) => spec_devices_actions(devices, actions) && next is None,
    }
}

/// The first call of a login job.
pub open spec fn spec_first_login_call(job: LoginJob) -> LoginCall {
    match job {
        LoginJob::Authorize => LoginCall::SpawnAuthcodeListener,
        LoginJob::RestoreSession => LoginCall::GetValidToken,
        LoginJob::RefreshToken => LoginCall::RefreshTokenAtExpiry,
        LoginJob::ClearTokens => LoginCall::ClearTokens,
        LoginJob::FetchDevices => LoginCall::ListAvailableDevices,
    }
}

/// The actions a whole authorization reports, given whether the page could be prepared (and
/// at which address) and whether the code exchange succeeded: a failure alone when the page
/// could not be prepared; else the page is opened, then the login succeeds or fails.
pub open spec fn spec_authorization_run(url: Option<String>, exchanged: bool, actions: Seq<AppAction>) -> bool {
    match url {
        None => actions == seq![AppAction::LoginAction(LoginAction::SetLoginFailure)],
        Some(u) => {
            &&& actions.len() == 2
            &&& actions[0] == AppAction::LoginAction(LoginAction::OpenLoginUrl(u))
            &&& exchanged ==> is_login_success(actions[1])
            &&& !exchanged ==> actions[1] == AppAction::LoginAction(LoginAction::SetLoginFailure)
        },
    }
}

/// Passes the changes of playback on to the Spotify Connect player and starts the jobs of the
/// login flow.
pub struct PlayerNotifier {
    app_model: AppModel,
}

impl View for PlayerNotifier {
    type V = AppStateView;

    closed spec fn view(&self) -> AppStateView {
        self.app_model@
    }
}

impl PlayerNotifier {
    pub fn new(app_model: AppModel) -> (r: Self)
        ensures
            r@ == app_model@,
    {
        PlayerNotifier { app_model }
    }

    /// Takes in the newer application state.
    pub fn update_state(&mut self, state: AppState)
        ensures
            final(self)@ == state@,
    {
        self.app_model.set_state(state);
    }

    pub fn is_playing(&self) -> (r: bool)
        ensures
            r == self@.playback.playing,
    {
        self.app_model.get_state().playback.is_playing()
    }

    /// What plays now, if anything.
    pub fn currently_playing(&self) -> (r: Option<CurrentlyPlaying>)
        ensures
            match r {
                Some(cp) => spec_describes(cp, self@.playback) && cp.wf(),
                None => self@.playback.position is None,
            },
    {
        let state = self.app_model.get_state();
        let song = match state.playback.current_song_id() {
            Some(s) => s,
            None => {
                return None;
            },
        };
        let offset = match state.playback.current_song_index() {
            Some(o) => o,
            None => {
                return None;
            },
        };
        let source = state.playback.current_source();
        let result = match source {
            Some(source) if source.has_spotify_uri() => CurrentlyPlaying::WithSource { source, offset, song },
            _ => CurrentlyPlaying::Songs { songs: state.playback.song_ids(), offset },
        };
        Some(result)
    }

    /// The job a login event starts: authorization for a new login, restoring the session,
    /// refreshing the token, clearing the stored credentials after a logout, and fetching the
    /// devices once logged in. A login to complete with none pending starts nothing.
    pub fn notify_login(&self, event: &LoginEvent) -> (r: Option<LoginJob>)
        ensures
            r == spec_login_job(*event),
    {
        match event {
            LoginEvent::LoginStarted(LoginStartedEvent::InitLogin) => Some(LoginJob::Authorize),
            LoginEvent::LoginStarted(LoginStartedEvent::CompleteLogin) => None,
            LoginEvent::LoginStarted(LoginStartedEvent::Restore) => Some(LoginJob::RestoreSession),
            LoginEvent::FreshTokenRequested => Some(LoginJob::RefreshToken),
            LoginEvent::LogoutCompleted => Some(LoginJob::ClearTokens),
            LoginEvent::LoginCompleted => Some(LoginJob::FetchDevices),
            _ => None,
        }
    }

    /// The Connect command a playback event calls for: load what plays when the track or the
    /// source changed, and pass seeking, pausing, resuming, volume, repeat and shuffle on.
    pub fn notify_connect_player(&self, event: &PlaybackEvent) -> (r: Option<ConnectCommand>)
        ensures
            spec_connect_command(*event, self@.playback, r),
    {
        match event {
            PlaybackEvent::TrackChanged(_) | PlaybackEvent::SourceChanged => {
                match self.currently_playing() {
                    Some(CurrentlyPlaying::WithSource { source, offset, song }) => Some(
                        ConnectCommand::PlayerLoadInContext { source, offset, song },
                    ),
                    Some(CurrentlyPlaying::Songs { songs, offset }) => Some(
                        ConnectCommand::PlayerLoad { songs, offset },
                    ),
                    None => None,
                }
            },
            PlaybackEvent::TrackSeeked(position) => Some(ConnectCommand::PlayerSeek(*position as usize)),
            PlaybackEvent::PlaybackPaused => Some(ConnectCommand::PlayerPause),
            PlaybackEvent::PlaybackResumed => Some(ConnectCommand::PlayerResume),
            PlaybackEvent::VolumeSet(volume) => Some(ConnectCommand::PlayerSetVolume(*volume)),
            PlaybackEvent::RepeatModeChanged(mode) => Some(ConnectCommand::PlayerRepeat(*mode)),
            PlaybackEvent::ShuffleChanged(shuffled) => Some(ConnectCommand::PlayerShuffle(*shuffled)),
            _ => None,
        }
    }

    /// The commands for a switch of device: select the new device and load what plays into it,
    /// or stop the player when no device is left.
    pub fn switch_device(&self, device: &Option<ConnectDevice>) -> (r: Vec<ConnectCommand>)
        ensures
            match *device {
                Some(d) => {
                    &&& r@.len() >= 1
                    &&& r@[0] == ConnectCommand::SetDevice(d.id)
                    &&& spec_connect_command(PlaybackEvent::SourceChanged, self@.playback,
                        if r@.len() > 1 { Some(r@[1]) } else { None })
                    &&& r@.len() <= 2
                },
                None => r@ == seq![ConnectCommand::PlayerStop],
            },
    {
        let mut r: Vec<ConnectCommand> = Vec::new();
        match device {
            Some(device) => {
                r.push(ConnectCommand::SetDevice(device.id.clone()));
                if let Some(cmd) = self.notify_connect_player(&PlaybackEvent::SourceChanged) {
                    r.push(cmd);
                }
            },
            None => {
                r.push(ConnectCommand::PlayerStop);
            },
        }
        r
    }

    /// What to do about an application event: login events start login jobs, a switch of
    /// device and the other playback events become Connect commands.
    pub fn on_event(&self, event: &AppEvent) -> (r: Vec<NotifierEffect>)
        ensures
            match *event {
                AppEvent::LoginEvent(le) => match spec_login_job(le) {
                    Some(job) => r@ == seq![NotifierEffect::StartLogin(job)],
                    None => r@ == Seq::<NotifierEffect>::empty(),
                },
                AppEvent::PlaybackEvent(pe) => match pe {
                    PlaybackEvent::SwitchedDevice(d) => match d {
                        Some(dev) => {
                            &&& r@.len() >= 1 && r@.len() <= 2
                            &&& r@[0] == NotifierEffect::Send(ConnectCommand::SetDevice(dev.id))
                            &&& r@.len() == 2 ==> (r@[1] matches NotifierEffect::Send(cmd)
                                && spec_load_command(cmd, self@.playback))
                            &&& r@.len() == 1 ==> self@.playback.position is None
                        },
                        None => r@ == seq![NotifierEffect::Send(ConnectCommand::PlayerStop)],
                    },
                    _ => {
                        &&& r@.len() <= 1
                        &&& spec_connect_command(pe, self@.playback,
                            if r@.len() == 1 { Some(r@[0]->Send_0) } else { None })
                        &&& r@.len() == 1 ==> r@[0] is Send
                    },
                },
                _ => r@ == Seq::<NotifierEffect>::empty(),
            },
    {
        let mut r: Vec<NotifierEffect> = Vec::new();
        match event {
            AppEvent::LoginEvent(event) => {
                if let Some(job) = self.notify_login(event) {
                    r.push(NotifierEffect::StartLogin(job));
                }
            },
            AppEvent::PlaybackEvent(PlaybackEvent::SwitchedDevice(d)) => {
                match d {
                    Some(device) => {
                        r.push(NotifierEffect::Send(ConnectCommand::SetDevice(device.id.clone())));
                        if let Some(cmd) = self.notify_connect_player(&PlaybackEvent::SourceChanged) {
                            r.push(NotifierEffect::Send(cmd));
                        }
                    },
                    None => r.push(NotifierEffect::Send(ConnectCommand::PlayerStop)),
                }
            },
            AppEvent::PlaybackEvent(event) => {
                if let Some(cmd) = self.notify_connect_player(event) {
                    r.push(NotifierEffect::Send(cmd));
                }
            },
            _ => {},
        }
        r
    }

    /// The action after the authorization page was prepared: open it at `auth_url`, or report
    /// the failure when it could not be prepared (`None`). Only after a success does the code
    /// exchange follow.
    pub fn authorization_outcome(auth_url: Option<String>) -> (r: AppAction)
        ensures
            match auth_url {
                Some(url) => r == AppAction::LoginAction(LoginAction::OpenLoginUrl(url)),
                None => r == AppAction::LoginAction(LoginAction::SetLoginFailure),
            },
    {
        match auth_url {
            Some(url) => AppAction::from(LoginAction::OpenLoginUrl(url)),
            None => AppAction::from(LoginAction::SetLoginFailure),
        }
    }

    /// The action after the authorization code was exchanged for credentials.
    pub fn exchange_outcome(succeeded: bool) -> (r: AppAction)
        ensures
            succeeded ==> (r matches AppAction::LoginAction(LoginAction::SetLoginSuccess(u)) && u@.len() == 0),
            !succeeded ==> r == AppAction::LoginAction(LoginAction::SetLoginFailure),
    {
        if succeeded {
            AppAction::from(LoginAction::SetLoginSuccess(String::new()))
        } else {
            AppAction::from(LoginAction::SetLoginFailure)
        }
    }

    /// The action after trying to restore the saved session: logged in, or show the login.
    pub fn restore_outcome(succeeded: bool) -> (r: AppAction)
        ensures
            succeeded ==> (r matches AppAction::LoginAction(LoginAction::SetLoginSuccess(u)) && u@.len() == 0),
            !succeeded ==> r == AppAction::LoginAction(LoginAction::ShowLogin),
    {
        if succeeded {
            AppAction::from(LoginAction::SetLoginSuccess(String::new()))
        } else {
            AppAction::from(LoginAction::ShowLogin)
        }
    }

    /// The action after trying to refresh the token.
    pub fn refresh_outcome(succeeded: bool) -> (r: AppAction)
        ensures
            succeeded ==> r == AppAction::LoginAction(LoginAction::TokenRefreshed),
            !succeeded ==> r == AppAction::LoginAction(LoginAction::SetLoginFailure),
    {
        if succeeded {
            AppAction::from(LoginAction::TokenRefreshed)
        } else {
            AppAction::from(LoginAction::SetLoginFailure)
        }
    }

    /// The first call of a login job.
    pub fn first_login_call(job: LoginJob) -> (r: LoginCall)
        ensures
            r == spec_first_login_call(job),
    {
        match job {
            LoginJob::Authorize => LoginCall::SpawnAuthcodeListener,
            LoginJob::RestoreSession => LoginCall::GetValidToken,
            LoginJob::RefreshToken => LoginCall::RefreshTokenAtExpiry,
            LoginJob::ClearTokens => LoginCall::ClearTokens,
            LoginJob::FetchDevices => LoginCall::ListAvailableDevices,
        }
    }

    /// The step of a login job after `call` gave `reply`.
    pub fn login_step(call: LoginCall, reply: LoginReply) -> (r: LoginStep)
        requires
            reply_answers(call, reply),
        ensures
            spec_login_step(reply, r.actions@, r.next),
    {
        let mut actions: Vec<AppAction> = Vec::new();
        let next = match reply {
            LoginReply::AuthUrl(url) => {
                let proceed = url.is_some();
                actions.push(Self::authorization_outcome(url));
                if proceed {
                    Some(LoginCall::ExchangeAuthcode)
                } else {
                    None
                }
            },
            LoginReply::Exchanged(ok) => {
                actions.push(Self::exchange_outcome(ok));
                None
            },
            LoginReply::Restored(ok) => {
                actions.push(Self::restore_outcome(ok));
                None
            },
            LoginReply::Refreshed(ok) => {
                actions.push(Self::refresh_outcome(ok));
                None
            },
            LoginReply::Cleared => None,
            LoginReply::Devices(devices) => {
                actions = Self::devices_outcome(devices);
                None
            },
        };
        LoginStep { actions, next }
    }

    /// The actions after fetching the Connect devices (`None` when fetching failed, which is
    /// only reported): switch to the first device marked active, if any, then offer all devices.
    pub fn devices_outcome(devices: Option<Vec<ConnectDevice>>) -> (r: Vec<AppAction>)
        ensures
            spec_devices_actions(devices, r@),
    {
        let mut r: Vec<AppAction> = Vec::new();
        match devices {
            None => {},
            Some(ds) => {
                let n = ds.len();
                let mut i: usize = 0;
                while i < n && !ds[i].is_active
                    invariant
                        n == ds@.len(),
                        i <= n,
                        forall|j: int| 0 <= j < i ==> !(#[trigger] ds@[j]).is_active,
                    decreases n - i,
                {
                    i = i + 1;
                }
                if i < n {
                    assert(is_first_active(ds@, i as int));
                    r.push(AppAction::from(PlaybackAction::SwitchDevice(Some(ds[i].clone()))));
                }
                r.push(AppAction::from(PlaybackAction::SetAvailableDevices(ds)));
            },
        }
        r
    }
}

/// The song that the Connect player is told to play is the current song of the queue.
pub proof fn lemma_described_song_is_current(cp: CurrentlyPlaying, state: PlaybackStateView)
    requires
        spec_describes(cp, state),
        state.position matches Some(i) ==> i < state.songs.len(),
    ensures
        state.current() matches Some(song) && cp.spec_song_id() == song.id,
        cp.wf(),
{
}


/// An authorization runs as its steps say: it starts by preparing the page; when that fails,
/// only the failure is reported and nothing follows; when it succeeds, the page is opened
/// first, the code exchange follows, and its outcome ends the job.
pub proof fn lemma_authorization_order(
    url: Option<String>,
    exchanged: bool,
    first: Seq<AppAction>,
    after_first: Option<LoginCall>,
    second: Seq<AppAction>,
    after_second: Option<LoginCall>,
)
    requires
        spec_login_step(LoginReply::AuthUrl(url), first, after_first),
        after_first is Some ==> spec_login_step(LoginReply::Exchanged(exchanged), second, after_second),
    ensures
        spec_first_login_call(LoginJob::Authorize) == LoginCall::SpawnAuthcodeListener,
        after_first is Some <==> url is Some,
        after_first is Some ==> after_first == Some(LoginCall::ExchangeAuthcode) && after_second is None,
        spec_authorization_run(url, exchanged, if after_first is Some { first + second } else { first }),
{
    if after_first is Some {
        assert((first + second)[0] == first[0]);
        assert((first + second)[1] == second[0]);
    }
}

} // verus!

