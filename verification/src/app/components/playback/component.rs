use vstd::prelude::*;

use crate::app::models::{artist_names, joined, RepeatMode, SongDescription, SongDescriptionView};
use crate::app::state::{PlaybackAction, PlaybackEvent};
use crate::app::{AppAction, AppEvent, AppModel, AppState, AppStateView, BrowserAction, ScreenName, SelectionEvent};

verus! {

/// What the playback bar offers to the rest of the application: the state it reads and the
/// actions its controls ask for.
pub struct PlaybackModel {
    app_model: AppModel,
}

impl View for PlaybackModel {
    type V = AppStateView;

    closed spec fn view(&self) -> AppStateView {
        self.app_model@
    }
}

/// The actions that return to the now-playing view: show it, then go back to the home screen.
pub open spec fn spec_go_home() -> Seq<AppAction> {
    seq![
        AppAction::ViewNowPlaying,
        AppAction::BrowserAction(BrowserAction::NavigationPopTo(ScreenName::Home)),
    ]
}

/// The model behind the device selector of the playback bar.
pub struct DeviceSelectorModel {
    app_model: AppModel,
}

impl View for DeviceSelectorModel {
    type V = AppStateView;

    closed spec fn view(&self) -> AppStateView {
        self.app_model@
    }
}

impl DeviceSelectorModel {
    pub fn new(app_model: AppModel) -> (r: Self)
        ensures
            r@ == app_model@,
    {
        DeviceSelectorModel { app_model }
    }

    /// Takes in the newer application state.
    pub fn update_state(&mut self, state: AppState)
        ensures
            final(self)@ == state@,
    {
        self.app_model.set_state(state);
    }
}

impl PlaybackModel {
    pub fn new(app_model: AppModel) -> (r: Self)
        ensures
            r@ == app_model@,
    {
        PlaybackModel { app_model }
    }

    /// Takes in the newer application state.
    pub fn update_state(&mut self, state: AppState)
        ensures
            final(self)@ == state@,
    {
        self.app_model.set_state(state);
    }

    pub fn state(&self) -> (r: &AppState)
        ensures
            r@ == self@,
    {
        self.app_model.get_state()
    }

    pub fn go_home(&self) -> (r: Vec<AppAction>)
        ensures
            r@ == spec_go_home(),
    {
        let mut r: Vec<AppAction> = Vec::new();
        r.push(AppAction::ViewNowPlaying);
        r.push(AppAction::from(BrowserAction::NavigationPopTo(ScreenName::Home)));
        r
    }

    pub fn is_playing(&self) -> (r: bool)
        ensures
            r == self@.playback.playing,
    {
        self.state().playback.is_playing()
    }

    pub fn is_shuffled(&self) -> (r: bool)
        ensures
            r == self@.playback.shuffled,
    {
        self.state().playback.is_shuffled()
    }

    pub fn current_song(&self) -> (r: Option<SongDescription>)
        ensures
            match r {
                Some(s) => self@.playback.current() == Some(s@),
                None => self@.playback.current() is None,
            },
    {
        self.app_model.get_state().playback.current_song()
    }

    pub fn play_next_song(&self) -> (r: AppAction)
        ensures
            r == AppAction::PlaybackAction(PlaybackAction::Next),
    {
        AppAction::from(PlaybackAction::Next)
    }

    pub fn play_prev_song(&self) -> (r: AppAction)
        ensures
            r == AppAction::PlaybackAction(PlaybackAction::Previous),
    {
        AppAction::from(PlaybackAction::Previous)
    }

    pub fn toggle_playback(&self) -> (r: AppAction)
        ensures
            r == AppAction::PlaybackAction(PlaybackAction::TogglePlay),
    {
        AppAction::from(PlaybackAction::TogglePlay)
    }

    pub fn toggle_shuffle(&self) -> (r: AppAction)
        ensures
            r == AppAction::PlaybackAction(PlaybackAction::ToggleShuffle),
    {
        AppAction::from(PlaybackAction::ToggleShuffle)
    }

    pub fn toggle_repeat(&self) -> (r: AppAction)
        ensures
            r == AppAction::PlaybackAction(PlaybackAction::ToggleRepeat),
    {
        AppAction::from(PlaybackAction::ToggleRepeat)
    }

    pub fn seek_to(&self, position: u32) -> (r: AppAction)
        ensures
            r == AppAction::PlaybackAction(PlaybackAction::Seek(position)),
    {
        AppAction::from(PlaybackAction::Seek(position))
    }

    /// `value` is the bit pattern of the `f64` volume.
    pub fn set_volume(&self, value: u64) -> (r: AppAction)
        ensures
            r == AppAction::PlaybackAction(PlaybackAction::SetVolume(value)),
    {
        AppAction::from(PlaybackAction::SetVolume(value))
    }

    /// The model of the device selector, reading the same state.
    pub fn device_selector_model(&self) -> (r: DeviceSelectorModel)
        ensures
            r@ == self@,
    {
        DeviceSelectorModel::new(self.app_model.clone())
    }

    pub fn view_album(&self, id: String) -> (r: AppAction)
        ensures
            r == AppAction::ViewAlbum(id),
    {
        AppAction::ViewAlbum(id)
    }

    pub fn view_artist(&self, id: String) -> (r: AppAction)
        ensures
            r == AppAction::ViewArtist(id),
    {
        AppAction::ViewArtist(id)
    }
}

/// What the user did on the playback widget.
#[derive(Clone, Copy, Debug, PartialEq, Eq)]
pub enum WidgetSignal {
    PlayPause,
    Next,
    Prev,
    Shuffle,
    Repeat,
    /// The seek bar was moved to this position.
    Seek(u32),
    NowPlayingClicked,
    /// The volume was changed to this value (the bit pattern of its `f64`).
    VolumeChanged(u64),
    QueueClicked,
    AlbumClicked,
    ArtistClicked,
}

/// A change to make on the playback widget.
#[derive(Debug, PartialEq, Eq)]
pub enum WidgetCommand {
    SetPlaying(bool),
    SetRepeatMode(RepeatMode),
    SetShuffled(bool),
    /// Title and artist names of the current song.
    SetTitleAndArtist(String, String),
    /// Length of the current song.
    SetSongDuration(u32),
    /// Load the cover art from this address.
    SetArtworkFromUrl(String),
    /// Show that nothing plays.
    ResetInfo,
    SetSeekPosition(u32),
    SetSeekbarVisible(bool),
    /// The bit pattern of the `f64` volume.
    SetVolume(u64),
}

/// The actions a widget signal asks for, given the current song.
pub open spec fn spec_signal_actions(signal: WidgetSignal, current: Option<SongDescriptionView>, actions: Seq<AppAction>) -> bool {
    match signal {
        WidgetSignal::PlayPause => actions == seq![AppAction::PlaybackAction(PlaybackAction::TogglePlay)],
        WidgetSignal::Next => actions == seq![AppAction::PlaybackAction(PlaybackAction::Next)],
        WidgetSignal::Prev => actions == seq![AppAction::PlaybackAction(PlaybackAction::Previous)],
        WidgetSignal::Shuffle => actions == seq![AppAction::PlaybackAction(PlaybackAction::ToggleShuffle)],
        WidgetSignal::Repeat => actions == seq![AppAction::PlaybackAction(PlaybackAction::ToggleRepeat)],
        WidgetSignal::Seek(p) => actions == seq![AppAction::PlaybackAction(PlaybackAction::Seek(p))],
        WidgetSignal::NowPlayingClicked => actions == spec_go_home(),
        WidgetSignal::VolumeChanged(v) => actions == seq![AppAction::PlaybackAction(PlaybackAction::SetVolume(v))],
        WidgetSignal::QueueClicked => actions == spec_go_home(),
        WidgetSignal::AlbumClicked => match current {
            Some(song) => actions == seq![AppAction::ViewAlbum(song.album.id)],
            None => actions == Seq::<AppAction>::empty(),
        },
        WidgetSignal::ArtistClicked => match current {
            Some(song) => if song.artists.len() > 0 {
                actions == seq![AppAction::ViewArtist(song.artists[0].id)]
            } else {
                actions == Seq::<AppAction>::empty()
            },
            None => actions == Seq::<AppAction>::empty(),
        },
    }
}

/// The widget changes that show the current song: title and artists, duration, and the cover
/// art when there is one; or the "nothing plays" state when there is no current song.
pub open spec fn spec_current_info(current: Option<SongDescriptionView>, cmds: Seq<WidgetCommand>) -> bool {
    match current {
        None => cmds == seq![WidgetCommand::ResetInfo],
        Some(song) => {
            &&& cmds.len() == (if song.art is Some { 3int } else { 2int })
            &&& cmds[0] matches WidgetCommand::SetTitleAndArtist(title, artist)
                && title == song.title
                && artist@ == joined(artist_names(song.artists), ", "@)
            &&& cmds[1] == WidgetCommand::SetSongDuration(song.duration)
            &&& song.art matches Some(url) ==> cmds[2] == WidgetCommand::SetArtworkFromUrl(url)
        },
    }
}

/// The widget changes an application event calls for.
pub open spec fn spec_event_commands(event: AppEvent, state: AppStateView, cmds: Seq<WidgetCommand>) -> bool {
    match event {
        AppEvent::PlaybackEvent(pe) => match pe {
            PlaybackEvent::PlaybackPaused => cmds == seq![WidgetCommand::SetPlaying(state.playback.playing)],
            PlaybackEvent::PlaybackResumed => cmds == seq![WidgetCommand::SetPlaying(state.playback.playing)],
            PlaybackEvent::RepeatModeChanged(mode) => cmds == seq![WidgetCommand::SetRepeatMode(mode)],
            PlaybackEvent::ShuffleChanged(_) => cmds == seq![WidgetCommand::SetShuffled(state.playback.shuffled)],
            PlaybackEvent::TrackChanged(_) => spec_current_info(state.playback.current(), cmds),
            PlaybackEvent::PlaybackStopped => {
                &&& cmds.len() > 0
                &&& cmds[0] == WidgetCommand::SetPlaying(state.playback.playing)
                &&& spec_current_info(state.playback.current(), cmds.drop_first())
            },
            PlaybackEvent::SeekSynced(pos) => cmds == seq![WidgetCommand::SetSeekPosition(pos)],
            PlaybackEvent::TrackSeeked(pos) => cmds == seq![WidgetCommand::SetSeekPosition(pos)],
            PlaybackEvent::VolumeSet(v) => cmds == seq![WidgetCommand::SetVolume(v)],
            _ => cmds == Seq::<WidgetCommand>::empty(),
        },
        AppEvent::SelectionEvent(SelectionEvent::SelectionModeChanged(active)) => cmds == seq![WidgetCommand::SetSeekbarVisible(!active)],
        _ => cmds == Seq::<WidgetCommand>::empty(),
    }
}

/// What the playback bar does about an event.
#[derive(Debug, PartialEq, Eq)]
pub enum PlaybackBarEffect {
    /// Pass the event on to the bar's device selector.
    ForwardToDeviceSelector,
    /// Change the widget.
    Widget(WidgetCommand),
}

/// The effects of an event on the playback bar: first the event goes to the device selector,
/// then come the widget changes that the event calls for, in order.
pub open spec fn spec_event_effects(event: AppEvent, state: AppStateView, effects: Seq<PlaybackBarEffect>) -> bool {
    &&& effects.len() >= 1
    &&& effects[0] == PlaybackBarEffect::ForwardToDeviceSelector
    &&& forall|i: int| 1 <= i < effects.len() ==> (#[trigger] effects[i]) is Widget
    &&& spec_event_commands(event, state, effects.drop_first().map_values(|e: PlaybackBarEffect| e->Widget_0))
}

/// The playback bar: turns the widget's signals into actions and the application's events into
/// changes of the widget.
pub struct PlaybackControl {
    model: PlaybackModel,
}

impl View for PlaybackControl {
    type V = AppStateView;

    closed spec fn view(&self) -> AppStateView {
        self.model@
    }
}

impl PlaybackControl {
    pub fn new(model: PlaybackModel) -> (r: Self)
        ensures
            r@ == model@,
    {
        PlaybackControl { model }
    }

    /// Takes in the newer application state.
    pub fn update_state(&mut self, state: AppState)
        ensures
            final(self)@ == state@,
    {
        self.model.update_state(state);
    }

    /// The model of the device selector of this bar.
    pub fn device_selector_model(&self) -> (r: DeviceSelectorModel)
        ensures
            r@ == self@,
    {
        self.model.device_selector_model()
    }

    /// The actions a signal of the widget asks for.
    pub fn on_widget_signal(&self, signal: WidgetSignal) -> (r: Vec<AppAction>)
        ensures
            spec_signal_actions(signal, self@.playback.current(), r@),
    {
        let mut r: Vec<AppAction> = Vec::new();
        match signal {
            WidgetSignal::PlayPause => r.push(self.model.toggle_playback()),
            WidgetSignal::Next => r.push(self.model.play_next_song()),
            WidgetSignal::Prev => r.push(self.model.play_prev_song()),
            WidgetSignal::Shuffle => r.push(self.model.toggle_shuffle()),
            WidgetSignal::Repeat => r.push(self.model.toggle_repeat()),
            WidgetSignal::Seek(p) => r.push(self.model.seek_to(p)),
            WidgetSignal::NowPlayingClicked => {
                r = self.model.go_home();
            },
            WidgetSignal::VolumeChanged(v) => r.push(self.model.set_volume(v)),
            WidgetSignal::QueueClicked => {
                r = self.model.go_home();
            },
            WidgetSignal::AlbumClicked => {
                if let Some(song) = self.model.current_song() {
                    r.push(self.model.view_album(song.album.id));
                }
            },
            WidgetSignal::ArtistClicked => {
                if let Some(song) = self.model.current_song() {
                    if song.artists.len() > 0 {
                        r.push(self.model.view_artist(song.artists[0].id.clone()));
                    }
                }
            },
        }
        r
    }

    pub fn update_repeat(&self, mode: &RepeatMode) -> (r: WidgetCommand)
        ensures
            r == WidgetCommand::SetRepeatMode(*mode),
    {
        WidgetCommand::SetRepeatMode(*mode)
    }

    pub fn update_shuffled(&self) -> (r: WidgetCommand)
        ensures
            r == WidgetCommand::SetShuffled(self@.playback.shuffled),
    {
        WidgetCommand::SetShuffled(self.model.is_shuffled())
    }

    pub fn update_playing(&self) -> (r: WidgetCommand)
        ensures
            r == WidgetCommand::SetPlaying(self@.playback.playing),
    {
        let is_playing = self.model.is_playing();
        WidgetCommand::SetPlaying(is_playing)
    }

    pub fn update_current_info(&self) -> (r: Vec<WidgetCommand>)
        ensures
            spec_current_info(self@.playback.current(), r@),
    {
        let mut r: Vec<WidgetCommand> = Vec::new();
        if let Some(song) = self.model.current_song() {
            let artists = song.artists_name();
            r.push(WidgetCommand::SetTitleAndArtist(song.title, artists));
            r.push(WidgetCommand::SetSongDuration(song.duration));
            if let Some(url) = song.art {
                r.push(WidgetCommand::SetArtworkFromUrl(url));
            }
        } else {
            r.push(WidgetCommand::ResetInfo);
        }
        r
    }

    pub fn sync_seek(&self, pos: u32) -> (r: WidgetCommand)
        ensures
            r == WidgetCommand::SetSeekPosition(pos),
    {
        WidgetCommand::SetSeekPosition(pos)
    }

    /// The widget changes an application event calls for.
    pub fn on_event(&self, event: &AppEvent) -> (r: Vec<WidgetCommand>)
        ensures
            spec_event_commands(*event, self@, r@),
    {
        let mut r: Vec<WidgetCommand> = Vec::new();
        match event {
            AppEvent::PlaybackEvent(PlaybackEvent::PlaybackPaused)
            | AppEvent::PlaybackEvent(PlaybackEvent::PlaybackResumed) => {
                r.push(self.update_playing());
            },
            AppEvent::PlaybackEvent(PlaybackEvent::RepeatModeChanged(mode)) => {
                r.push(self.update_repeat(mode));
            },
            AppEvent::PlaybackEvent(PlaybackEvent::ShuffleChanged(_)) => {
                r.push(self.update_shuffled());
            },
            AppEvent::PlaybackEvent(PlaybackEvent::TrackChanged(_)) => {
                r = self.update_current_info();
            },
            AppEvent::PlaybackEvent(PlaybackEvent::PlaybackStopped) => {
                r.push(self.update_playing());
                let mut info = self.update_current_info();
                let ghost info_before = info@;
                r.append(&mut info);
                assert(r@.drop_first() == info_before);
            },
            AppEvent::PlaybackEvent(PlaybackEvent::SeekSynced(pos))
            | AppEvent::PlaybackEvent(PlaybackEvent::TrackSeeked(pos)) => {
                r.push(self.sync_seek(*pos));
            },
            AppEvent::SelectionEvent(SelectionEvent::SelectionModeChanged(active)) => {
                r.push(WidgetCommand::SetSeekbarVisible(!*active));
            },
            AppEvent::PlaybackEvent(PlaybackEvent::VolumeSet(value)) => {
                r.push(WidgetCommand::SetVolume(*value));
            },
            _ => {},
        }
        r
    }

    /// Handles an application event: passes it to the device selector first, then changes the
    /// widget as the event calls for.
    pub fn handle_event(&self, event: &AppEvent) -> (r: Vec<PlaybackBarEffect>)
        ensures
            spec_event_effects(*event, self@, r@),
    {
        let mut r: Vec<PlaybackBarEffect> = Vec::new();
        r.push(PlaybackBarEffect::ForwardToDeviceSelector);
        let cmds = self.on_event(event);
        let ghost all = cmds@;
        for cmd in iter: cmds
            invariant
                all == iter.seq(),
                r@.len() == iter.index() + 1,
                r@[0] == PlaybackBarEffect::ForwardToDeviceSelector,
                forall|k: int| 0 <= k < iter.index() ==> #[trigger] r@[k + 1] == PlaybackBarEffect::Widget(all[k]),
        {
            r.push(PlaybackBarEffect::Widget(cmd));
        }
        assert(r@.len() == all.len() + 1);
        assert forall|i: int| 1 <= i < r@.len() implies (#[trigger] r@[i]) is Widget by {
            assert(r@[(i - 1) + 1] == PlaybackBarEffect::Widget(all[i - 1]));
        }
        let ghost widgets = r@.drop_first().map_values(|e: PlaybackBarEffect| e->Widget_0);
        assert forall|i: int| 0 <= i < all.len() implies #[trigger] widgets[i] == all[i] by {
            assert(r@[i + 1] == PlaybackBarEffect::Widget(all[i]));
        }
        assert(widgets =~= all);
        r
    }
}

} // verus!
