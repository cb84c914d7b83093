use vstd::prelude::*;

pub mod components;
pub mod models;
pub mod state;

use crate::app::state::settings_state::{SettingsAction, SettingsEvent, SettingsState};
use crate::app::state::{LoginAction, LoginEvent, PlaybackAction, PlaybackEvent, PlaybackState, PlaybackStateView};

verus! {

/// A screen of the browser that navigation can return to.
#[derive(Clone, Copy, Debug, PartialEq, Eq)]
pub enum ScreenName {
    Home,
}

/// Navigation requests.
#[derive(Clone, Copy, Debug, PartialEq, Eq)]
pub enum BrowserAction {
    NavigationPopTo(ScreenName),
}

/// What the browser reports.
#[derive(Clone, Copy, Debug, PartialEq, Eq)]
pub enum BrowserEvent {
    TopArtistsUpdated,
}

/// What the selection mode reports.
#[derive(Clone, Copy, Debug, PartialEq, Eq)]
pub enum SelectionEvent {
    SelectionModeChanged(bool),
}

/// Every request that components hand to the dispatcher.
#[derive(Debug, PartialEq, Eq)]
pub enum AppAction {
    ViewNowPlaying,
    ViewAlbum(String),
    ViewArtist(String),
    PlaybackAction(PlaybackAction),
    BrowserAction(BrowserAction),
    SettingsAction(SettingsAction),
    LoginAction(LoginAction),
}

/// Every event that the application broadcasts to its components.
#[derive(Debug, PartialEq, Eq)]
pub enum AppEvent {
    Started,
    PlaybackEvent(PlaybackEvent),
    LoginEvent(LoginEvent),
    BrowserEvent(BrowserEvent),
    SelectionEvent(SelectionEvent),
    SettingsEvent(SettingsEvent),
}

impl From<PlaybackAction> for AppAction {
    fn from(action: PlaybackAction) -> Self {
        AppAction::PlaybackAction(action)
    }
}

impl vstd::std_specs::convert::FromSpecImpl<PlaybackAction> for AppAction {
    open spec fn obeys_from_spec() -> bool {
        true
    }

    open spec fn from_spec(v: PlaybackAction) -> Self {
        AppAction::PlaybackAction(v)
    }
}

impl From<BrowserAction> for AppAction {
    fn from(action: BrowserAction) -> Self {
        AppAction::BrowserAction(action)
    }
}

impl vstd::std_specs::convert::FromSpecImpl<BrowserAction> for AppAction {
    open spec fn obeys_from_spec() -> bool {
        true
    }

    open spec fn from_spec(v: BrowserAction) -> Self {
        AppAction::BrowserAction(v)
    }
}

impl From<LoginAction> for AppAction {
    fn from(action: LoginAction) -> Self {
        AppAction::LoginAction(action)
    }
}

impl vstd::std_specs::convert::FromSpecImpl<LoginAction> for AppAction {
    open spec fn obeys_from_spec() -> bool {
        true
    }

    open spec fn from_spec(v: LoginAction) -> Self {
        AppAction::LoginAction(v)
    }
}

/// The whole application state that components read.
pub struct AppState {
    pub playback: PlaybackState,
    pub settings: SettingsState,
}

pub struct AppStateView {
    pub playback: PlaybackStateView,
    pub settings: SettingsState,
}

impl View for AppState {
    type V = AppStateView;

    open spec fn view(&self) -> AppStateView {
        AppStateView { playback: self.playback@, settings: self.settings }
    }
}

impl Clone for AppState {
    fn clone(&self) -> (r: Self)
        ensures
            r@ == self@,
    {
        AppState { playback: self.playback.clone(), settings: self.settings.clone() }
    }
}

/// The model that owns the application state; components read it through `get_state`.
pub struct AppModel {
    state: AppState,
}

impl View for AppModel {
    type V = AppStateView;

    closed spec fn view(&self) -> AppStateView {
        self.state@
    }
}

impl AppModel {
    pub fn new(state: AppState) -> (r: Self)
        ensures
            r@ == state@,
    {
        AppModel { state }
    }

    pub fn get_state(&self) -> (r: &AppState)
        ensures
            r@ == self@,
    {
        &self.state
    }

    /// Replaces the state with a newer one.
    pub fn set_state(&mut self, state: AppState)
        ensures
            final(self)@ == state@,
    {
        self.state = state;
    }
}

impl Clone for AppModel {
    fn clone(&self) -> (r: Self)
        ensures
            r@ == self@,
    {
        AppModel { state: self.state.clone() }
    }
}

} // verus!
