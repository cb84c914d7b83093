use vstd::prelude::*;

use crate::app::state::settings_state::SettingsAction;
use crate::app::state::PlaybackAction;
use crate::app::{AppAction, AppModel, AppState, AppStateView};
use crate::settings::RiffSettings;

verus! {

/// What the settings window offers: the current settings, and the actions of its controls.
pub struct SettingsModel {
    app_model: AppModel,
}

impl View for SettingsModel {
    type V = AppStateView;

    closed spec fn view(&self) -> AppStateView {
        self.app_model@
    }
}

impl SettingsModel {
    pub fn new(app_model: AppModel) -> (r: Self)
        ensures
            r@ == app_model@,
    {
        SettingsModel { app_model }
    }

    /// Takes in the newer application state.
    pub fn update_state(&mut self, state: AppState)
        ensures
            final(self)@ == state@,
    {
        self.app_model.set_state(state);
    }

    /// Asks to stop the player.
    pub fn stop_player(&self) -> (r: AppAction)
        ensures
            r == AppAction::PlaybackAction(PlaybackAction::Stop),
    {
        AppAction::from(PlaybackAction::Stop)
    }

    /// Asks to read the stored settings again.
    pub fn set_settings(&self) -> (r: AppAction)
        ensures
            r == AppAction::SettingsAction(SettingsAction::ChangeSettings),
    {
        AppAction::from(SettingsAction::ChangeSettings)
    }

    /// The settings the application state holds.
    pub fn settings(&self) -> (r: RiffSettings)
        ensures
            r == self@.settings.settings,
    {
        let state = self.app_model.get_state();
        state.settings.settings
    }
}

} // verus!
