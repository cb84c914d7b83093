use vstd::prelude::*;

use crate::app::{AppAction, AppEvent};
use crate::settings::{default_settings, RiffSettings};

verus! {

/// Requests about the settings.
#[derive(Clone, Copy, Debug, PartialEq, Eq)]
pub enum SettingsAction {
    /// The stored settings changed and should be read again.
    ChangeSettings,
}

impl From<SettingsAction> for AppAction {
    fn from(action: SettingsAction) -> Self {
        AppAction::SettingsAction(action)
    }
}

impl vstd::std_specs::convert::FromSpecImpl<SettingsAction> for AppAction {
    open spec fn obeys_from_spec() -> bool {
        true
    }

    open spec fn from_spec(v: SettingsAction) -> Self {
        AppAction::SettingsAction(v)
    }
}

/// What the settings report. Nothing in the library emits it: applying a settings action
/// produces no event.
#[derive(Clone, Copy, Debug, PartialEq, Eq)]
pub enum SettingsEvent {
    SettingsChanged,
}

impl From<SettingsEvent> for AppEvent {
    fn from(event: SettingsEvent) -> Self {
        AppEvent::SettingsEvent(event)
    }
}

impl vstd::std_specs::convert::FromSpecImpl<SettingsEvent> for AppEvent {
    open spec fn obeys_from_spec() -> bool {
        true
    }

    open spec fn from_spec(v: SettingsEvent) -> Self {
        AppEvent::SettingsEvent(v)
    }
}

/// The settings as the application state holds them.
#[derive(Clone, Copy, Debug, PartialEq, Eq)]
pub struct SettingsState {
    pub settings: RiffSettings,
}

impl Default for SettingsState {
    fn default() -> (r: Self)
        ensures
            r.settings == default_settings(),
    {
        SettingsState { settings: RiffSettings::default() }
    }
}

impl SettingsState {
    /// Applies a settings action. `loaded` is what reading the settings storage gave (`None`
    /// when it held no valid settings); the state then holds it, or the defaults. No event
    /// follows.
    pub fn update_with(&mut self, action: SettingsAction, loaded: Option<RiffSettings>) -> (r: Vec<AppEvent>)
        ensures
            final(self).settings == match loaded {
                Some(s) => s,
                None => default_settings(),
            },
            r@ == Seq::<AppEvent>::empty(),
    {
        match action {
            SettingsAction::ChangeSettings => {
                self.settings = match loaded {
                    Some(s) => s,
                    None => RiffSettings::default(),
                };
                Vec::new()
            },
        }
    }
}

} // verus!
