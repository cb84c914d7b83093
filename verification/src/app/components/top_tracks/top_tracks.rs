use vstd::prelude::*;

use crate::app::state::LoginEvent;
use crate::app::{AppEvent, BrowserEvent};

verus! {

/// What the top-tracks page does about an event, before passing the event on to its song list.
#[derive(Clone, Copy, Debug, PartialEq, Eq)]
pub enum TopTracksReaction {
    /// Load the first page of top tracks and artists.
    LoadInitial,
    /// Show the new list of top artists.
    UpdateArtists,
    /// Nothing beyond passing the event on.
    PassOn,
}

/// The reaction of the top-tracks page: load when the application started or a login
/// completed, show the artists when the top artists were updated.
pub fn top_tracks_reaction(event: &AppEvent) -> (r: TopTracksReaction)
    ensures
        r == match *event {
            AppEvent::Started => TopTracksReaction::LoadInitial,
            AppEvent::LoginEvent(LoginEvent::LoginCompleted) => TopTracksReaction::LoadInitial,
            AppEvent::BrowserEvent(BrowserEvent::TopArtistsUpdated) => TopTracksReaction::UpdateArtists,
            _ => TopTracksReaction::PassOn,
        },
{
    match event {
        AppEvent::Started | AppEvent::LoginEvent(LoginEvent::LoginCompleted) => TopTracksReaction::LoadInitial,
        AppEvent::BrowserEvent(BrowserEvent::TopArtistsUpdated) => TopTracksReaction::UpdateArtists,
        _ => TopTracksReaction::PassOn,
    }
}

} // verus!
