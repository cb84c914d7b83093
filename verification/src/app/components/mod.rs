pub mod playback;
pub mod player_notifier;
pub mod settings;
pub mod top_tracks;
