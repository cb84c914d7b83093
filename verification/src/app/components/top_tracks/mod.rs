pub mod top_tracks;
