# spotty

The decisions of a GTK Spotify Connect remote control, as a Verus-verified library.

- `src/api/token_store.rs`: the in-memory credentials cache in front of the system keyring.
- `src/app/models.rs`, `src/app/mod.rs`, `src/app/state/`: songs, devices, actions, events and
  the playback state (with its invariant: the current song is an entry of the queue).
- `src/app/components/playback/`: the playback bar: widget signals to actions, events to
  widget changes.
- `src/app/components/player_notifier.rs`: what the Spotify Connect player is told, and the
  jobs and outcomes of the login flow.
- `src/app/components/settings/`, `src/app/state/settings_state.rs`, `src/settings.rs`: how
  settings are read from storage, what is recorded back, and the actions that apply them.
- `src/app/components/top_tracks/`: when the top-tracks page loads.

`app/` performs what the library asks for: keyring access (oo7), JSON (serde_json), GSettings,
the GTK widgets, threads and channels. Volumes are `f64` values; inside the library they travel
as their bit pattern and are never computed with.
