pub mod component;
pub mod playback_info;
