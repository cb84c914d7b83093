//! The decisions of the Spotty player client, kept apart from the toolkit and the network:
//! what each button press asks for, what each event changes on screen and in the Connect
//! player, how settings are stored and read back, and how cached credentials behave.

pub mod api;
pub mod app;
pub mod settings;
