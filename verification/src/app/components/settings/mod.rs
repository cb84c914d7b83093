pub mod settings_model;
