pub mod help_mode;
pub mod info_mode;
pub mod main_mode;
pub mod settings_mode;
