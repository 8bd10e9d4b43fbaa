pub mod app;
pub mod effect;
pub mod mode;
pub mod modes;
pub mod utils;
