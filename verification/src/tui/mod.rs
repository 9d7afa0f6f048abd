pub mod app;
pub mod events;
pub mod ui;
