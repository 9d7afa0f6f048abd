pub mod app;
pub mod document;
pub mod engine;
pub mod error;
pub mod event_laws;
pub mod explorer;
pub mod gui;
pub mod laws;
pub mod model;
pub mod monitor;
pub mod text;
pub mod tui;
