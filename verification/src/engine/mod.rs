pub mod app;
pub mod config;
pub mod document;
pub mod error;
