pub mod api;
pub mod bot;
pub mod cars;
pub mod chat;
pub mod config;
pub mod error;
pub mod json;
pub mod text;
