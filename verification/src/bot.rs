pub mod config;
pub mod error;
pub mod groq;
pub mod keyboard;
