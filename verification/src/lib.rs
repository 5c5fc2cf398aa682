//! Describes the photos of an Immich library with a vision model: configuration,
//! screen state, the run engine's decisions, and the requests and replies of both
//! servers.

pub mod app;
pub mod clock;
pub mod config;
pub mod engine;
pub mod events;
pub mod graphemes;
pub mod http;
pub mod immich;
pub mod laws;
pub mod layout;
pub mod llm;
pub mod pool;
pub mod settings;
pub mod text;
pub mod theme;
pub mod ui;
pub mod urls;
