//! A push gateway for Matrix notifications: routing, payload shaping, bounded
//! retries, outcome aggregation and adaptive dispatch jitter.
pub mod dispatch;
pub mod error;
pub mod jitter;
pub mod models;
pub mod payload;
pub mod settings;
pub mod text;
