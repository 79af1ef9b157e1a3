pub mod auth;
pub mod body;
pub mod channel;
pub mod error;
pub mod jwt;
pub mod problem;
pub mod relay;
pub mod settings;
pub mod metrics;
