pub mod auth;
pub mod client;
pub mod relay;
pub mod server;
pub mod session;
