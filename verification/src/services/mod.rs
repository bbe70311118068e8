pub mod auth;
pub mod environment;
pub mod sync;
