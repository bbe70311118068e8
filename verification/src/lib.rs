pub mod app;
pub mod services;
pub mod infrastructure;
pub mod text;
