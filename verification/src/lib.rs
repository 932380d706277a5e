pub mod config;
pub mod errors;
pub mod handlers;
pub mod models;
pub mod services;
pub mod text;
