pub mod auth;
pub mod cli;
pub mod config;
pub mod db;
pub mod json;
pub mod models;
pub mod providers;
pub mod proxy;
pub mod text;
pub mod tunnel;
