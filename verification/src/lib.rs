pub mod config;
pub mod configs;
pub mod formatter;
pub mod modules;
pub mod path;
pub mod text;
pub mod utils;
