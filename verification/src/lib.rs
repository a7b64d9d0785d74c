pub mod commands;
pub mod config;
pub mod error;
pub mod form;
pub mod listing;
pub mod markdown;
pub mod markup;
pub mod yaml;
