//! Helpers that site plugins may call: markup reading, downloads, configuration sources.

pub mod config;
pub mod html_parsing;
pub mod resource;
