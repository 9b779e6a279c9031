//! What the command line decides once its arguments are read.

pub mod cmd;
pub mod engine;
pub mod entity;

pub use cmd::{list_domains, scrap};
pub use engine::build_engine;
pub use entity::{ConfigMode, LogLevel, ScrapArgs};
