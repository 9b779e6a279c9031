//! The site plugins that come with the engine.

pub mod pattern;
pub mod wikipedia;

pub use pattern::AddressPattern;
pub use wikipedia::{WikipediaConfig, WikipediaInstance};
