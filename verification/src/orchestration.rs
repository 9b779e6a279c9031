//! The engine and the registry it owns.

pub mod engine;
pub mod model;

pub use engine::{AppConfigJson5, ConfigLoad, Engine, Extraction};
pub use model::RegistryMapImplementation;
