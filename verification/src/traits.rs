//! The capabilities a site plugin may offer, and the registry that holds the plugins.
//!
//! A capability that the engine calls through a shared handle comes with a
//! relation that says which results its method may give. A plugin that states
//! nothing keeps the default, under which every result is possible; a plugin
//! that states more lets the engine's contracts say more.

pub mod config;
pub mod domain;
pub mod matcher;
pub mod registry;
pub mod storage;

pub use config::Config;
pub use domain::Domain;
pub use matcher::Matcher;
pub use registry::Registry;
pub use storage::Storage;
