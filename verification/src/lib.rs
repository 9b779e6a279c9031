//! A pluggable content-extraction pipeline: a registry routes an address to the
//! site handler that owns it, the handler's matcher reports what to extract and
//! its storage keeps what was found.
//!
//! - `errors`: the error kinds that cross every capability boundary.
//! - `entity`: patterns, matches, configuration values and the bundle of
//!   capabilities that a handler offers.
//! - `traits`: the capabilities themselves and the registry interface.
//! - `orchestration`: the registry, its resolution rule with the laws that
//!   hold of it, and the engine.
//! - `sites`: the handlers that come with the engine.
//! - `util`: markup reading, downloads and configuration sources.
//! - `cli`: what the command line decides once its arguments are read.

pub mod cli;
pub mod entity;
pub mod errors;
pub mod orchestration;
pub mod sites;
pub mod traits;
pub mod util;
