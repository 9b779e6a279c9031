//! The values that the command line hands on.

use vstd::prelude::*;

verus! {

/// What the `scrap` command is given.
#[derive(Debug)]
pub struct ScrapArgs {
    /// The address to scrape.
    pub url: String,
    /// Where to write what was scraped.
    pub output: Option<String>,
}

impl Clone for ScrapArgs {
    fn clone(&self) -> (copy: Self)
        ensures
            copy == *self,
    {
        let output = match &self.output {
            Some(path) => Some(path.clone()),
            None => None,
        };
        ScrapArgs { url: self.url.clone(), output }
    }
}

/// The format of the configuration file.
#[derive(Clone, Copy, Debug, PartialEq, Eq, Structural)]
pub enum ConfigMode {
    /// JSON5.
    Json5,
    /// JSON.
    Json,
}

impl Default for ConfigMode {
    fn default() -> (mode: Self)
        ensures
            mode == ConfigMode::Json,
    {
        ConfigMode::Json
    }
}

/// How much the program logs.
#[derive(Clone, Copy, Debug, PartialEq, Eq, Structural)]
pub enum LogLevel {
    /// Everything.
    Trace,
    /// What helps to find a fault.
    Debug,
    /// What a user wants to know.
    Info,
    /// What may be a fault.
    Warn,
    /// Faults only.
    Error,
}

impl Default for LogLevel {
    fn default() -> (level: Self)
        ensures
            level == LogLevel::Info,
    {
        LogLevel::Info
    }
}

impl LogLevel {
    /// The name of the level, in lower case.
    pub open spec fn spec_name(&self) -> Seq<char> {
        match self {
            LogLevel::Trace => "trace"@,
            LogLevel::Debug => "debug"@,
            LogLevel::Info => "info"@,
            LogLevel::Warn => "warn"@,
            LogLevel::Error => "error"@,
        }
    }

    /// The name of the level as a log filter takes it.
    pub fn to_string(&self) -> (name: String)
        ensures
            name@ == self.spec_name(),
    {
        match self {
            LogLevel::Trace => String::from_str("trace"),
            LogLevel::Debug => String::from_str("debug"),
            LogLevel::Info => String::from_str("info"),
            LogLevel::Warn => String::from_str("warn"),
            LogLevel::Error => String::from_str("error"),
        }
    }
}

} // verus!
