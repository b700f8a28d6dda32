//! Settings of the organizer, and where they are kept.

use vstd::prelude::*;
use crate::utils::{join, joined};

verus! {

/// Why the organizer cannot start.
#[derive(Debug, Clone, Copy, PartialEq, Eq, Structural)]
pub enum ConfigError {
    /// The user's home directory is unknown.
    NoHomeDirectory,
    /// The user's configuration directory is unknown.
    NoConfigDirectory,
}

/// Settings of the subfolder matcher.
#[derive(Debug)]
pub struct MatcherConfig {
    /// Folders to leave out of semantic matching (e.g. "Archive", "Old Files").
    pub excluded_folders: Vec<String>,
}

/// All settings.
#[derive(Debug)]
pub struct Config {
    pub matcher: MatcherConfig,
}

impl Default for MatcherConfig {
    fn default() -> (r: Self)
        ensures
            r.excluded_folders@.len() == 0,
    {
        MatcherConfig { excluded_folders: Vec::new() }
    }
}

impl Default for Config {
    fn default() -> (r: Self)
        ensures
            r.matcher.excluded_folders@.len() == 0,
    {
        Config { matcher: MatcherConfig::default() }
    }
}

/// Relies on `dirs::home_dir`: the home directory, where the platform gives one.
#[verifier::external_body]
pub(crate) fn home_directory() -> (r: Option<String>) {
    dirs::home_dir().and_then(|p| p.into_os_string().into_string().ok())
}

/// Relies on `dirs::config_dir`: the configuration directory, where the platform gives one.
#[verifier::external_body]
pub(crate) fn config_directory() -> (r: Option<String>) {
    dirs::config_dir().and_then(|p| p.into_os_string().into_string().ok())
}

impl Config {
    /// The settings file under a configuration directory: `<dir>/autofile/config.toml`.
    pub fn config_path_in(config_dir: &str) -> (r: String)
        ensures
            r@ == joined(joined(config_dir@, "autofile"@), "config.toml"@),
    {
        let d = join(config_dir, "autofile");
        join(d.as_str(), "config.toml")
    }

    /// The settings file under the user's configuration directory.
    pub fn get_config_path() -> (r: Result<String, ConfigError>)
        ensures
            r matches Err(e) ==> e == ConfigError::NoConfigDirectory,
            r matches Ok(p) ==> exists|d: Seq<char>|
                p@ == joined(joined(d, "autofile"@), "config.toml"@),
    {
        match config_directory() {
            Some(d) => Ok(Self::config_path_in(d.as_str())),
            None => Err(ConfigError::NoConfigDirectory),
        }
    }
}

} // verus!
