//! The host's configuration record and its defaults.

use crate::paths::{join_path, joined};
use vstd::prelude::*;

verus! {

/// The port that the host listens on unless told otherwise.
pub const DEFAULT_PORT: u16 = 23400;

/// Host configuration: the listening port, where logs, modules and the
/// database live, and whether crash reports may be sent.
#[derive(Clone, Debug)]
pub struct Config {
    pub port: u16,
    pub log_file_path: String,
    pub plugins_file_path: String,
    pub database_file: String,
    pub sentry: bool,
}

/// A configuration as plain values.
pub struct ConfigView {
    pub port: u16,
    pub log_file_path: Seq<char>,
    pub plugins_file_path: Seq<char>,
    pub database_file: Seq<char>,
    pub sentry: bool,
}

impl View for Config {
    type V = ConfigView;

    open spec fn view(&self) -> ConfigView {
        ConfigView {
            port: self.port,
            log_file_path: self.log_file_path@,
            plugins_file_path: self.plugins_file_path@,
            database_file: self.database_file@,
            sentry: self.sentry,
        }
    }
}

/// The directory that the defaults are laid out under: the per-user data
/// directory where there is one, the working directory otherwise.
pub open spec fn base_directory(data_dir: Option<Seq<char>>) -> Seq<char> {
    match data_dir {
        Some(dir) => dir,
        None => "."@,
    }
}

/// The text of an optional location.
pub open spec fn location_text(location: Option<String>) -> Option<Seq<char>> {
    match location {
        Some(text) => Some(text@),
        None => None,
    }
}

/// The default configuration for a given per-user data directory.
pub open spec fn default_layout(data_dir: Option<Seq<char>>) -> ConfigView {
    let base = base_directory(data_dir);
    ConfigView {
        port: DEFAULT_PORT,
        log_file_path: joined(base, "logs"@),
        plugins_file_path: joined(base, "plugins"@),
        database_file: joined(base, "meiti.sqlite"@),
        sentry: false,
    }
}

/// Asks `directories::ProjectDirs::from` for the project's directories and
/// hands back `data_dir()` of the answer as text, `None` where the crate
/// finds no home directory. The answer depends on the user's environment, so
/// nothing is claimed of it.
#[verifier::external_body]
fn project_data_dir(qualifier: &str, organization: &str, application: &str) -> Option<String> {
    directories::ProjectDirs::from(qualifier, organization, application).map(
        |dirs| dirs.data_dir().to_string_lossy().into_owned(),
    )
}

impl Config {
    /// The defaults laid out under `data_dir`, or under the working directory
    /// where there is none.
    pub fn with_data_dir(data_dir: Option<String>) -> (config: Config)
        ensures
            config@ == default_layout(location_text(data_dir)),
    {
        let base = match data_dir {
            Some(dir) => dir,
            None => ".".to_string(),
        };
        Config {
            port: DEFAULT_PORT,
            log_file_path: join_path(base.as_str(), "logs"),
            plugins_file_path: join_path(base.as_str(), "plugins"),
            database_file: join_path(base.as_str(), "meiti.sqlite"),
            sentry: false,
        }
    }
}

impl Default for Config {
    /// The defaults laid out under the data directory that the user's
    /// environment assigns to this program.
    fn default() -> (config: Config)
        ensures
            exists|data_dir: Option<Seq<char>>| config@ == default_layout(data_dir),
    {
        let data_dir = project_data_dir("tv", "Meiti", "Meiti Server");
        let ghost chosen = location_text(data_dir);
        let config = Config::with_data_dir(data_dir);
        assert(config@ == default_layout(chosen));
        config
    }
}

} // verus!
