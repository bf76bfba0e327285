//! The relay's configuration: a credential and the channels to watch.

use vstd::prelude::*;

verus! {

/// The mathematical content of a [`Config`].
pub struct ConfigView {
    pub token: Seq<char>,
    pub channels: Seq<Seq<char>>,
}

/// The configuration, read once when the process starts and never changed
/// after that.
#[derive(Clone, Debug, PartialEq, Eq)]
pub struct Config {
    /// The credential presented to the platform.
    pub token: String,
    /// Identifiers of the channels and categories to watch, each in decimal.
    /// Only membership counts; the order means nothing.
    pub channels: Vec<String>,
}

impl View for Config {
    type V = ConfigView;

    open spec fn view(&self) -> ConfigView {
        ConfigView { token: self.token@, channels: self.channels@.map_values(|c: String| c@) }
    }
}

/// What was found where the configuration file should be.
#[derive(Clone, Debug, PartialEq, Eq)]
pub enum ConfigFile {
    /// There is no file.
    Absent,
    /// There is a file, and it is not a configuration: not valid structured
    /// text, a field missing, a field too many, or a value of the wrong type.
    Malformed,
    /// There is a file, and this is what it holds.
    Parsed(Config),
}

/// Why the process cannot start with the configuration it found.
#[derive(Clone, Debug, PartialEq, Eq)]
pub enum ConfigError {
    /// There was no file. `template` is to be written in its place, for the
    /// operator to fill in, before the process stops.
    Missing { template: Config },
    /// The file does not hold a configuration.
    Malformed,
}

/// The configuration written on a first run.
pub open spec fn template_view() -> ConfigView {
    ConfigView { token: "[Your Token]"@, channels: seq!["[Channel id]"@] }
}

impl Config {
    /// The placeholder configuration: a token and one channel entry that the
    /// operator is to replace.
    pub fn template() -> (config: Config)
        ensures
            config@ == template_view(),
    {
        let mut channels: Vec<String> = Vec::new();
        channels.push(String::from_str("[Channel id]"));
        let config = Config { token: String::from_str("[Your Token]"), channels };
        assert(config@.channels =~= template_view().channels);
        config
    }

    /// Decides how startup goes on from what was found at the configuration
    /// path: a parsed file is the configuration; a missing file fails with the
    /// template to write; anything else fails as malformed.
    pub fn load(file: ConfigFile) -> (loaded: Result<Config, ConfigError>)
        ensures
            match file {
                ConfigFile::Parsed(config) => loaded == Ok::<Config, ConfigError>(config),
                ConfigFile::Malformed => loaded == Err::<Config, ConfigError>(
                    ConfigError::Malformed,
                ),
                ConfigFile::Absent => loaded matches Err(ConfigError::Missing { template })
                    && template@ == template_view(),
            },
    {
        match file {
            ConfigFile::Parsed(config) => Ok(config),
            ConfigFile::Malformed => Err(ConfigError::Malformed),
            ConfigFile::Absent => Err(ConfigError::Missing { template: Config::template() }),
        }
    }

    /// The credential to connect with: the one from the environment where the
    /// environment gives one, the configured one otherwise.
    pub fn resolve_token(&self, from_environment: Option<String>) -> (token: String)
        ensures
            token@ == match from_environment {
                Some(given) => given@,
                None => self@.token,
            },
    {
        match from_environment {
            Some(given) => given,
            None => self.token.clone(),
        }
    }
}

} // verus!
