//! The optional configuration file and where it is looked up.
use vstd::prelude::*;
use crate::text::{join_path, join_path_spec};

verus! {

/// Settings read from `config.toml`.
#[derive(Debug, Clone)]
pub struct AppConfig {
    pub openai_key: Option<String>,
    pub model: Option<String>,
}

impl Default for AppConfig {
    /// No key and no model.
    fn default() -> (c: Self)
        ensures
            c.openai_key is None,
            c.model is None,
    {
        AppConfig { openai_key: None, model: None }
    }
}

/// Where the config file is looked for: `$XDG_CONFIG_HOME/icon-maker/config.toml`,
/// else `$HOME/.config/icon-maker/config.toml`, else nowhere.
pub open spec fn config_path(xdg_config_home: Option<Seq<char>>, home: Option<Seq<char>>) -> Option<
    Seq<char>,
> {
    match xdg_config_home {
        Some(base) => Some(join_path_spec(join_path_spec(base, "icon-maker"@), "config.toml"@)),
        None => match home {
            Some(h) => Some(
                join_path_spec(
                    join_path_spec(join_path_spec(h, ".config"@), "icon-maker"@),
                    "config.toml"@,
                ),
            ),
            None => None,
        },
    }
}

/// The view of an optional string.
pub open spec fn opt_string_view(o: Option<String>) -> Option<Seq<char>> {
    match o {
        Some(s) => Some(s@),
        None => None,
    }
}

/// The config file path for the given values of `XDG_CONFIG_HOME` and `HOME`.
pub fn default_path(xdg_config_home: Option<&str>, home: Option<&str>) -> (p: Option<String>)
    ensures
        opt_string_view(p) == config_path(
            match xdg_config_home {
                Some(x) => Some(x@),
                None => None,
            },
            match home {
                Some(h) => Some(h@),
                None => None,
            },
        ),
{
    match xdg_config_home {
        Some(base) => {
            let dir = join_path(base, "icon-maker");
            Some(join_path(dir.as_str(), "config.toml"))
        },
        None => match home {
            Some(h) => {
                let config_dir = join_path(h, ".config");
                let dir = join_path(config_dir.as_str(), "icon-maker");
                Some(join_path(dir.as_str(), "config.toml"))
            },
            None => None,
        },
    }
}

/// What became of reading and parsing the config file.
#[derive(Debug)]
pub enum ConfigFileState {
    /// No file at the path.
    Missing,
    /// The file exists but could not be read; holds the operating system's message.
    Unreadable(String),
    /// The file is not valid TOML for the config; holds the parser's message.
    Malformed(String),
    /// The parsed settings.
    Parsed(AppConfig),
}

/// Why the config could not be loaded.
#[derive(Debug)]
pub enum ConfigError {
    Read { path: String, reason: String },
    Parse { path: String, reason: String },
}

/// The headline of a config error, naming the file.
pub open spec fn config_error_message(e: ConfigError) -> Seq<char> {
    match e {
        ConfigError::Read { path, .. } => "failed to read "@ + path@,
        ConfigError::Parse { path, .. } => "failed to parse TOML config at "@ + path@,
    }
}

impl ConfigError {
    /// The headline of the error, naming the file.
    pub fn message(&self) -> (m: String)
        ensures
            m@ == config_error_message(*self),
    {
        match self {
            ConfigError::Read { path, .. } => String::from_str("failed to read ").concat(
                path.as_str(),
            ),
            ConfigError::Parse { path, .. } => String::from_str(
                "failed to parse TOML config at ",
            ).concat(path.as_str()),
        }
    }

    /// The underlying message of the reader or parser.
    pub fn reason(&self) -> (r: &String)
        ensures
            r == match self {
                ConfigError::Read { reason, .. } => reason,
                ConfigError::Parse { reason, .. } => reason,
            },
    {
        match self {
            ConfigError::Read { reason, .. } => reason,
            ConfigError::Parse { reason, .. } => reason,
        }
    }
}

/// Outcome of loading the config file at `path`: a missing file means no
/// config; a file that cannot be read or parsed is an error naming the path.
pub fn load_from_path(path: &str, state: ConfigFileState) -> (r: Result<
    Option<AppConfig>,
    ConfigError,
>)
    ensures
        match state {
            ConfigFileState::Missing => r matches Ok(None),
            ConfigFileState::Unreadable(reason) => r matches Err(ConfigError::Read { path: p, reason: why })
                && p@ == path@ && why == reason,
            ConfigFileState::Malformed(reason) => r matches Err(ConfigError::Parse { path: p, reason: why })
                && p@ == path@ && why == reason,
            ConfigFileState::Parsed(cfg) => r == Ok::<Option<AppConfig>, ConfigError>(Some(cfg)),
        },
{
    match state {
        ConfigFileState::Missing => Ok(None),
        ConfigFileState::Unreadable(reason) => Err(
            ConfigError::Read { path: String::from_str(path), reason },
        ),
        ConfigFileState::Malformed(reason) => Err(
            ConfigError::Parse { path: String::from_str(path), reason },
        ),
        ConfigFileState::Parsed(cfg) => Ok(Some(cfg)),
    }
}

} // verus!
