//! Resolution of the effective access token from a command-line override and
//! the stored configuration file.
//!
//! The file itself lives on disk and is read and deserialized outside this
//! crate; resolution takes the outcome of that read as a plain value and
//! applies the precedence rules.

use vstd::prelude::*;

verus! {

/// The user's configuration: the access token handed to the API client.
#[derive(Debug)]
pub struct Config {
    pub access_token: String,
}

impl Config {
    /// The resolved access token.
    pub fn access_token(&self) -> (r: &String)
        ensures
            *r == self.access_token,
    {
        &self.access_token
    }
}

/// A builder that turns a bare access token into a `Config`.
pub struct IntoConfig {
    pub access_token: String,
}

impl IntoConfig {
    /// A builder holding `access_token`.
    pub fn default(access_token: String) -> (r: IntoConfig)
        ensures
            r.access_token == access_token,
    {
        IntoConfig { access_token }
    }

    /// The finished configuration.
    pub fn build(self) -> (r: Config)
        ensures
            r.access_token == self.access_token,
    {
        Config { access_token: self.access_token }
    }
}

/// The user's configuration as it is stored on disk, where it is kept in a
/// simple key-value format with the single recognized key `access_token`.
#[derive(Debug)]
pub struct StoredConfig {
    pub access_token: String,
}

impl From<StoredConfig> for IntoConfig {
    fn from(stored: StoredConfig) -> (r: Self) {
        IntoConfig::default(stored.access_token)
    }
}

impl vstd::std_specs::convert::FromSpecImpl<StoredConfig> for IntoConfig {
    open spec fn obeys_from_spec() -> bool {
        true
    }

    open spec fn from_spec(v: StoredConfig) -> IntoConfig {
        IntoConfig { access_token: v.access_token }
    }
}

/// Errors that arise in the process of reading the user's config file.
#[derive(Clone, Copy, Debug, PartialEq, Eq, Structural)]
pub enum ConfigError {
    /// No configuration file exists at the default path.
    FileMissing,
    /// A configuration file exists but could not be read.
    IoError,
    /// The configuration file was read but could not be parsed, or held no
    /// `access_token` entry.
    ParseError,
}

impl ConfigError {
    /// A short account of the error.
    pub fn description(&self) -> (r: &'static str)
        ensures
            *self is FileMissing ==> r@ == "The configuration file does not exist."@,
            *self is IoError ==> r@ == "An IO error occurred."@,
            *self is ParseError ==> r@ == "Unable to parse configuration file."@,
    {
        match *self {
            ConfigError::FileMissing => "The configuration file does not exist.",
            ConfigError::IoError => "An IO error occurred.",
            ConfigError::ParseError => "Unable to parse configuration file.",
        }
    }
}

/// The token that resolution yields: a token supplied on the command line
/// wins unconditionally; otherwise the stored token is used; otherwise the
/// error from reading the stored configuration is propagated.
pub open spec fn resolved(cli: Option<Seq<char>>, stored: Result<Seq<char>, ConfigError>) -> Result<
    Seq<char>,
    ConfigError,
> {
    match cli {
        Some(t) => Ok(t),
        None => stored,
    }
}

/// The view of the optional command-line token.
pub open spec fn cli_view(cli: Option<String>) -> Option<Seq<char>> {
    match cli {
        Some(t) => Some(t@),
        None => None,
    }
}

/// The view of the outcome of loading the stored configuration.
pub open spec fn stored_view(stored: Result<StoredConfig, ConfigError>) -> Result<
    Seq<char>,
    ConfigError,
> {
    match stored {
        Ok(c) => Ok(c.access_token@),
        Err(e) => Err(e),
    }
}

/// Determines the effective access token by merging the command-line override
/// with the outcome of loading the stored configuration file.
pub fn resolve(cli_token: Option<String>, stored: Result<StoredConfig, ConfigError>) -> (r: Result<
    Config,
    ConfigError,
>)
    ensures
        match resolved(cli_view(cli_token), stored_view(stored)) {
            Ok(t) => r matches Ok(c) && c.access_token@ == t,
            Err(e) => r matches Err(e2) && e2 == e,
        },
{
    match cli_token {
        Some(token) => Ok(Config { access_token: token }),
        None => match stored {
            Ok(stored_config) => Ok(IntoConfig::from(stored_config).build()),
            Err(err) => Err(err),
        },
    }
}

/// A token supplied on the command line always wins, whatever came of the
/// stored configuration file.
pub proof fn lemma_cli_token_wins(t: Seq<char>, stored: Result<Seq<char>, ConfigError>)
    ensures
        resolved(Some(t), stored) == Ok::<Seq<char>, ConfigError>(t),
{
}

/// With no command-line token, the token of a successfully loaded stored
/// configuration is used.
pub proof fn lemma_stored_token_used(t: Seq<char>)
    ensures
        resolved(None, Ok(t)) == Ok::<Seq<char>, ConfigError>(t),
{
}

/// With no command-line token, a failure to load the stored configuration
/// fails resolution with that same error; in particular, a missing file fails
/// resolution with `FileMissing`.
pub proof fn lemma_stored_error_propagates(e: ConfigError)
    ensures
        resolved(None, Err(e)) == Err::<Seq<char>, ConfigError>(e),
{
}

} // verus!
