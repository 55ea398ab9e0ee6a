//! The configuration as it is read, and as it is once it has been checked.

use crate::address::{url_parse, Address};
use crate::output::OutputFormat;
use crate::text::starts_with;
use vstd::prelude::*;
use vstd::string::*;

verus! {

/// The page size of a configuration that names none.
pub fn default_page_size() -> (n: u32)
    ensures
        n == 100,
{
    100
}

/// The timeout, in seconds, of a configuration that names none.
pub fn default_timeout() -> (seconds: u64)
    ensures
        seconds == 30,
{
    30
}

/// A configuration as read: nothing in it has been checked.
#[derive(Clone)]
pub struct RawConfig {
    /// The server URL; empty where none is configured.
    pub url: String,
    /// The API token; empty where none is configured.
    pub token: String,
    /// How output is written.
    pub output_format: OutputFormat,
    /// The number of items to request per page.
    pub page_size: u32,
    /// The request timeout in seconds.
    pub timeout: u64,
}

/// A configuration that a client can be built from.
#[derive(Clone)]
pub struct ValidConfig {
    /// The server's address.
    pub url: Address,
    /// The API token, not empty.
    pub token: String,
    /// How output is written.
    pub output_format: OutputFormat,
    /// The number of items to request per page.
    pub page_size: u32,
    /// The request timeout in seconds.
    pub timeout: u64,
}

/// Why a configuration cannot be used.
#[derive(Debug, Clone, PartialEq, Eq)]
pub enum ConfigError {
    /// No server URL is configured.
    MissingUrl,
    /// No API token is configured.
    MissingToken,
    /// The server URL cannot be parsed.
    InvalidUrl {
        /// The URL as configured.
        url: String,
        /// What the parser objected to.
        detail: String,
    },
}

/// What checking a configuration comes to.
pub enum Validity {
    /// The configuration is usable.
    Valid,
    /// No server URL is configured.
    MissingUrl,
    /// A server URL is configured, but no API token.
    MissingToken,
    /// Both are configured, and the URL does not parse.
    InvalidUrl,
}

/// The check of a configuration: the URL is asked for first, then the
/// token, and then the URL must parse.
pub open spec fn validity(url: Seq<char>, token: Seq<char>) -> Validity {
    if url.len() == 0 {
        Validity::MissingUrl
    } else if token.len() == 0 {
        Validity::MissingToken
    } else if url_parse(url) is None {
        Validity::InvalidUrl
    } else {
        Validity::Valid
    }
}

/// Whether a configured URL asks for plain HTTP.
pub open spec fn insecure(url: Seq<char>) -> bool {
    "http://"@.is_prefix_of(url)
}

/// The message of a configuration error.
pub open spec fn config_message(error: ConfigError) -> Seq<char> {
    match error {
        ConfigError::MissingUrl =>
            "server URL not configured. Run `pngx auth login` or set --url"@,
        ConfigError::MissingToken =>
            "API token not configured. Run `pngx auth login` or set --token"@,
        ConfigError::InvalidUrl { url, detail } => "invalid server URL '"@ + url@ + "': "@
            + detail@,
    }
}

impl Default for RawConfig {
    fn default() -> (config: RawConfig)
        ensures
            config.url@.len() == 0,
            config.token@.len() == 0,
            config.output_format == OutputFormat::Markdown,
            config.page_size == 100,
            config.timeout == 30,
    {
        RawConfig {
            url: String::new(),
            token: String::new(),
            output_format: OutputFormat::Markdown,
            page_size: default_page_size(),
            timeout: default_timeout(),
        }
    }
}

impl RawConfig {
    /// Whether this configuration talks to its server over plain HTTP.
    pub fn is_insecure(&self) -> (r: bool)
        ensures
            r == insecure(self.url@),
    {
        starts_with(self.url.as_str(), "http://")
    }

    /// Checks the configuration. A missing URL is reported before a missing
    /// token, and both before a URL that does not parse; what is returned
    /// otherwise holds the parsed URL and everything else unchanged.
    pub fn validate(self) -> (r: Result<ValidConfig, ConfigError>)
        ensures
            match validity(self.url@, self.token@) {
                Validity::Valid => r matches Ok(config) && url_parse(self.url@) == Some(
                    config.url@,
                ) && config.token@ == self.token@ && config.output_format
                    == self.output_format && config.page_size == self.page_size
                    && config.timeout == self.timeout,
                Validity::MissingUrl => r matches Err(ConfigError::MissingUrl),
                Validity::MissingToken => r matches Err(ConfigError::MissingToken),
                Validity::InvalidUrl => r matches Err(ConfigError::InvalidUrl { url, detail })
                    && url@ == self.url@,
            },
    {
        if self.url.as_str().is_empty() {
            return Err(ConfigError::MissingUrl);
        }
        if self.token.as_str().is_empty() {
            return Err(ConfigError::MissingToken);
        }
        match Address::try_parse(self.url.as_str()) {
            Ok(url) => Ok(
                ValidConfig {
                    url,
                    token: self.token,
                    output_format: self.output_format,
                    page_size: self.page_size,
                    timeout: self.timeout,
                },
            ),
            Err(detail) => Err(ConfigError::InvalidUrl { url: self.url, detail }),
        }
    }
}

impl ConfigError {
    /// The message of this error.
    pub fn message(&self) -> (text: String)
        ensures
            text@ == config_message(*self),
    {
        match self {
            ConfigError::MissingUrl => String::from_str(
                "server URL not configured. Run `pngx auth login` or set --url",
            ),
            ConfigError::MissingToken => String::from_str(
                "API token not configured. Run `pngx auth login` or set --token",
            ),
            ConfigError::InvalidUrl { url, detail } => String::from_str(
                "invalid server URL '",
            ).concat(url.as_str()).concat("': ").concat(detail.as_str()),
        }
    }
}

} // verus!
