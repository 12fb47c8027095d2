//! The closed classification of everything that can go wrong.

use vstd::prelude::*;
use vstd::string::*;

verus! {

/// Why a configuration is refused before any request is served.
#[derive(Clone, Copy, Debug, PartialEq, Eq, Structural)]
pub enum ConfigError {
    /// No target host was given, or it is empty.
    MissingTargetHost,
    /// No target port was given.
    MissingTargetPort,
    /// The target port is not a number from 1 to 65535.
    InvalidTargetPort,
    /// Anonymized transport is requested and no proxy endpoint is given.
    MissingProxyEndpoint,
    /// The proxy endpoint is not a socket address.
    InvalidProxyEndpoint,
}

/// Why a request did not yield a document.
#[derive(Clone, Copy, Debug, PartialEq, Eq, Structural)]
pub enum ProxyError {
    /// The configuration is refused.
    Configuration(ConfigError),
    /// The browser process could not be started.
    HandleInitialization,
    /// The browser refused a new tab, or could not be reached.
    TabCreation,
    /// The image filter could not be installed.
    Interception,
    /// A cookie could not be applied.
    CookieInjection,
    /// The extra headers could not be applied.
    HeaderInjection,
    /// The navigation itself failed.
    Navigation,
    /// The page did not finish loading in time.
    Timeout,
    /// The rendered document could not be read.
    ContentExtraction,
}

impl ConfigError {
    /// The text that describes this error.
    pub open spec fn message_spec(self) -> Seq<char> {
        match self {
            ConfigError::MissingTargetHost => "target host is missing"@,
            ConfigError::MissingTargetPort => "target port is missing"@,
            ConfigError::InvalidTargetPort => "target port is not a number from 1 to 65535"@,
            ConfigError::MissingProxyEndpoint => "proxy endpoint is missing"@,
            ConfigError::InvalidProxyEndpoint => "proxy endpoint is not a socket address"@,
        }
    }

    /// Describes this error in words.
    pub fn message(&self) -> (text: String)
        ensures
            text@ == self.message_spec(),
    {
        match self {
            ConfigError::MissingTargetHost => String::from_str("target host is missing"),
            ConfigError::MissingTargetPort => String::from_str("target port is missing"),
            ConfigError::InvalidTargetPort => String::from_str(
                "target port is not a number from 1 to 65535",
            ),
            ConfigError::MissingProxyEndpoint => String::from_str("proxy endpoint is missing"),
            ConfigError::InvalidProxyEndpoint => String::from_str(
                "proxy endpoint is not a socket address",
            ),
        }
    }
}

impl ProxyError {
    /// The text that describes this error.
    pub open spec fn message_spec(self) -> Seq<char> {
        match self {
            ProxyError::Configuration(e) => "configuration error: "@ + e.message_spec(),
            ProxyError::HandleInitialization => "browser could not be launched"@,
            ProxyError::TabCreation => "tab could not be created"@,
            ProxyError::Interception => "image filter could not be installed"@,
            ProxyError::CookieInjection => "cookie could not be applied"@,
            ProxyError::HeaderInjection => "headers could not be applied"@,
            ProxyError::Navigation => "navigation failed"@,
            ProxyError::Timeout => "navigation timed out"@,
            ProxyError::ContentExtraction => "content could not be extracted"@,
        }
    }

    /// Describes this error in words.
    pub fn message(&self) -> (text: String)
        ensures
            text@ == self.message_spec(),
    {
        match self {
            ProxyError::Configuration(e) => {
                let mut text: String = String::from_str("configuration error: ");
                let detail: String = e.message();
                text.append(detail.as_str());
                text
            },
            ProxyError::HandleInitialization => String::from_str("browser could not be launched"),
            ProxyError::TabCreation => String::from_str("tab could not be created"),
            ProxyError::Interception => String::from_str("image filter could not be installed"),
            ProxyError::CookieInjection => String::from_str("cookie could not be applied"),
            ProxyError::HeaderInjection => String::from_str("headers could not be applied"),
            ProxyError::Navigation => String::from_str("navigation failed"),
            ProxyError::Timeout => String::from_str("navigation timed out"),
            ProxyError::ContentExtraction => String::from_str("content could not be extracted"),
        }
    }
}

/// How a request ended, as plain values: the document or the error.
pub open spec fn outcome_view(outcome: Result<String, ProxyError>) -> Result<
    Seq<char>,
    ProxyError,
> {
    match outcome {
        Ok(document) => Ok(document@),
        Err(error) => Err(error),
    }
}

/// The line that reports `e` in a log.
pub open spec fn log_line(e: ProxyError) -> Seq<char> {
    "Error occurred: "@ + e.message_spec()
}

/// Composes the log line for `e`; writing it out is the caller's business.
pub fn log_error(e: &ProxyError) -> (line: String)
    ensures
        line@ == log_line(*e),
{
    let mut line: String = String::from_str("Error occurred: ");
    let detail: String = e.message();
    line.append(detail.as_str());
    line
}

} // verus!
