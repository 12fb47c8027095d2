//! Configuration records and the rules that admit them.

use crate::decimal::{parse_decimal, parse_spec};
use crate::error::ConfigError;
use vstd::prelude::*;
use vstd::string::*;

verus! {

/// The flat configuration record, as a file or the environment gives it.
#[derive(Debug, Clone)]
pub struct Config {
    pub target_host: String,
    pub target_port: u16,
    pub use_tor: bool,
    pub tor_proxy: String,
    pub request_timeout: u64,
    pub disable_images: bool,
}

/// A flat configuration record as plain values.
pub struct ConfigModel {
    pub target_host: Seq<char>,
    pub target_port: u16,
    pub use_tor: bool,
    pub tor_proxy: Seq<char>,
    pub request_timeout: u64,
    pub disable_images: bool,
}

impl View for Config {
    type V = ConfigModel;

    open spec fn view(&self) -> ConfigModel {
        ConfigModel {
            target_host: self.target_host@,
            target_port: self.target_port,
            use_tor: self.use_tor,
            tor_proxy: self.tor_proxy@,
            request_timeout: self.request_timeout,
            disable_images: self.disable_images,
        }
    }
}

/// The session configuration: read by every request, never changed.
#[derive(Debug, Clone)]
pub struct ReverseProxyConfig {
    pub target_host: String,
    pub target_port: u16,
    pub use_tor: bool,
    /// The SOCKS endpoint that the browser routes its traffic through.
    pub tor_proxy: Option<String>,
    /// Seconds to wait for a page to load; `None` waits without limit.
    pub request_timeout: Option<u64>,
    pub disable_images: bool,
}

/// A session configuration as plain values.
pub struct SessionConfigModel {
    pub target_host: Seq<char>,
    pub target_port: u16,
    pub use_tor: bool,
    pub tor_proxy: Option<Seq<char>>,
    pub request_timeout: Option<u64>,
    pub disable_images: bool,
}

impl View for ReverseProxyConfig {
    type V = SessionConfigModel;

    open spec fn view(&self) -> SessionConfigModel {
        SessionConfigModel {
            target_host: self.target_host@,
            target_port: self.target_port,
            use_tor: self.use_tor,
            tor_proxy: self.tor_proxy.deep_view(),
            request_timeout: self.request_timeout,
            disable_images: self.disable_images,
        }
    }
}

/// The greatest port number.
pub const MAX_PORT: u64 = 65535;

/// The timeout, in seconds, where the environment names none that can be read.
pub const DEFAULT_TIMEOUT: u64 = 30;

/// The proxy endpoint where the environment names none.
pub open spec fn default_endpoint() -> Seq<char> {
    "127.0.0.1:9050"@
}

/// What a switch in the environment means: on exactly when it reads `true`.
pub open spec fn switch_value(text: Option<Seq<char>>, default: bool) -> bool {
    match text {
        Some(t) => t == "true"@,
        None => default,
    }
}

/// The timeout that the environment asks for: the number it names, or the
/// default where it names none or what it names is no number.
pub open spec fn timeout_value(text: Option<Seq<char>>) -> u64 {
    match text {
        Some(t) => match parse_spec(t, u64::MAX as nat) {
            Some(n) => n as u64,
            None => DEFAULT_TIMEOUT,
        },
        None => DEFAULT_TIMEOUT,
    }
}

/// The proxy endpoint that the environment asks for: the one it names, or
/// the default where it names none.
pub open spec fn endpoint_value(text: Option<Seq<char>>) -> Seq<char> {
    match text {
        Some(t) => t,
        None => default_endpoint(),
    }
}

/// Whether the environment names a proxy endpoint: the variable is set and
/// is not empty.
pub open spec fn names_endpoint(text: Option<Seq<char>>) -> bool {
    match text {
        Some(t) => t.len() > 0,
        None => false,
    }
}

/// The configuration that the environment gives, each argument being the
/// value of one variable, `None` where it is not set.
///
/// The host is required and must not be empty. The port is required and
/// must be a number from 1 to 65535. Where the proxy is switched on, the
/// endpoint is required; where it is off, an endpoint that is not named is
/// the default one. Timeout and switches fall back to their defaults. The
/// first of these that fails, in this order, is the error.
pub open spec fn env_config(
    target_host: Option<Seq<char>>,
    target_port: Option<Seq<char>>,
    use_tor: Option<Seq<char>>,
    tor_proxy: Option<Seq<char>>,
    request_timeout: Option<Seq<char>>,
    disable_images: Option<Seq<char>>,
) -> Result<ConfigModel, ConfigError> {
    match target_host {
        None => Err(ConfigError::MissingTargetHost),
        Some(host) => if host.len() == 0 {
            Err(ConfigError::MissingTargetHost)
        } else {
            match target_port {
                None => Err(ConfigError::MissingTargetPort),
                Some(port_text) => match parse_spec(port_text, MAX_PORT as nat) {
                    None => Err(ConfigError::InvalidTargetPort),
                    Some(port) => if port == 0 {
                        Err(ConfigError::InvalidTargetPort)
                    } else if switch_value(use_tor, false) && !names_endpoint(tor_proxy) {
                        Err(ConfigError::MissingProxyEndpoint)
                    } else {
                        Ok(
                            ConfigModel {
                                target_host: host,
                                target_port: port as u16,
                                use_tor: switch_value(use_tor, false),
                                tor_proxy: endpoint_value(tor_proxy),
                                request_timeout: timeout_value(request_timeout),
                                disable_images: switch_value(disable_images, true),
                            },
                        )
                    },
                },
            }
        },
    }
}

/// Reads a switch: on exactly when the text is `true`.
fn read_switch(text: &Option<String>, default: bool) -> (on: bool)
    ensures
        on == switch_value(text.deep_view(), default),
{
    match text {
        Some(t) => {
            let yes: String = String::from_str("true");
            *t == yes
        },
        None => default,
    }
}

/// Whether `text` is there and is not empty.
fn has_text(text: &Option<String>) -> (named: bool)
    ensures
        named == names_endpoint(text.deep_view()),
{
    match text {
        Some(t) => !t.as_str().is_empty(),
        None => false,
    }
}

impl ConfigModel {
    /// Why this configuration is refused, if it is: the first of an empty
    /// host, port zero, a proxy that is switched on with an empty endpoint,
    /// and an endpoint that is needed and is no socket address.
    pub open spec fn refusal(self, endpoint_parses: bool) -> Option<ConfigError> {
        if self.target_host.len() == 0 {
            Some(ConfigError::MissingTargetHost)
        } else if self.target_port == 0 {
            Some(ConfigError::InvalidTargetPort)
        } else if self.use_tor && self.tor_proxy.len() == 0 {
            Some(ConfigError::MissingProxyEndpoint)
        } else if self.use_tor && !endpoint_parses {
            Some(ConfigError::InvalidProxyEndpoint)
        } else {
            None
        }
    }

    /// The proxy endpoint that this configuration routes through, if any.
    pub open spec fn proxy(self) -> Option<Seq<char>> {
        if self.use_tor {
            Some(self.tor_proxy)
        } else {
            None
        }
    }
}

impl SessionConfigModel {
    /// Why this configuration is refused, if it is: the first of an empty
    /// host, port zero, anonymized transport without an endpoint or with an
    /// empty one, and an endpoint that is no socket address.
    pub open spec fn refusal(self, endpoint_parses: bool) -> Option<ConfigError> {
        if self.target_host.len() == 0 {
            Some(ConfigError::MissingTargetHost)
        } else if self.target_port == 0 {
            Some(ConfigError::InvalidTargetPort)
        } else if self.use_tor && !names_endpoint(self.tor_proxy) {
            Some(ConfigError::MissingProxyEndpoint)
        } else if self.use_tor && !endpoint_parses {
            Some(ConfigError::InvalidProxyEndpoint)
        } else {
            None
        }
    }

    /// The proxy endpoint that this configuration routes through, if any.
    pub open spec fn proxy(self) -> Option<Seq<char>> {
        if self.use_tor {
            self.tor_proxy
        } else {
            None
        }
    }
}

impl Config {
    /// Builds the configuration from the values of the six environment
    /// variables, each `None` where the variable is not set. What is
    /// required and what falls back to a default is said by `env_config`.
    pub fn from_env(
        target_host: Option<String>,
        target_port: Option<String>,
        use_tor: Option<String>,
        tor_proxy: Option<String>,
        request_timeout: Option<String>,
        disable_images: Option<String>,
    ) -> (r: Result<Config, ConfigError>)
        ensures
            match env_config(
                target_host.deep_view(),
                target_port.deep_view(),
                use_tor.deep_view(),
                tor_proxy.deep_view(),
                request_timeout.deep_view(),
                disable_images.deep_view(),
            ) {
                Ok(model) => r matches Ok(config) && config@ == model,
                Err(e) => r == Err::<Config, ConfigError>(e),
            },
    {
        let host: String = match target_host {
            Some(h) => h,
            None => { return Err(ConfigError::MissingTargetHost); },
        };
        if host.as_str().is_empty() {
            return Err(ConfigError::MissingTargetHost);
        }
        let port_text: String = match target_port {
            Some(p) => p,
            None => { return Err(ConfigError::MissingTargetPort); },
        };
        let port: u16 = match parse_decimal(port_text.as_str(), MAX_PORT) {
            Some(n) => n as u16,
            None => { return Err(ConfigError::InvalidTargetPort); },
        };
        if port == 0 {
            return Err(ConfigError::InvalidTargetPort);
        }
        let tor: bool = read_switch(&use_tor, false);
        let images: bool = read_switch(&disable_images, true);
        let endpoint: String = match tor_proxy {
            Some(t) => {
                if tor && t.as_str().is_empty() {
                    return Err(ConfigError::MissingProxyEndpoint);
                }
                t
            },
            None => {
                if tor {
                    return Err(ConfigError::MissingProxyEndpoint);
                }
                String::from_str("127.0.0.1:9050")
            },
        };
        let timeout: u64 = match request_timeout {
            Some(t) => match parse_decimal(t.as_str(), u64::MAX) {
                Some(n) => n,
                None => DEFAULT_TIMEOUT,
            },
            None => DEFAULT_TIMEOUT,
        };
        Ok(
            Config {
                target_host: host,
                target_port: port,
                use_tor: tor,
                tor_proxy: endpoint,
                request_timeout: timeout,
                disable_images: images,
            },
        )
    }

    /// Admits or refuses this configuration. `endpoint_parses` tells whether
    /// `tor_proxy` reads as a socket address.
    pub fn validate(&self, endpoint_parses: bool) -> (r: Result<(), ConfigError>)
        ensures
            match self@.refusal(endpoint_parses) {
                Some(e) => r == Err::<(), ConfigError>(e),
                None => r.is_ok(),
            },
    {
        if self.target_host.as_str().is_empty() {
            Err(ConfigError::MissingTargetHost)
        } else if self.target_port == 0 {
            Err(ConfigError::InvalidTargetPort)
        } else if self.use_tor && self.tor_proxy.as_str().is_empty() {
            Err(ConfigError::MissingProxyEndpoint)
        } else if self.use_tor && !endpoint_parses {
            Err(ConfigError::InvalidProxyEndpoint)
        } else {
            Ok(())
        }
    }
}

impl ReverseProxyConfig {
    /// Admits or refuses this configuration. `endpoint_parses` tells whether
    /// `tor_proxy`, where present, reads as a socket address.
    pub fn validate(&self, endpoint_parses: bool) -> (r: Result<(), ConfigError>)
        ensures
            match self@.refusal(endpoint_parses) {
                Some(e) => r == Err::<(), ConfigError>(e),
                None => r.is_ok(),
            },
    {
        if self.target_host.as_str().is_empty() {
            Err(ConfigError::MissingTargetHost)
        } else if self.target_port == 0 {
            Err(ConfigError::InvalidTargetPort)
        } else if self.use_tor && !has_text(&self.tor_proxy) {
            Err(ConfigError::MissingProxyEndpoint)
        } else if self.use_tor && !endpoint_parses {
            Err(ConfigError::InvalidProxyEndpoint)
        } else {
            Ok(())
        }
    }
}

/// What the environment yields is admitted: a configuration that
/// `from_env` builds is refused by `validate` only if its proxy is switched
/// on and its endpoint is no socket address.
pub proof fn law_env_config_is_admitted(
    target_host: Option<Seq<char>>,
    target_port: Option<Seq<char>>,
    use_tor: Option<Seq<char>>,
    tor_proxy: Option<Seq<char>>,
    request_timeout: Option<Seq<char>>,
    disable_images: Option<Seq<char>>,
)
    ensures
        env_config(
            target_host,
            target_port,
            use_tor,
            tor_proxy,
            request_timeout,
            disable_images,
        ) matches Ok(model) ==> model.refusal(true).is_none() && (!model.use_tor
            ==> model.refusal(false).is_none()),
{
}

} // verus!
