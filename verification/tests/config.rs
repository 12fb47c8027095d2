use browser_proxy::config::{Config, ReverseProxyConfig};
use browser_proxy::error::ConfigError;

fn text(s: &str) -> Option<String> {
    Some(s.to_string())
}

fn session_config() -> ReverseProxyConfig {
    ReverseProxyConfig {
        target_host: "example.com".to_string(),
        target_port: 80,
        use_tor: false,
        tor_proxy: None,
        request_timeout: Some(30),
        disable_images: false,
    }
}

#[test]
fn from_env_takes_every_variable() {
    let config = Config::from_env(
        text("example.onion"),
        text("8080"),
        text("true"),
        text("10.0.0.1:9150"),
        text("5"),
        text("false"),
    )
    .unwrap();
    assert_eq!(config.target_host, "example.onion");
    assert_eq!(config.target_port, 8080);
    assert!(config.use_tor);
    assert_eq!(config.tor_proxy, "10.0.0.1:9150");
    assert_eq!(config.request_timeout, 5);
    assert!(!config.disable_images);
}

#[test]
fn from_env_falls_back_to_defaults() {
    let config = Config::from_env(text("example.com"), text("80"), None, None, None, None).unwrap();
    assert_eq!(config.target_host, "example.com");
    assert_eq!(config.target_port, 80);
    assert!(!config.use_tor);
    assert_eq!(config.tor_proxy, "127.0.0.1:9050");
    assert_eq!(config.request_timeout, 30);
    assert!(config.disable_images);
}

#[test]
fn from_env_reads_switches_strictly() {
    let config = Config::from_env(
        text("example.com"),
        text("80"),
        text("TRUE"),
        None,
        None,
        text("yes"),
    )
    .unwrap();
    assert!(!config.use_tor);
    assert!(!config.disable_images);
    let config =
        Config::from_env(text("example.com"), text("80"), text("1"), None, None, text("true"))
            .unwrap();
    assert!(!config.use_tor);
    assert!(config.disable_images);
}

#[test]
fn from_env_takes_the_default_timeout_for_what_is_no_number() {
    for bad in ["", "soon", "-1", "1.5", "18446744073709551616"] {
        let config =
            Config::from_env(text("example.com"), text("80"), None, None, text(bad), None).unwrap();
        assert_eq!(config.request_timeout, 30);
    }
    let config = Config::from_env(text("example.com"), text("80"), None, None, text("0"), None)
        .unwrap();
    assert_eq!(config.request_timeout, 0);
}

#[test]
fn from_env_requires_the_host() {
    let r = Config::from_env(None, text("80"), None, None, None, None);
    assert_eq!(r.err(), Some(ConfigError::MissingTargetHost));
    let r = Config::from_env(None, None, None, None, None, None);
    assert_eq!(r.err(), Some(ConfigError::MissingTargetHost));
}

#[test]
fn from_env_requires_the_port() {
    let r = Config::from_env(text("example.com"), None, None, None, None, None);
    assert_eq!(r.err(), Some(ConfigError::MissingTargetPort));
}

#[test]
fn from_env_refuses_a_port_that_is_no_port() {
    for bad in ["", "http", "65536", "-80", "80 ", "8 0"] {
        let r = Config::from_env(text("example.com"), text(bad), None, None, None, None);
        assert_eq!(r.err(), Some(ConfigError::InvalidTargetPort));
    }
    let r = Config::from_env(text("example.com"), text("65535"), None, None, None, None);
    assert_eq!(r.unwrap().target_port, 65535);
}

#[test]
fn validate_admits_a_plain_configuration() {
    assert_eq!(session_config().validate(true), Ok(()));
    assert_eq!(session_config().validate(false), Ok(()));
}

#[test]
fn validate_refuses_an_empty_host() {
    let mut config = session_config();
    config.target_host = String::new();
    assert_eq!(config.validate(true), Err(ConfigError::MissingTargetHost));
}

#[test]
fn validate_refuses_port_zero() {
    let mut config = session_config();
    config.target_port = 0;
    assert_eq!(config.validate(true), Err(ConfigError::InvalidTargetPort));
    config.target_port = 1;
    assert_eq!(config.validate(true), Ok(()));
    config.target_port = 65535;
    assert_eq!(config.validate(true), Ok(()));
}

#[test]
fn validate_refuses_tor_without_an_endpoint() {
    let mut config = session_config();
    config.use_tor = true;
    assert_eq!(config.validate(true), Err(ConfigError::MissingProxyEndpoint));
    assert_eq!(config.validate(false), Err(ConfigError::MissingProxyEndpoint));
}

#[test]
fn validate_refuses_an_endpoint_that_does_not_parse() {
    let mut config = session_config();
    config.use_tor = true;
    config.tor_proxy = Some("not an address".to_string());
    assert_eq!(config.validate(false), Err(ConfigError::InvalidProxyEndpoint));
    config.tor_proxy = Some("127.0.0.1:9050".to_string());
    assert_eq!(config.validate(true), Ok(()));
}

#[test]
fn validate_ignores_the_endpoint_without_tor() {
    let mut config = session_config();
    config.tor_proxy = Some("not an address".to_string());
    assert_eq!(config.validate(false), Ok(()));
}

#[test]
fn validate_reports_the_first_fault() {
    let config = ReverseProxyConfig {
        target_host: String::new(),
        target_port: 0,
        use_tor: true,
        tor_proxy: None,
        request_timeout: None,
        disable_images: true,
    };
    assert_eq!(config.validate(false), Err(ConfigError::MissingTargetHost));
}

#[test]
fn flat_configuration_is_validated_alike() {
    let mut config = Config {
        target_host: "example.com".to_string(),
        target_port: 80,
        use_tor: true,
        tor_proxy: "127.0.0.1:9050".to_string(),
        request_timeout: 30,
        disable_images: true,
    };
    assert_eq!(config.validate(true), Ok(()));
    assert_eq!(config.validate(false), Err(ConfigError::InvalidProxyEndpoint));
    config.use_tor = false;
    assert_eq!(config.validate(false), Ok(()));
    config.target_port = 0;
    assert_eq!(config.validate(true), Err(ConfigError::InvalidTargetPort));
    config.target_host = String::new();
    assert_eq!(config.validate(true), Err(ConfigError::MissingTargetHost));
}

#[test]
fn from_env_refuses_tor_without_an_endpoint() {
    let r = Config::from_env(text("example.com"), text("80"), text("true"), None, None, None);
    assert_eq!(r.err(), Some(ConfigError::MissingProxyEndpoint));
    let r = Config::from_env(text("example.com"), text("80"), text("true"), text(""), None, None);
    assert_eq!(r.err(), Some(ConfigError::MissingProxyEndpoint));
}

#[test]
fn from_env_keeps_the_default_endpoint_while_tor_is_off() {
    let config =
        Config::from_env(text("example.com"), text("80"), text("false"), None, None, None).unwrap();
    assert!(!config.use_tor);
    assert_eq!(config.tor_proxy, "127.0.0.1:9050");
    let config =
        Config::from_env(text("example.com"), text("80"), None, text(""), None, None).unwrap();
    assert_eq!(config.tor_proxy, "");
}

#[test]
fn from_env_refuses_port_zero() {
    for zero in ["0", "00", "+0"] {
        let r = Config::from_env(text("example.com"), text(zero), None, None, None, None);
        assert_eq!(r.err(), Some(ConfigError::InvalidTargetPort));
    }
    let r = Config::from_env(text("example.com"), text("1"), None, None, None, None);
    assert_eq!(r.unwrap().target_port, 1);
}

#[test]
fn from_env_refuses_an_empty_host() {
    let r = Config::from_env(text(""), text("80"), None, None, None, None);
    assert_eq!(r.err(), Some(ConfigError::MissingTargetHost));
}

#[test]
fn from_env_reports_the_first_fault() {
    let r = Config::from_env(text(""), text("0"), text("true"), None, None, None);
    assert_eq!(r.err(), Some(ConfigError::MissingTargetHost));
    let r = Config::from_env(text("h"), text("0"), text("true"), None, None, None);
    assert_eq!(r.err(), Some(ConfigError::InvalidTargetPort));
    let r = Config::from_env(text("h"), None, text("true"), None, None, None);
    assert_eq!(r.err(), Some(ConfigError::MissingTargetPort));
}

#[test]
fn what_from_env_yields_is_admitted() {
    let config = Config::from_env(
        text("example.onion"),
        text("8080"),
        text("true"),
        text("127.0.0.1:9050"),
        None,
        None,
    )
    .unwrap();
    assert_eq!(config.validate(true), Ok(()));
    let config = Config::from_env(text("example.com"), text("80"), None, None, None, None).unwrap();
    assert_eq!(config.validate(true), Ok(()));
    assert_eq!(config.validate(false), Ok(()));
}

#[test]
fn a_flat_configuration_with_tor_and_an_empty_endpoint_is_refused() {
    let config = Config {
        target_host: "example.com".to_string(),
        target_port: 80,
        use_tor: true,
        tor_proxy: String::new(),
        request_timeout: 30,
        disable_images: true,
    };
    assert_eq!(config.validate(true), Err(ConfigError::MissingProxyEndpoint));
    assert_eq!(config.validate(false), Err(ConfigError::MissingProxyEndpoint));
}

#[test]
fn a_session_configuration_with_tor_and_an_empty_endpoint_is_refused() {
    let mut config = session_config();
    config.use_tor = true;
    config.tor_proxy = Some(String::new());
    assert_eq!(config.validate(true), Err(ConfigError::MissingProxyEndpoint));
}
