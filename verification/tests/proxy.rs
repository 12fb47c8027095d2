use browser_proxy::browser::{Acquire, Browser, HandleState};
use browser_proxy::config::{Config, ReverseProxyConfig};
use browser_proxy::error::{ConfigError, ProxyError};
use browser_proxy::proxy::{proxy_request, target_url, ReverseProxy};
use browser_proxy::session::{Action, Cookie, Event, TabSession};

/// A browser that is played by the test: it answers each action with the
/// event that `answers` gives for it.
fn play(mut session: TabSession, answers: &dyn Fn(Action) -> Event) -> Result<String, ProxyError> {
    while !session.is_finished() {
        let event = answers(session.pending());
        session.step(event);
    }
    session.outcome().unwrap()
}

fn obliging(action: Action) -> Event {
    match action {
        Action::ExtractContent => Event::Content("<html><body>Example</body></html>".to_string()),
        _ => Event::Done,
    }
}

fn never_loading(action: Action) -> Event {
    match action {
        Action::AwaitLoaded(_) => Event::TimedOut,
        other => obliging(other),
    }
}

/// Serves one request as the caller of the library does: handle first, then
/// the session.
fn serve(
    proxy: &mut ReverseProxy,
    path: &str,
    headers: Vec<(String, String)>,
    cookies: Vec<Cookie>,
    body: Option<String>,
    answers: &dyn Fn(Action) -> Event,
) -> Result<String, ProxyError> {
    if proxy.acquire() == Acquire::Launch {
        proxy.launch_finished(true)?;
    }
    let session = proxy.handle_request(path, headers, cookies, body)?;
    play(session, answers)
}

#[test]
fn test_reverse_proxy_initialization() {
    let config = ReverseProxyConfig {
        target_host: "example.onion".to_string(),
        target_port: 80,
        use_tor: true,
        tor_proxy: Some("127.0.0.1:9050".to_string()),
        request_timeout: Some(30),
        disable_images: true,
    };

    let reverse_proxy = ReverseProxy::new(config.clone(), true);
    assert!(reverse_proxy.is_ok(), "Reverse Proxy initialization failed!");
}

#[test]
fn test_handle_request_success() {
    let config = ReverseProxyConfig {
        target_host: "example.com".to_string(),
        target_port: 80,
        use_tor: false,
        tor_proxy: None,
        request_timeout: Some(30),
        disable_images: false,
    };

    let mut reverse_proxy = ReverseProxy::new(config, true).unwrap();

    let response = serve(
        &mut reverse_proxy,
        "/path",
        vec![("User-Agent".to_string(), "Caddy-Headless".to_string())],
        vec![],
        None,
        &obliging,
    );

    assert!(response.is_ok(), "Request failed: {:?}", response.err());
}

#[test]
fn test_request_timeout() {
    let config = ReverseProxyConfig {
        target_host: "example.onion".to_string(),
        target_port: 80,
        use_tor: true,
        tor_proxy: Some("127.0.0.1:9050".to_string()),
        request_timeout: Some(1),
        disable_images: true,
    };

    let mut reverse_proxy = ReverseProxy::new(config, true).unwrap();

    let response = serve(
        &mut reverse_proxy,
        "/path",
        vec![("User-Agent".to_string(), "Caddy-Headless".to_string())],
        vec![],
        None,
        &never_loading,
    );

    assert!(response.is_err(), "Request should have timed out!");
}

#[test]
fn test_set_cookies() {
    let config = ReverseProxyConfig {
        target_host: "example.com".to_string(),
        target_port: 80,
        use_tor: false,
        tor_proxy: None,
        request_timeout: Some(30),
        disable_images: false,
    };

    let mut reverse_proxy = ReverseProxy::new(config, true).unwrap();

    let cookie = Cookie::new("test_cookie".to_string(), "test_value".to_string());
    let response = serve(
        &mut reverse_proxy,
        "/path",
        vec![("User-Agent".to_string(), "Caddy-Headless".to_string())],
        vec![cookie],
        None,
        &obliging,
    );

    assert!(response.is_ok(), "Request with cookies failed: {:?}", response.err());
}

#[test]
fn a_plain_request_yields_the_document() {
    let config = ReverseProxyConfig {
        target_host: "example.com".to_string(),
        target_port: 80,
        use_tor: false,
        tor_proxy: None,
        request_timeout: Some(30),
        disable_images: false,
    };
    let mut proxy = ReverseProxy::new(config, true).unwrap();
    let response = serve(&mut proxy, "/path", vec![], vec![], None, &obliging);
    assert_eq!(response, Ok("<html><body>Example</body></html>".to_string()));
    assert!(!response.unwrap().is_empty());
}

#[test]
fn tor_without_an_endpoint_is_refused_at_startup() {
    let config = ReverseProxyConfig {
        target_host: "example.onion".to_string(),
        target_port: 80,
        use_tor: true,
        tor_proxy: None,
        request_timeout: Some(30),
        disable_images: true,
    };
    let refused = ProxyError::Configuration(ConfigError::MissingProxyEndpoint);
    assert_eq!(ReverseProxy::new(config.clone(), true).err(), Some(refused));
    assert_eq!(ReverseProxy::new(config, false).err(), Some(refused));
}

#[test]
fn an_endpoint_that_does_not_parse_is_refused_at_startup() {
    let config = ReverseProxyConfig {
        target_host: "example.onion".to_string(),
        target_port: 80,
        use_tor: true,
        tor_proxy: Some("localhost".to_string()),
        request_timeout: Some(30),
        disable_images: true,
    };
    assert_eq!(
        ReverseProxy::new(config, false).err(),
        Some(ProxyError::Configuration(ConfigError::InvalidProxyEndpoint))
    );
}

#[test]
fn a_slow_target_gives_a_timeout_and_no_success() {
    let config = ReverseProxyConfig {
        target_host: "example.com".to_string(),
        target_port: 80,
        use_tor: false,
        tor_proxy: None,
        request_timeout: Some(1),
        disable_images: false,
    };
    let mut proxy = ReverseProxy::new(config, true).unwrap();
    let response = serve(&mut proxy, "/path", vec![], vec![], None, &never_loading);
    assert_eq!(response, Err(ProxyError::Timeout));
}

#[test]
fn the_session_takes_timeout_and_filter_from_the_configuration() {
    let config = ReverseProxyConfig {
        target_host: "example.onion".to_string(),
        target_port: 8080,
        use_tor: true,
        tor_proxy: Some("127.0.0.1:9050".to_string()),
        request_timeout: Some(7),
        disable_images: true,
    };
    let mut proxy = ReverseProxy::new(config, true).unwrap();
    assert_eq!(proxy.acquire(), Acquire::Launch);
    assert_eq!(proxy.launch_finished(true), Ok(()));
    let session = proxy
        .handle_request(
            "/a/b?c=d",
            vec![("X".to_string(), "1".to_string()), ("X".to_string(), "2".to_string())],
            vec![Cookie::new("k".to_string(), "v".to_string())],
            Some("payload".to_string()),
        )
        .unwrap();
    assert_eq!(session.url(), "http://example.onion:8080/a/b?c=d");
    assert_eq!(session.timeout(), Some(7));
    assert!(session.blocks_images());
    assert_eq!(session.headers(), &vec![("X".to_string(), "2".to_string())]);
    assert_eq!(session.cookie(0).unwrap().name, "k");
    assert_eq!(session.body(), Some("payload"));
    assert_eq!(session.pending(), Action::OpenTab);
}

#[test]
fn the_proxy_plans_its_launch() {
    let config = ReverseProxyConfig {
        target_host: "example.onion".to_string(),
        target_port: 80,
        use_tor: true,
        tor_proxy: Some("127.0.0.1:9050".to_string()),
        request_timeout: None,
        disable_images: true,
    };
    let proxy = ReverseProxy::new(config, true).unwrap();
    let plan = proxy.browser().plan();
    assert!(plan.headless && !plan.gpu && !plan.sandbox);
    assert_eq!(
        plan.args,
        vec!["--mute-audio".to_string(), "--proxy-server=socks5://127.0.0.1:9050".to_string()]
    );
    assert_eq!(proxy.browser().state(), HandleState::Absent);
    assert_eq!(proxy.config().target_host, "example.onion");

    let config = ReverseProxyConfig {
        target_host: "example.com".to_string(),
        target_port: 80,
        use_tor: false,
        tor_proxy: Some("127.0.0.1:9050".to_string()),
        request_timeout: None,
        disable_images: true,
    };
    let proxy = ReverseProxy::new(config, true).unwrap();
    assert_eq!(proxy.browser().plan().args, vec!["--mute-audio".to_string()]);
}

#[test]
fn a_request_needs_a_live_handle() {
    let config = ReverseProxyConfig {
        target_host: "example.com".to_string(),
        target_port: 80,
        use_tor: false,
        tor_proxy: None,
        request_timeout: Some(30),
        disable_images: false,
    };
    let mut proxy = ReverseProxy::new(config, true).unwrap();
    let refused = proxy.handle_request("/path", vec![], vec![], None);
    assert_eq!(refused.err(), Some(ProxyError::HandleInitialization));
    assert_eq!(proxy.acquire(), Acquire::Launch);
    assert_eq!(proxy.launch_finished(false), Err(ProxyError::HandleInitialization));
    let refused = proxy.handle_request("/path", vec![], vec![], None);
    assert_eq!(refused.err(), Some(ProxyError::HandleInitialization));
    let response = serve(&mut proxy, "/path", vec![], vec![], None, &obliging);
    assert!(response.is_ok());
}

#[test]
fn many_requests_share_one_launch() {
    let config = ReverseProxyConfig {
        target_host: "example.com".to_string(),
        target_port: 80,
        use_tor: false,
        tor_proxy: None,
        request_timeout: Some(30),
        disable_images: false,
    };
    let mut proxy = ReverseProxy::new(config, true).unwrap();
    let mut launches = 0;
    for _ in 0..5 {
        if proxy.acquire() == Acquire::Launch {
            launches += 1;
            proxy.launch_finished(true).unwrap();
        }
        let session = proxy.handle_request("/path", vec![], vec![], None).unwrap();
        assert!(play(session, &obliging).is_ok());
    }
    assert_eq!(launches, 1);
}

#[test]
fn a_failed_request_leaves_the_handle_for_the_next() {
    let config = ReverseProxyConfig {
        target_host: "example.com".to_string(),
        target_port: 80,
        use_tor: false,
        tor_proxy: None,
        request_timeout: Some(30),
        disable_images: false,
    };
    let mut proxy = ReverseProxy::new(config, true).unwrap();
    let failing = |action: Action| match action {
        Action::Navigate => Event::Failed,
        other => obliging(other),
    };
    assert_eq!(
        serve(&mut proxy, "/path", vec![], vec![], None, &failing),
        Err(ProxyError::Navigation)
    );
    assert_eq!(proxy.browser().state(), HandleState::Live);
    assert!(serve(&mut proxy, "/path", vec![], vec![], None, &obliging).is_ok());
}

#[test]
fn the_address_is_origin_then_path() {
    assert_eq!(target_url("example.com", 80, "/path"), "http://example.com:80/path");
    assert_eq!(target_url("example.onion", 65535, ""), "http://example.onion:65535");
    assert_eq!(target_url("h", 0, "/a//b/../c?x=%20#f"), "http://h:0/a//b/../c?x=%20#f");
    assert_eq!(target_url("", 8080, "path"), "http://:8080path");
}

#[test]
fn a_flat_configuration_is_served_by_plain_navigation() {
    let config = Config {
        target_host: "example.com".to_string(),
        target_port: 8080,
        use_tor: false,
        tor_proxy: "127.0.0.1:9050".to_string(),
        request_timeout: 12,
        disable_images: true,
    };
    let mut browser = Browser::new(&config, true).unwrap();
    assert_eq!(
        proxy_request("/index.html", vec![], vec![], None, &config, &browser).err(),
        Some(ProxyError::HandleInitialization)
    );
    assert_eq!(browser.acquire(), Acquire::Launch);
    browser.launch_finished(true).unwrap();
    let session = proxy_request("/index.html", vec![], vec![], None, &config, &browser).unwrap();
    assert_eq!(session.url(), "http://example.com:8080/index.html");
    assert_eq!(session.timeout(), Some(12));
    assert!(session.headers().is_empty());
    assert!(session.cookie(0).is_none());
    assert_eq!(session.body(), None);
    assert!(session.blocks_images());
    assert_eq!(play(session, &obliging), Ok("<html><body>Example</body></html>".to_string()));
}

#[test]
fn a_flat_configuration_without_the_image_switch_installs_no_filter() {
    let config = Config {
        target_host: "example.com".to_string(),
        target_port: 8080,
        use_tor: false,
        tor_proxy: "127.0.0.1:9050".to_string(),
        request_timeout: 12,
        disable_images: false,
    };
    let mut browser = Browser::new(&config, true).unwrap();
    assert_eq!(browser.acquire(), Acquire::Launch);
    browser.launch_finished(true).unwrap();
    let mut session = proxy_request("/index.html", vec![], vec![], None, &config, &browser).unwrap();
    assert!(!session.blocks_images());
    assert_eq!(session.step(Event::Done), Action::SetHeaders);
}

#[test]
fn a_flat_configuration_with_the_image_switch_installs_the_filter_first() {
    let config = Config {
        target_host: "example.com".to_string(),
        target_port: 8080,
        use_tor: false,
        tor_proxy: "127.0.0.1:9050".to_string(),
        request_timeout: 12,
        disable_images: true,
    };
    let mut browser = Browser::new(&config, true).unwrap();
    assert_eq!(browser.acquire(), Acquire::Launch);
    browser.launch_finished(true).unwrap();
    let mut session = proxy_request("/index.html", vec![], vec![], None, &config, &browser).unwrap();
    assert_eq!(session.step(Event::Done), Action::BlockImages);
    assert_eq!(session.step(Event::Done), Action::SetHeaders);
    assert_eq!(session.step(Event::Done), Action::Navigate);
}

#[test]
fn the_proxy_hands_its_image_policy_to_its_handle() {
    let config = ReverseProxyConfig {
        target_host: "example.com".to_string(),
        target_port: 80,
        use_tor: false,
        tor_proxy: None,
        request_timeout: None,
        disable_images: true,
    };
    let proxy = ReverseProxy::new(config, true).unwrap();
    assert!(proxy.browser().blocks_images());
}

#[test]
fn tor_with_an_empty_endpoint_is_refused_at_startup() {
    let config = ReverseProxyConfig {
        target_host: "example.onion".to_string(),
        target_port: 80,
        use_tor: true,
        tor_proxy: Some(String::new()),
        request_timeout: Some(30),
        disable_images: true,
    };
    assert_eq!(
        ReverseProxy::new(config, true).err(),
        Some(ProxyError::Configuration(ConfigError::MissingProxyEndpoint))
    );
}

#[test]
fn a_flat_configuration_passes_headers_cookies_and_body_on() {
    let config = Config {
        target_host: "example.com".to_string(),
        target_port: 80,
        use_tor: false,
        tor_proxy: "127.0.0.1:9050".to_string(),
        request_timeout: 5,
        disable_images: false,
    };
    let mut browser = Browser::new(&config, true).unwrap();
    assert_eq!(browser.acquire(), Acquire::Launch);
    browser.launch_finished(true).unwrap();
    let mut session = proxy_request(
        "/form",
        vec![
            ("Accept".to_string(), "text/plain".to_string()),
            ("Accept".to_string(), "text/html".to_string()),
        ],
        vec![Cookie::new("session_id".to_string(), "abc123".to_string())],
        Some("a=1".to_string()),
        &config,
        &browser,
    )
    .unwrap();
    assert_eq!(session.url(), "http://example.com:80/form");
    assert_eq!(session.headers(), &vec![("Accept".to_string(), "text/html".to_string())]);
    assert_eq!(session.cookie(0).unwrap().value, "abc123");
    assert_eq!(session.body(), Some("a=1"));
    assert_eq!(session.timeout(), Some(5));
    assert_eq!(session.step(Event::Done), Action::SetCookie(0));
    assert_eq!(session.step(Event::Done), Action::SetHeaders);
    assert_eq!(session.step(Event::Done), Action::NavigateWithBody);
}
