//! From an inbound request to the tab session that serves it.

use crate::browser::{Acquire, Browser, BrowserModel, HandleState, after_acquire, after_launch, answer};
use crate::config::{Config, ReverseProxyConfig, SessionConfigModel};
use crate::decimal::{decimal_digits, render_decimal};
use crate::error::ProxyError;
use crate::launch::{launch_model, launch_plan};
use crate::session::{consistent, fresh, Cookie, TabSession};
use vstd::prelude::*;
use vstd::string::*;

verus! {

/// The address of `path` at the origin `host`:`port`. The path is taken as
/// it is.
pub open spec fn target_url_spec(host: Seq<char>, port: u16, path: Seq<char>) -> Seq<char> {
    "http://"@ + host + ":"@ + decimal_digits(port as nat) + path
}

/// Builds the address of `path` at the origin `host`:`port`.
pub fn target_url(host: &str, port: u16, path: &str) -> (url: String)
    ensures
        url@ == target_url_spec(host@, port, path@),
{
    let mut url: String = String::from_str("http://");
    url.append(host);
    url.append(":");
    let digits: String = render_decimal(port as u64);
    url.append(digits.as_str());
    url.append(path);
    url
}

/// A reverse proxy as plain values.
pub struct ProxyModel {
    pub config: SessionConfigModel,
    pub browser: BrowserModel,
}

/// The reverse proxy: a session configuration and the browser handle that
/// serves it.
#[derive(Debug)]
pub struct ReverseProxy {
    config: ReverseProxyConfig,
    browser: Browser,
}

impl View for ReverseProxy {
    type V = ProxyModel;

    closed spec fn view(&self) -> ProxyModel {
        ProxyModel { config: self.config@, browser: self.browser@ }
    }
}

impl ReverseProxy {
    /// The proxy for `config`, with no browser process started yet. A
    /// configuration that is refused yields no proxy. `endpoint_parses` tells
    /// whether `config.tor_proxy`, where present, reads as a socket address.
    ///
    /// Images are kept out by the filter that each session installs, not by
    /// a launch argument.
    pub fn new(config: ReverseProxyConfig, endpoint_parses: bool) -> (r: Result<
        ReverseProxy,
        ProxyError,
    >)
        ensures
            match config@.refusal(endpoint_parses) {
                Some(e) => r == Err::<ReverseProxy, ProxyError>(ProxyError::Configuration(e)),
                None => r matches Ok(proxy) && proxy@ == (ProxyModel {
                    config: config@,
                    browser: BrowserModel {
                        plan: launch_model(config@.proxy(), false),
                        block_images: config.disable_images,
                        state: HandleState::Absent,
                    },
                }),
            },
    {
        match config.validate(endpoint_parses) {
            Err(e) => Err(ProxyError::Configuration(e)),
            Ok(_) => {
                let images_off: bool = config.disable_images;
                let browser: Browser = if config.use_tor {
                    match &config.tor_proxy {
                        Some(endpoint) => Browser::with_plan(
                            launch_plan(Some(endpoint.as_str()), false),
                            images_off,
                        ),
                        None => Browser::with_plan(launch_plan(None, false), images_off),
                    }
                } else {
                    Browser::with_plan(launch_plan(None, false), images_off)
                };
                Ok(ReverseProxy { config, browser })
            },
        }
    }

    /// Asks for the browser handle, as `Browser::acquire` does.
    pub fn acquire(&mut self) -> (told: Acquire)
        ensures
            told == answer(old(self)@.browser.state),
            final(self)@.browser.state == after_acquire(old(self)@.browser.state),
            final(self)@.browser.plan == old(self)@.browser.plan,
            final(self)@.browser.block_images == old(self)@.browser.block_images,
            final(self)@.config == old(self)@.config,
    {
        self.browser.acquire()
    }

    /// Takes the report of a launch, as `Browser::launch_finished` does.
    pub fn launch_finished(&mut self, launched: bool) -> (r: Result<(), ProxyError>)
        ensures
            final(self)@.browser.state == after_launch(old(self)@.browser.state, launched),
            final(self)@.browser.plan == old(self)@.browser.plan,
            final(self)@.browser.block_images == old(self)@.browser.block_images,
            final(self)@.config == old(self)@.config,
            match r {
                Ok(_) => final(self)@.browser.state == HandleState::Live,
                Err(e) => final(self)@.browser.state != HandleState::Live && e
                    == ProxyError::HandleInitialization,
            },
    {
        self.browser.launch_finished(launched)
    }

    /// The session configuration.
    pub fn config(&self) -> (config: &ReverseProxyConfig)
        ensures
            config@ == self@.config,
    {
        &self.config
    }

    /// The browser handle.
    pub fn browser(&self) -> (browser: &Browser)
        ensures
            browser@ == self@.browser,
    {
        &self.browser
    }

    /// Begins the session that serves one inbound request: the address is the
    /// configured origin followed by `path`, and the image filter and the
    /// timeout are the configured ones. Refused with `HandleInitialization`
    /// while the browser process does not run.
    pub fn handle_request(
        &self,
        path: &str,
        headers: Vec<(String, String)>,
        cookies: Vec<Cookie>,
        body: Option<String>,
    ) -> (r: Result<TabSession, ProxyError>)
        ensures
            match r {
                Ok(session) => self@.browser.state == HandleState::Live && session@ == fresh(
                    target_url_spec(self@.config.target_host, self@.config.target_port, path@),
                    headers.deep_view(),
                    cookies.deep_view(),
                    body.deep_view(),
                    self@.config.disable_images,
                    self@.config.request_timeout,
                ) && consistent(session@),
                Err(e) => self@.browser.state != HandleState::Live && e
                    == ProxyError::HandleInitialization,
            },
    {
        match self.browser.state() {
            HandleState::Live => {
                let url: String = target_url(
                    self.config.target_host.as_str(),
                    self.config.target_port,
                    path,
                );
                Ok(
                    TabSession::new(
                        url,
                        headers,
                        cookies,
                        body,
                        self.config.disable_images,
                        self.config.request_timeout,
                    ),
                )
            },
            _ => Err(ProxyError::HandleInitialization),
        }
    }
}

/// Begins the session that serves one inbound request from the origin of
/// `config` through `browser`: the address is the configured origin followed
/// by `path`; headers, cookies and body are those of the request; the wait is
/// at most the configured timeout, and the image filter is installed if the
/// configuration switches images off. Refused with `HandleInitialization`
/// while the browser process does not run.
pub fn proxy_request(
    path: &str,
    headers: Vec<(String, String)>,
    cookies: Vec<Cookie>,
    body: Option<String>,
    config: &Config,
    browser: &Browser,
) -> (r: Result<TabSession, ProxyError>)
    ensures
        match r {
            Ok(session) => browser@.state == HandleState::Live && session@ == fresh(
                target_url_spec(config@.target_host, config@.target_port, path@),
                headers.deep_view(),
                cookies.deep_view(),
                body.deep_view(),
                config@.disable_images,
                Some(config@.request_timeout),
            ) && consistent(session@),
            Err(e) => browser@.state != HandleState::Live && e == ProxyError::HandleInitialization,
        },
{
    match browser.state() {
        HandleState::Live => {
            let url: String = target_url(config.target_host.as_str(), config.target_port, path);
            Ok(
                TabSession::new(
                    url,
                    headers,
                    cookies,
                    body,
                    config.disable_images,
                    Some(config.request_timeout),
                ),
            )
        },
        _ => Err(ProxyError::HandleInitialization),
    }
}

} // verus!
