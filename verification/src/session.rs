//! One tab session: a single render-and-fetch cycle as a state machine.
//!
//! The session names the next thing to do to the browser; the caller does it
//! and reports what happened. The session never touches the browser itself.

use crate::error::{outcome_view, ProxyError};
use crate::headers::{effective, effective_headers};
use vstd::prelude::*;

verus! {

/// A cookie to apply before navigation.
#[derive(Debug, Clone)]
pub struct Cookie {
    pub name: String,
    pub value: String,
}

impl View for Cookie {
    type V = (Seq<char>, Seq<char>);

    open spec fn view(&self) -> (Seq<char>, Seq<char>) {
        (self.name@, self.value@)
    }
}

impl DeepView for Cookie {
    type V = (Seq<char>, Seq<char>);

    open spec fn deep_view(&self) -> (Seq<char>, Seq<char>) {
        self@
    }
}

impl Cookie {
    /// The cookie `name` = `value`.
    pub fn new(name: String, value: String) -> (cookie: Cookie)
        ensures
            cookie@ == (name@, value@),
    {
        Cookie { name, value }
    }
}

/// What the caller is asked to do to the browser.
#[derive(Clone, Copy, Debug, PartialEq, Eq)]
pub enum Action {
    /// Open a new tab.
    OpenTab,
    /// Install the filter that aborts image loads.
    BlockImages,
    /// Apply the cookie at this index.
    SetCookie(usize),
    /// Apply the session's headers, all at once.
    SetHeaders,
    /// Navigate to the session's URL.
    Navigate,
    /// Navigate to the session's URL, sending the session's body.
    NavigateWithBody,
    /// Wait until the page has loaded, at most this many seconds.
    AwaitLoaded(Option<u64>),
    /// Read the rendered document.
    ExtractContent,
    /// Close the tab.
    CloseTab,
    /// Nothing: the session is over and its outcome can be taken.
    Finish,
}

/// What the caller reports of the action it was asked for.
#[derive(Debug)]
pub enum Event {
    /// The action was carried out.
    Done,
    /// The action failed.
    Failed,
    /// The wait ended before the page had loaded.
    TimedOut,
    /// The action was carried out and gave this document.
    Content(String),
}

/// A report as plain values.
pub enum EventModel {
    Done,
    Failed,
    TimedOut,
    Content(Seq<char>),
}

impl View for Event {
    type V = EventModel;

    open spec fn view(&self) -> EventModel {
        match self {
            Event::Done => EventModel::Done,
            Event::Failed => EventModel::Failed,
            Event::TimedOut => EventModel::TimedOut,
            Event::Content(document) => EventModel::Content(document@),
        }
    }
}

/// Where a session stands in its life.
#[derive(Clone, Copy, Debug, PartialEq, Eq, Structural)]
pub enum Phase {
    /// No tab is open yet.
    Pending,
    /// The tab is open and is being configured.
    Created,
    /// Filter, cookies and headers are in place.
    Configured,
    /// The navigation is under way.
    Navigating,
    /// The page has loaded.
    Loaded,
    /// The page did not load in time.
    TimedOut,
    /// A step failed.
    Failed,
    /// No tab is held any more.
    Closed,
}

/// A session as plain values.
pub struct SessionModel {
    pub url: Seq<char>,
    pub headers: Seq<(Seq<char>, Seq<char>)>,
    pub cookies: Seq<(Seq<char>, Seq<char>)>,
    pub body: Option<Seq<char>>,
    pub block_images: bool,
    pub timeout: Option<u64>,
    /// The action that the caller is to carry out next.
    pub pending: Action,
    /// How the request ends, once that is decided.
    pub outcome: Option<Result<Seq<char>, ProxyError>>,
}

/// A session that has not begun: its first action is to open the tab.
pub open spec fn fresh(
    url: Seq<char>,
    headers: Seq<(Seq<char>, Seq<char>)>,
    cookies: Seq<(Seq<char>, Seq<char>)>,
    body: Option<Seq<char>>,
    block_images: bool,
    timeout: Option<u64>,
) -> SessionModel {
    SessionModel {
        url,
        headers: effective(headers),
        cookies,
        body,
        block_images,
        timeout,
        pending: Action::OpenTab,
        outcome: None,
    }
}

/// Whether `e` reports success.
pub open spec fn succeeded(e: EventModel) -> bool {
    e is Done || e is Content
}

/// The configuring action that follows once the cookies before index `i`
/// are applied: the cookie at `i`, or the headers after the last cookie.
pub open spec fn configure_from(m: SessionModel, i: int) -> Action {
    if i < m.cookies.len() {
        Action::SetCookie(i as usize)
    } else {
        Action::SetHeaders
    }
}

/// The navigation that the session calls for: with the body if there is one.
pub open spec fn navigation(m: SessionModel) -> Action {
    if m.body.is_some() {
        Action::NavigateWithBody
    } else {
        Action::Navigate
    }
}

/// The session going on with `next`.
pub open spec fn proceed(m: SessionModel, next: Action) -> SessionModel {
    SessionModel { pending: next, ..m }
}

/// The session giving up with `error`: the tab is closed next.
pub open spec fn abandon(m: SessionModel, error: ProxyError) -> SessionModel {
    SessionModel { pending: Action::CloseTab, outcome: Some(Err(error)), ..m }
}

/// The session after the caller reports `e` of the pending action.
///
/// A success leads to the next action in the fixed order: tab, image filter,
/// cookies one by one, headers, navigation, wait, extraction, close. The
/// first failure decides the outcome and leads straight to closing the tab;
/// only where the tab could not be opened is there nothing to close.
pub open spec fn advance(m: SessionModel, e: EventModel) -> SessionModel {
    match m.pending {
        Action::OpenTab => if succeeded(e) {
            proceed(
                m,
                if m.block_images {
                    Action::BlockImages
                } else {
                    configure_from(m, 0)
                },
            )
        } else {
            SessionModel {
                pending: Action::Finish,
                outcome: Some(Err(ProxyError::TabCreation)),
                ..m
            }
        },
        Action::BlockImages => if succeeded(e) {
            proceed(m, configure_from(m, 0))
        } else {
            abandon(m, ProxyError::Interception)
        },
        Action::SetCookie(i) => if succeeded(e) {
            proceed(m, configure_from(m, i + 1))
        } else {
            abandon(m, ProxyError::CookieInjection)
        },
        Action::SetHeaders => if succeeded(e) {
            proceed(m, navigation(m))
        } else {
            abandon(m, ProxyError::HeaderInjection)
        },
        Action::Navigate | Action::NavigateWithBody => if succeeded(e) {
            proceed(m, Action::AwaitLoaded(m.timeout))
        } else {
            abandon(m, ProxyError::Navigation)
        },
        Action::AwaitLoaded(_) => if succeeded(e) {
            proceed(m, Action::ExtractContent)
        } else if e is TimedOut {
            abandon(m, ProxyError::Timeout)
        } else {
            abandon(m, ProxyError::Navigation)
        },
        Action::ExtractContent => match e {
            EventModel::Content(document) => SessionModel {
                pending: Action::CloseTab,
                outcome: Some(Ok(document)),
                ..m
            },
            _ => abandon(m, ProxyError::ContentExtraction),
        },
        Action::CloseTab => proceed(m, Action::Finish),
        Action::Finish => m,
    }
}

/// The phase of a session.
pub open spec fn phase_of(m: SessionModel) -> Phase {
    match m.pending {
        Action::OpenTab => Phase::Pending,
        Action::BlockImages | Action::SetCookie(_) | Action::SetHeaders => Phase::Created,
        Action::Navigate | Action::NavigateWithBody => Phase::Configured,
        Action::AwaitLoaded(_) => Phase::Navigating,
        Action::ExtractContent => Phase::Loaded,
        Action::CloseTab => match m.outcome {
            Some(Ok(_)) => Phase::Loaded,
            Some(Err(ProxyError::Timeout)) => Phase::TimedOut,
            _ => Phase::Failed,
        },
        Action::Finish => Phase::Closed,
    }
}

/// Whether the parts of a session fit together: the pending action is one
/// that its request calls for, and the outcome is decided exactly when only
/// closing is left.
pub open spec fn consistent(m: SessionModel) -> bool {
    &&& m.cookies.len() <= usize::MAX
    &&& m.pending matches Action::BlockImages ==> m.block_images
    &&& m.pending matches Action::SetCookie(i) ==> i < m.cookies.len()
    &&& m.pending matches Action::Navigate ==> m.body.is_none()
    &&& m.pending matches Action::NavigateWithBody ==> m.body.is_some()
    &&& m.pending matches Action::AwaitLoaded(t) ==> t == m.timeout
    &&& m.outcome.is_some() <==> (m.pending is CloseTab || m.pending is Finish)
}

/// An outcome as plain values.
pub open spec fn outcome_model(outcome: Option<Result<String, ProxyError>>) -> Option<
    Result<Seq<char>, ProxyError>,
> {
    match outcome {
        Some(decided) => Some(outcome_view(decided)),
        None => None,
    }
}

/// One tab session.
#[derive(Debug)]
pub struct TabSession {
    url: String,
    headers: Vec<(String, String)>,
    cookies: Vec<Cookie>,
    body: Option<String>,
    block_images: bool,
    timeout: Option<u64>,
    pending: Action,
    outcome: Option<Result<String, ProxyError>>,
}

impl View for TabSession {
    type V = SessionModel;

    closed spec fn view(&self) -> SessionModel {
        SessionModel {
            url: self.url@,
            headers: self.headers.deep_view(),
            cookies: self.cookies.deep_view(),
            body: self.body.deep_view(),
            block_images: self.block_images,
            timeout: self.timeout,
            pending: self.pending,
            outcome: outcome_model(self.outcome),
        }
    }
}

impl TabSession {
    /// A session for one request. Of two headers with one name only the
    /// later one is kept.
    pub fn new(
        url: String,
        headers: Vec<(String, String)>,
        cookies: Vec<Cookie>,
        body: Option<String>,
        block_images: bool,
        timeout: Option<u64>,
    ) -> (session: TabSession)
        ensures
            session@ == fresh(
                url@,
                headers.deep_view(),
                cookies.deep_view(),
                body.deep_view(),
                block_images,
                timeout,
            ),
            consistent(session@),
    {
        let kept: Vec<(String, String)> = effective_headers(&headers);
        let count: usize = cookies.len();
        assert(cookies.deep_view().len() == count);
        TabSession {
            url,
            headers: kept,
            cookies,
            body,
            block_images,
            timeout,
            pending: Action::OpenTab,
            outcome: None,
        }
    }

    /// The action that the caller is to carry out next.
    pub fn pending(&self) -> (action: Action)
        ensures
            action == self@.pending,
    {
        self.pending
    }

    /// Takes the caller's report of the pending action and names the next one.
    pub fn step(&mut self, event: Event) -> (next: Action)
        ensures
            final(self)@ == advance(old(self)@, event@),
            next == final(self)@.pending,
            consistent(old(self)@) ==> consistent(final(self)@),
    {
        let good: bool = match event {
            Event::Done => true,
            Event::Content(_) => true,
            _ => false,
        };
        let count: usize = self.cookies.len();
        match self.pending {
            Action::OpenTab => {
                if good {
                    self.pending = if self.block_images {
                        Action::BlockImages
                    } else if 0 < count {
                        Action::SetCookie(0)
                    } else {
                        Action::SetHeaders
                    };
                } else {
                    self.pending = Action::Finish;
                    self.outcome = Some(Err(ProxyError::TabCreation));
                }
            },
            Action::BlockImages => {
                if good {
                    self.pending = if 0 < count {
                        Action::SetCookie(0)
                    } else {
                        Action::SetHeaders
                    };
                } else {
                    self.pending = Action::CloseTab;
                    self.outcome = Some(Err(ProxyError::Interception));
                }
            },
            Action::SetCookie(i) => {
                if good {
                    self.pending = if i < count && i + 1 < count {
                        Action::SetCookie(i + 1)
                    } else {
                        Action::SetHeaders
                    };
                } else {
                    self.pending = Action::CloseTab;
                    self.outcome = Some(Err(ProxyError::CookieInjection));
                }
            },
            Action::SetHeaders => {
                if good {
                    self.pending = if self.body.is_some() {
                        Action::NavigateWithBody
                    } else {
                        Action::Navigate
                    };
                } else {
                    self.pending = Action::CloseTab;
                    self.outcome = Some(Err(ProxyError::HeaderInjection));
                }
            },
            Action::Navigate | Action::NavigateWithBody => {
                if good {
                    self.pending = Action::AwaitLoaded(self.timeout);
                } else {
                    self.pending = Action::CloseTab;
                    self.outcome = Some(Err(ProxyError::Navigation));
                }
            },
            Action::AwaitLoaded(_) => {
                if good {
                    self.pending = Action::ExtractContent;
                } else {
                    let late: bool = match event {
                        Event::TimedOut => true,
                        _ => false,
                    };
                    self.pending = Action::CloseTab;
                    self.outcome = Some(
                        Err(
                            if late {
                                ProxyError::Timeout
                            } else {
                                ProxyError::Navigation
                            },
                        ),
                    );
                }
            },
            Action::ExtractContent => {
                self.pending = Action::CloseTab;
                self.outcome = Some(
                    match event {
                        Event::Content(document) => Ok(document),
                        _ => Err(ProxyError::ContentExtraction),
                    },
                );
            },
            Action::CloseTab => {
                self.pending = Action::Finish;
            },
            Action::Finish => {},
        }
        self.pending
    }

    /// Where the session stands in its life.
    pub fn phase(&self) -> (phase: Phase)
        ensures
            phase == phase_of(self@),
    {
        match self.pending {
            Action::OpenTab => Phase::Pending,
            Action::BlockImages => Phase::Created,
            Action::SetCookie(_) => Phase::Created,
            Action::SetHeaders => Phase::Created,
            Action::Navigate => Phase::Configured,
            Action::NavigateWithBody => Phase::Configured,
            Action::AwaitLoaded(_) => Phase::Navigating,
            Action::ExtractContent => Phase::Loaded,
            Action::CloseTab => match &self.outcome {
                Some(Ok(_)) => Phase::Loaded,
                Some(Err(ProxyError::Timeout)) => Phase::TimedOut,
                _ => Phase::Failed,
            },
            Action::Finish => Phase::Closed,
        }
    }

    /// Whether the session is over.
    pub fn is_finished(&self) -> (over: bool)
        ensures
            over == (self@.pending is Finish),
    {
        match self.pending {
            Action::Finish => true,
            _ => false,
        }
    }

    /// The address to navigate to.
    pub fn url(&self) -> (url: &str)
        ensures
            url@ == self@.url,
    {
        self.url.as_str()
    }

    /// The headers to apply: no name twice.
    pub fn headers(&self) -> (headers: &Vec<(String, String)>)
        ensures
            headers.deep_view() == self@.headers,
    {
        &self.headers
    }

    /// The cookie at `index`, if there is one.
    pub fn cookie(&self, index: usize) -> (cookie: Option<&Cookie>)
        ensures
            match cookie {
                Some(c) => index < self@.cookies.len() && c@ == self@.cookies[index as int],
                None => index >= self@.cookies.len(),
            },
    {
        if index < self.cookies.len() {
            Some(&self.cookies[index])
        } else {
            None
        }
    }

    /// The body to send with the navigation, if there is one.
    pub fn body(&self) -> (body: Option<&str>)
        ensures
            body.deep_view() == self@.body,
    {
        match &self.body {
            Some(text) => Some(text.as_str()),
            None => None,
        }
    }

    /// The seconds to wait for the page; `None` waits without limit.
    pub fn timeout(&self) -> (timeout: Option<u64>)
        ensures
            timeout == self@.timeout,
    {
        self.timeout
    }

    /// Whether image loads are to be aborted.
    pub fn blocks_images(&self) -> (blocks: bool)
        ensures
            blocks == self@.block_images,
    {
        self.block_images
    }

    /// Ends the session and hands out how the request ended: `None` while
    /// that is not decided. In a consistent session it is decided as soon as
    /// only the closing of the tab is left.
    pub fn outcome(self) -> (outcome: Option<Result<String, ProxyError>>)
        ensures
            outcome_model(outcome) == self@.outcome,
            consistent(self@) ==> (outcome.is_some() <==> (self@.pending is CloseTab
                || self@.pending is Finish)),
    {
        self.outcome
    }
}

} // verus!
