//! The browser handle: one browser process, started once and shared.
//!
//! The handle keeps the books; starting the process is the caller's work.

use crate::config::Config;
use crate::error::ProxyError;
use crate::launch::{launch_model, launch_plan, LaunchModel, LaunchPlan};
use crate::session::{consistent, fresh, Cookie, TabSession};
use vstd::prelude::*;
use vstd::string::*;

verus! {

/// Whether the browser process is there.
#[derive(Clone, Copy, Debug, PartialEq, Eq, Structural)]
pub enum HandleState {
    /// No process runs and none is being started.
    Absent,
    /// One caller is starting the process.
    Launching,
    /// The process runs.
    Live,
}

/// What a caller that asks for the handle is told.
#[derive(Clone, Copy, Debug, PartialEq, Eq, Structural)]
pub enum Acquire {
    /// The process runs: use it.
    Ready,
    /// Start the process, then report how that went.
    Launch,
    /// Another caller is starting the process: ask again later.
    Busy,
}

/// The state after a caller has asked for the handle.
pub open spec fn after_acquire(state: HandleState) -> HandleState {
    match state {
        HandleState::Absent => HandleState::Launching,
        HandleState::Launching => HandleState::Launching,
        HandleState::Live => HandleState::Live,
    }
}

/// The answer to a caller that asks for the handle.
pub open spec fn answer(state: HandleState) -> Acquire {
    match state {
        HandleState::Absent => Acquire::Launch,
        HandleState::Launching => Acquire::Busy,
        HandleState::Live => Acquire::Ready,
    }
}

/// The state after a launch is reported. A report that no launch was asked
/// for changes nothing.
pub open spec fn after_launch(state: HandleState, launched: bool) -> HandleState {
    match state {
        HandleState::Launching => if launched {
            HandleState::Live
        } else {
            HandleState::Absent
        },
        HandleState::Absent => HandleState::Absent,
        HandleState::Live => HandleState::Live,
    }
}

/// A handle as plain values.
pub struct BrowserModel {
    pub plan: LaunchModel,
    /// Whether the sessions of this handle abort image loads.
    pub block_images: bool,
    pub state: HandleState,
}

/// The browser handle.
#[derive(Debug)]
pub struct Browser {
    plan: LaunchPlan,
    block_images: bool,
    state: HandleState,
}

impl View for Browser {
    type V = BrowserModel;

    closed spec fn view(&self) -> BrowserModel {
        BrowserModel { plan: self.plan@, block_images: self.block_images, state: self.state }
    }
}

impl Browser {
    /// The handle for `config`, with no process started yet. A configuration
    /// that is refused yields no handle. `endpoint_parses` tells whether
    /// `config.tor_proxy` reads as a socket address.
    ///
    /// Where the configuration switches images off, the process is started
    /// with the image switch and every session of the handle installs the
    /// image filter as well.
    pub fn new(config: &Config, endpoint_parses: bool) -> (r: Result<Browser, ProxyError>)
        ensures
            match config@.refusal(endpoint_parses) {
                Some(e) => r == Err::<Browser, ProxyError>(ProxyError::Configuration(e)),
                None => r matches Ok(browser) && browser@ == (BrowserModel {
                    plan: launch_model(config@.proxy(), config.disable_images),
                    block_images: config.disable_images,
                    state: HandleState::Absent,
                }),
            },
    {
        match config.validate(endpoint_parses) {
            Err(e) => Err(ProxyError::Configuration(e)),
            Ok(_) => {
                let proxy: Option<&str> = if config.use_tor {
                    Some(config.tor_proxy.as_str())
                } else {
                    None
                };
                Ok(
                    Browser::with_plan(
                        launch_plan(proxy, config.disable_images),
                        config.disable_images,
                    ),
                )
            },
        }
    }

    /// The handle that starts its process as `plan` says and whose sessions
    /// abort image loads if `block_images` is set, with no process started
    /// yet.
    pub fn with_plan(plan: LaunchPlan, block_images: bool) -> (browser: Browser)
        ensures
            browser@ == (BrowserModel { plan: plan@, block_images, state: HandleState::Absent }),
    {
        Browser { plan, block_images, state: HandleState::Absent }
    }

    /// Asks for the handle. The first caller is told to start the process;
    /// while it does so, others are told to come back; once the process
    /// runs, everyone is told to use it.
    pub fn acquire(&mut self) -> (told: Acquire)
        ensures
            told == answer(old(self)@.state),
            final(self)@.state == after_acquire(old(self)@.state),
            final(self)@.plan == old(self)@.plan,
            final(self)@.block_images == old(self)@.block_images,
    {
        match self.state {
            HandleState::Absent => {
                self.state = HandleState::Launching;
                Acquire::Launch
            },
            HandleState::Launching => Acquire::Busy,
            HandleState::Live => Acquire::Ready,
        }
    }

    /// Takes the report of the launch that `acquire` asked for. A failed
    /// launch leaves the handle as it was before: a later caller may try
    /// again. Succeeds exactly when the process runs afterwards.
    pub fn launch_finished(&mut self, launched: bool) -> (r: Result<(), ProxyError>)
        ensures
            final(self)@.state == after_launch(old(self)@.state, launched),
            final(self)@.plan == old(self)@.plan,
            final(self)@.block_images == old(self)@.block_images,
            match r {
                Ok(_) => final(self)@.state == HandleState::Live,
                Err(e) => final(self)@.state != HandleState::Live && e
                    == ProxyError::HandleInitialization,
            },
    {
        match self.state {
            HandleState::Launching => {
                if launched {
                    self.state = HandleState::Live;
                    Ok(())
                } else {
                    self.state = HandleState::Absent;
                    Err(ProxyError::HandleInitialization)
                }
            },
            HandleState::Absent => Err(ProxyError::HandleInitialization),
            HandleState::Live => Ok(()),
        }
    }

    /// Whether the process is there.
    pub fn state(&self) -> (state: HandleState)
        ensures
            state == self@.state,
    {
        self.state
    }

    /// How the process is started.
    pub fn plan(&self) -> (plan: &LaunchPlan)
        ensures
            plan@ == self@.plan,
    {
        &self.plan
    }

    /// Whether the sessions of this handle abort image loads.
    pub fn blocks_images(&self) -> (blocks: bool)
        ensures
            blocks == self@.block_images,
    {
        self.block_images
    }

    /// Begins a plain navigation to `url` that waits at most `timeout`
    /// seconds: no cookies, no extra headers, no body; the image filter is
    /// the one that the handle was built with. Refused with
    /// `HandleInitialization` while the process does not run.
    pub fn navigate(&self, url: &str, timeout: u64) -> (r: Result<TabSession, ProxyError>)
        ensures
            match r {
                Ok(session) => self@.state == HandleState::Live && session@ == fresh(
                    url@,
                    Seq::empty(),
                    Seq::empty(),
                    None,
                    self@.block_images,
                    Some(timeout),
                ) && consistent(session@),
                Err(e) => self@.state != HandleState::Live && e == ProxyError::HandleInitialization,
            },
    {
        match self.state {
            HandleState::Live => {
                let headers: Vec<(String, String)> = Vec::new();
                let cookies: Vec<Cookie> = Vec::new();
                assert(headers.deep_view() =~= Seq::empty());
                assert(cookies.deep_view() =~= Seq::empty());
                Ok(
                    TabSession::new(
                        String::from_str(url),
                        headers,
                        cookies,
                        None,
                        self.block_images,
                        Some(timeout),
                    ),
                )
            },
            _ => Err(ProxyError::HandleInitialization),
        }
    }
}

/// What can happen to a handle.
pub enum HandleOp {
    /// A caller asks for the handle.
    Acquire,
    /// A caller reports that the process was started.
    Launched,
    /// A caller reports that the process could not be started.
    LaunchFailed,
}

/// The state after `op`.
pub open spec fn apply(state: HandleState, op: HandleOp) -> HandleState {
    match op {
        HandleOp::Acquire => after_acquire(state),
        HandleOp::Launched => after_launch(state, true),
        HandleOp::LaunchFailed => after_launch(state, false),
    }
}

/// The state after `ops`, one after the other.
pub open spec fn apply_all(state: HandleState, ops: Seq<HandleOp>) -> HandleState
    decreases ops.len(),
{
    if ops.len() == 0 {
        state
    } else {
        apply_all(apply(state, ops[0]), ops.drop_first())
    }
}

/// How many callers were told to start the process in the course of `ops`.
pub open spec fn launches_asked(state: HandleState, ops: Seq<HandleOp>) -> nat
    decreases ops.len(),
{
    if ops.len() == 0 {
        0
    } else {
        let here: nat = if ops[0] is Acquire && state is Absent {
            1
        } else {
            0
        };
        here + launches_asked(apply(state, ops[0]), ops.drop_first())
    }
}

/// How many launches that were asked for were reported, well or badly, in
/// the course of `ops`.
pub open spec fn launches_settled(state: HandleState, ops: Seq<HandleOp>) -> nat
    decreases ops.len(),
{
    if ops.len() == 0 {
        0
    } else {
        let here: nat = if !(ops[0] is Acquire) && state is Launching {
            1
        } else {
            0
        };
        here + launches_settled(apply(state, ops[0]), ops.drop_first())
    }
}

/// How many started processes the handle took up in the course of `ops`.
pub open spec fn processes_adopted(state: HandleState, ops: Seq<HandleOp>) -> nat
    decreases ops.len(),
{
    if ops.len() == 0 {
        0
    } else {
        let here: nat = if ops[0] is Launched && state is Launching {
            1
        } else {
            0
        };
        here + processes_adopted(apply(state, ops[0]), ops.drop_first())
    }
}

/// One if a launch is under way, zero if not.
pub open spec fn in_flight(state: HandleState) -> nat {
    if state is Launching {
        1
    } else {
        0
    }
}

/// One if the process runs, zero if not.
pub open spec fn live(state: HandleState) -> nat {
    if state is Live {
        1
    } else {
        0
    }
}

/// The handle and the number of launches after `callers` callers, one
/// after the other, have each asked for the handle and, where told to,
/// started the process.
pub open spec fn serve(state: HandleState, callers: nat) -> (HandleState, nat)
    decreases callers,
{
    if callers == 0 {
        (state, 0)
    } else {
        let asked = after_acquire(state);
        let (settled, launched): (HandleState, nat) = if answer(state) is Launch {
            (after_launch(asked, true), 1)
        } else {
            (asked, 0)
        };
        let (end, later) = serve(settled, (callers - 1) as nat);
        (end, launched + later)
    }
}

/// Callers never race to start the process: whatever happens in whatever
/// order, the launches asked for are those settled and the one under way,
/// so that no second launch is asked for while one is under way.
pub proof fn law_one_launch_in_flight(state: HandleState, ops: Seq<HandleOp>)
    ensures
        launches_asked(state, ops) + in_flight(state) == launches_settled(state, ops) + in_flight(
            apply_all(state, ops),
        ),
    decreases ops.len(),
{
    if ops.len() > 0 {
        law_one_launch_in_flight(apply(state, ops[0]), ops.drop_first());
    }
}

/// At most one process is ever taken up: whatever happens in whatever
/// order, a handle that had no process has taken up one if it is live and
/// none if it is not.
pub proof fn law_one_process(state: HandleState, ops: Seq<HandleOp>)
    ensures
        processes_adopted(state, ops) + live(state) == live(apply_all(state, ops)),
        processes_adopted(state, ops) <= 1,
    decreases ops.len(),
{
    if ops.len() > 0 {
        law_one_process(apply(state, ops[0]), ops.drop_first());
    }
}

/// Once the process runs, nothing takes it away, and nobody is told to
/// start another.
pub proof fn law_live_is_kept(ops: Seq<HandleOp>)
    ensures
        apply_all(HandleState::Live, ops) == HandleState::Live,
        launches_asked(HandleState::Live, ops) == 0,
    decreases ops.len(),
{
    if ops.len() > 0 {
        law_live_is_kept(ops.drop_first());
    }
}

/// However many callers ask for the handle one after the other, the
/// process is started exactly once, by the first, and all of them end up
/// with the one live handle.
pub proof fn law_callers_share_one_launch(callers: nat)
    requires
        callers >= 1,
    ensures
        serve(HandleState::Absent, callers) == (HandleState::Live, 1nat),
{
    lemma_serve_live((callers - 1) as nat);
}

/// Callers that find the process running start none.
pub proof fn lemma_serve_live(callers: nat)
    ensures
        serve(HandleState::Live, callers) == (HandleState::Live, 0nat),
    decreases callers,
{
    if callers > 0 {
        lemma_serve_live((callers - 1) as nat);
    }
}

} // verus!
