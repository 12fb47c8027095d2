//! What holds of every run of a tab session, whatever the browser does.

use crate::error::ProxyError;
use crate::session::{
    advance, consistent, fresh, navigation, phase_of, succeeded, Action, EventModel, Phase,
    SessionModel,
};
use vstd::prelude::*;

verus! {

/// The session after the caller has reported `events`, one after the other.
pub open spec fn run(m: SessionModel, events: Seq<EventModel>) -> SessionModel
    decreases events.len(),
{
    if events.len() == 0 {
        m
    } else {
        run(advance(m, events[0]), events.drop_first())
    }
}

/// The actions that the caller carried out to make the reports `events`.
pub open spec fn trace(m: SessionModel, events: Seq<EventModel>) -> Seq<Action>
    decreases events.len(),
{
    if events.len() == 0 || m.pending is Finish {
        Seq::empty()
    } else {
        seq![m.pending] + trace(advance(m, events[0]), events.drop_first())
    }
}

/// How many tabs were opened while the caller reported `events`.
pub open spec fn tabs_opened(m: SessionModel, events: Seq<EventModel>) -> nat
    decreases events.len(),
{
    if events.len() == 0 {
        0
    } else {
        let here: nat = if m.pending is OpenTab && succeeded(events[0]) {
            1
        } else {
            0
        };
        here + tabs_opened(advance(m, events[0]), events.drop_first())
    }
}

/// How many times a tab was closed while the caller reported `events`.
pub open spec fn tabs_closed(m: SessionModel, events: Seq<EventModel>) -> nat
    decreases events.len(),
{
    if events.len() == 0 {
        0
    } else {
        let here: nat = if m.pending is CloseTab {
            1
        } else {
            0
        };
        here + tabs_closed(advance(m, events[0]), events.drop_first())
    }
}

/// Whether the session holds an open tab: it has opened one and not yet
/// closed it.
pub open spec fn holds_tab(m: SessionModel) -> bool {
    !(m.pending is OpenTab) && !(m.pending is Finish)
}

/// One if the session holds an open tab, zero if not.
pub open spec fn tabs_held(m: SessionModel) -> nat {
    if holds_tab(m) {
        1
    } else {
        0
    }
}

/// The whole course of a request where nothing fails: tab, image filter if
/// asked for, the cookies in their order, headers, navigation, wait,
/// extraction, close.
pub open spec fn script(m: SessionModel) -> Seq<Action> {
    let filter = if m.block_images {
        seq![Action::BlockImages]
    } else {
        Seq::empty()
    };
    seq![Action::OpenTab] + filter + Seq::new(
        m.cookies.len(),
        |i: int| Action::SetCookie(i as usize),
    ) + seq![
        Action::SetHeaders,
        navigation(m),
        Action::AwaitLoaded(m.timeout),
        Action::ExtractContent,
        Action::CloseTab,
    ]
}

/// Where in the script the pending action stands.
pub open spec fn place(m: SessionModel) -> int {
    let b: int = if m.block_images {
        1
    } else {
        0
    };
    let n: int = m.cookies.len() as int;
    match m.pending {
        Action::OpenTab => 0,
        Action::BlockImages => 1,
        Action::SetCookie(i) => b + 1 + i,
        Action::SetHeaders => b + 1 + n,
        Action::Navigate | Action::NavigateWithBody => b + 2 + n,
        Action::AwaitLoaded(_) => b + 3 + n,
        Action::ExtractContent => b + 4 + n,
        Action::CloseTab => b + 5 + n,
        Action::Finish => b + 6 + n,
    }
}

/// Which phase may follow which: a session moves forward or fails, and from
/// every phase it can only end up closed.
pub open spec fn may_follow(before: Phase, after: Phase) -> bool {
    match before {
        Phase::Pending => after == Phase::Created || after == Phase::Closed,
        Phase::Created => after == Phase::Created || after == Phase::Configured || after
            == Phase::Failed,
        Phase::Configured => after == Phase::Navigating || after == Phase::Failed,
        Phase::Navigating => after == Phase::Loaded || after == Phase::TimedOut || after
            == Phase::Failed,
        Phase::Loaded => after == Phase::Loaded || after == Phase::Failed || after == Phase::Closed,
        Phase::TimedOut => after == Phase::Closed,
        Phase::Failed => after == Phase::Closed,
        Phase::Closed => after == Phase::Closed,
    }
}

/// How many reports at most a session still takes before it is over: one
/// for each action of the script from the pending one on.
pub open spec fn steps_left(m: SessionModel) -> nat {
    (script(m).len() - place(m)) as nat
}

/// Whether `done` is a stretch of `script` that begins at `from` and ends
/// before `to`, the closing of the tab apart, which may follow any stretch.
pub open spec fn follows_script(done: Seq<Action>, script: Seq<Action>, from: int, to: int) -> bool {
    &&& from <= to < script.len()
    &&& done == script.subrange(from, to) || done == script.subrange(from, to).push(
        Action::CloseTab,
    )
}

/// Whether `error` concerns one request only, and neither the configuration
/// nor the browser process that all requests share.
pub open spec fn request_scoped(error: ProxyError) -> bool {
    !(error is Configuration) && !(error is HandleInitialization)
}

/// Every session begins consistent.
pub proof fn law_fresh_is_consistent(
    url: Seq<char>,
    headers: Seq<(Seq<char>, Seq<char>)>,
    cookies: Seq<(Seq<char>, Seq<char>)>,
    body: Option<Seq<char>>,
    block_images: bool,
    timeout: Option<u64>,
)
    requires
        cookies.len() <= usize::MAX,
    ensures
        consistent(fresh(url, headers, cookies, body, block_images, timeout)),
{
}

/// A report keeps a consistent session consistent and changes nothing of
/// the request itself.
pub proof fn lemma_advance(m: SessionModel, e: EventModel)
    requires
        consistent(m),
    ensures
        consistent(advance(m, e)),
        script(advance(m, e)) == script(m),
        advance(m, e).url == m.url,
        advance(m, e).headers == m.headers,
        advance(m, e).cookies == m.cookies,
        advance(m, e).body == m.body,
        advance(m, e).block_images == m.block_images,
        advance(m, e).timeout == m.timeout,
{
}

/// Reports keep a consistent session consistent and its script the same.
pub proof fn lemma_run_consistent(m: SessionModel, events: Seq<EventModel>)
    requires
        consistent(m),
    ensures
        consistent(run(m, events)),
        script(run(m, events)) == script(m),
    decreases events.len(),
{
    if events.len() > 0 {
        lemma_advance(m, events[0]);
        lemma_run_consistent(advance(m, events[0]), events.drop_first());
    }
}

/// The phases of a session follow one another as `may_follow` allows.
pub proof fn law_phase_order(m: SessionModel, e: EventModel)
    requires
        consistent(m),
    ensures
        may_follow(phase_of(m), phase_of(advance(m, e))),
{
}

/// A closed session stays as it is, whatever is reported.
pub proof fn law_closed_is_final(m: SessionModel, events: Seq<EventModel>)
    requires
        m.pending is Finish,
    ensures
        run(m, events) == m,
    decreases events.len(),
{
    if events.len() > 0 {
        law_closed_is_final(m, events.drop_first());
    }
}

/// Once the outcome is decided, no report changes it.
pub proof fn law_outcome_is_kept(m: SessionModel, events: Seq<EventModel>)
    requires
        consistent(m),
        m.outcome.is_some(),
    ensures
        run(m, events).outcome == m.outcome,
    decreases events.len(),
{
    if events.len() > 0 {
        lemma_advance(m, events[0]);
        law_outcome_is_kept(advance(m, events[0]), events.drop_first());
    }
}

/// Every report brings a session that is not over closer to its end.
pub proof fn lemma_progress(m: SessionModel, e: EventModel)
    requires
        consistent(m),
        !(m.pending is Finish),
    ensures
        steps_left(advance(m, e)) < steps_left(m),
{
}

/// Every session ends: after as many reports as it has steps left, whatever
/// they say, it is closed.
pub proof fn law_every_session_ends(m: SessionModel, events: Seq<EventModel>)
    requires
        consistent(m),
        events.len() >= steps_left(m),
    ensures
        run(m, events).pending is Finish,
    decreases events.len(),
{
    if m.pending is Finish {
        law_closed_is_final(m, events);
    } else {
        lemma_advance(m, events[0]);
        lemma_progress(m, events[0]);
        law_every_session_ends(advance(m, events[0]), events.drop_first());
    }
}

/// Tabs are accounted for: those opened, and the one held at the start,
/// are those closed, and the one held at the end.
pub proof fn law_tabs_balance(m: SessionModel, events: Seq<EventModel>)
    ensures
        tabs_opened(m, events) + tabs_held(m) == tabs_closed(m, events) + tabs_held(
            run(m, events),
        ),
    decreases events.len(),
{
    if events.len() > 0 {
        law_tabs_balance(advance(m, events[0]), events.drop_first());
    }
}

/// A session opens at most one tab, and none once it has opened one.
pub proof fn lemma_opened_once(m: SessionModel, events: Seq<EventModel>)
    ensures
        tabs_opened(m, events) <= 1,
        !(m.pending is OpenTab) ==> tabs_opened(m, events) == 0,
    decreases events.len(),
{
    if events.len() > 0 {
        lemma_opened_once(advance(m, events[0]), events.drop_first());
    }
}

/// No tab leaks: a session that has run from its beginning to its end,
/// whether the request succeeded, timed out or failed at any step, has
/// closed a tab exactly as often as it has opened one, and that is at most
/// once.
pub proof fn law_no_tab_leaks(m: SessionModel, events: Seq<EventModel>)
    requires
        m.pending is OpenTab,
        run(m, events).pending is Finish,
    ensures
        tabs_closed(m, events) == tabs_opened(m, events),
        tabs_opened(m, events) <= 1,
{
    law_tabs_balance(m, events);
    lemma_opened_once(m, events);
}

/// In a consistent session that is not yet decided, the pending action is
/// the one that the script has at the session's place.
pub proof fn lemma_place(m: SessionModel)
    requires
        consistent(m),
    ensures
        script(m).len() == m.cookies.len() + 6 + if m.block_images {
            1int
        } else {
            0int
        },
        0 <= place(m) <= script(m).len(),
        !(m.pending is Finish) ==> script(m)[place(m)] == m.pending,
        m.pending is CloseTab <==> place(m) == script(m).len() - 1,
        m.pending is Finish <==> place(m) == script(m).len(),
{
}

/// A session that has only the closing left carries out nothing else.
pub proof fn lemma_closing(m: SessionModel, events: Seq<EventModel>)
    requires
        m.pending is CloseTab,
    ensures
        events.len() == 0 ==> trace(m, events) == Seq::<Action>::empty() && run(m, events) == m,
        events.len() > 0 ==> trace(m, events) == seq![Action::CloseTab] && run(
            m,
            events,
        ).pending is Finish,
{
    if events.len() > 0 {
        let next = advance(m, events[0]);
        law_closed_is_final(next, events.drop_first());
        assert(trace(next, events.drop_first()) =~= Seq::empty());
        assert(trace(m, events) =~= seq![Action::CloseTab]);
    }
}

/// What a session carries out from where it stands: a stretch of the
/// script, then, unless no tab was opened, the closing of the tab. Returns
/// where the stretch ends.
pub proof fn lemma_trace(m: SessionModel, events: Seq<EventModel>) -> (to: int)
    requires
        consistent(m),
        m.outcome.is_none(),
    ensures
        follows_script(trace(m, events), script(m), place(m), to),
        run(m, events).outcome.is_none() ==> to == place(run(m, events)) && trace(m, events)
            == script(m).subrange(place(m), to),
        run(m, events).outcome matches Some(Ok(_)) ==> to == script(m).len() - 1,
        run(m, events).pending is Finish ==> trace(m, events) == script(m).subrange(
            place(m),
            to,
        ).push(Action::CloseTab) || (m.pending is OpenTab && to == 1 && trace(m, events)
            == seq![Action::OpenTab] && run(m, events).outcome == Some(
            Err::<Seq<char>, ProxyError>(ProxyError::TabCreation),
        )),
    decreases events.len(),
{
    let s = script(m);
    let p = place(m);
    lemma_place(m);
    if events.len() == 0 {
        assert(trace(m, events) =~= s.subrange(p, p));
        p
    } else {
        let e = events[0];
        let rest = events.drop_first();
        let next = advance(m, e);
        lemma_advance(m, e);
        lemma_place(next);
        assert(trace(m, events) == seq![m.pending] + trace(next, rest));
        assert(run(m, events) == run(next, rest));
        if next.outcome.is_none() {
            assert(place(next) == p + 1);
            let to = lemma_trace(next, rest);
            assert(seq![m.pending] + s.subrange(p + 1, to) =~= s.subrange(p, to));
            assert(seq![m.pending] + s.subrange(p + 1, to).push(Action::CloseTab) =~= s.subrange(
                p,
                to,
            ).push(Action::CloseTab));
            to
        } else if next.pending is Finish {
            law_closed_is_final(next, rest);
            assert(trace(next, rest) =~= Seq::empty());
            assert(trace(m, events) =~= seq![Action::OpenTab]);
            assert(s.subrange(0, 1) =~= seq![Action::OpenTab]);
            1
        } else {
            law_outcome_is_kept(next, rest);
            lemma_closing(next, rest);
            assert(seq![m.pending] + Seq::<Action>::empty() =~= s.subrange(p, p + 1));
            assert(seq![m.pending] + seq![Action::CloseTab] =~= s.subrange(p, p + 1).push(
                Action::CloseTab,
            ));
            p + 1
        }
    }
}

/// The order of a request is fixed: whatever the browser does, what a
/// session carries out from its beginning is a stretch of the script from
/// its first action on, followed, once the outcome is decided and a tab is
/// open, by the closing of the tab.
pub proof fn law_script_order(m: SessionModel, events: Seq<EventModel>)
    requires
        consistent(m),
        m.pending is OpenTab,
    ensures
        exists|to: int| follows_script(trace(m, events), script(m), 0, to),
{
    let to = lemma_trace(m, events);
}

/// While nothing has failed, a session has carried out exactly the script
/// up to its pending action. So when the navigation is pending, the tab is
/// open, the image filter is installed if it was asked for, every cookie is
/// applied in its order and the headers are applied, each once.
pub proof fn law_script_so_far(m: SessionModel, events: Seq<EventModel>)
    requires
        consistent(m),
        m.pending is OpenTab,
        run(m, events).outcome.is_none(),
    ensures
        trace(m, events) == script(m).subrange(0, place(run(m, events))),
        script(m)[place(run(m, events))] == run(m, events).pending,
{
    let to = lemma_trace(m, events);
    lemma_run_consistent(m, events);
    lemma_place(run(m, events));
}

/// The image filter comes before the navigation: when a session that was
/// asked to keep images out has its navigation pending, it has installed
/// the filter, right after opening the tab; a session that was not asked
/// never installs it.
pub proof fn law_filter_before_navigation(m: SessionModel, events: Seq<EventModel>)
    requires
        consistent(m),
        m.pending is OpenTab,
    ensures
        m.block_images && run(m, events).outcome.is_none() && run(m, events).pending
            == navigation(m) ==> trace(m, events).len() > 1 && trace(m, events)[1]
            == Action::BlockImages,
        !m.block_images ==> forall|i: int|
            0 <= i < trace(m, events).len() ==> !(#[trigger] trace(m, events)[i] is BlockImages),
{
    let to = lemma_trace(m, events);
    lemma_place(m);
    lemma_run_consistent(m, events);
    lemma_place(run(m, events));
    let done = trace(m, events);
    let s = script(m);
    if m.block_images && run(m, events).outcome.is_none() && run(m, events).pending == navigation(
        m,
    ) {
        assert(done == s.subrange(0, to));
        assert(done[1] == s[1]);
    }
    if !m.block_images {
        assert forall|i: int| 0 <= i < done.len() implies !(#[trigger] done[i] is BlockImages) by {
            if i < to {
                assert(done[i] == s[i]);
            }
        }
    }
}

/// A request succeeds only by the whole script: a session that is over with
/// a document has carried out every action of the script, each once and in
/// order.
pub proof fn law_success_is_complete(m: SessionModel, events: Seq<EventModel>)
    requires
        consistent(m),
        m.pending is OpenTab,
        run(m, events).pending is Finish,
        run(m, events).outcome matches Some(Ok(_)),
    ensures
        trace(m, events) == script(m),
{
    let to = lemma_trace(m, events);
    lemma_place(m);
    assert(script(m).subrange(0, to).push(Action::CloseTab) =~= script(m));
}

/// The handle is needed once: of all that a session carries out, only the
/// first action, the opening of the tab, goes to the browser handle that
/// the requests share; everything after it concerns the session's own tab.
pub proof fn law_handle_needed_once(m: SessionModel, events: Seq<EventModel>)
    requires
        consistent(m),
        m.pending is OpenTab,
    ensures
        forall|i: int| 0 < i < trace(m, events).len() ==> !(#[trigger] trace(m, events)[i] is OpenTab),
{
    let to = lemma_trace(m, events);
    lemma_place(m);
    let done = trace(m, events);
    let s = script(m);
    assert forall|i: int| 0 < i < done.len() implies !(#[trigger] done[i] is OpenTab) by {
        if i < to {
            assert(done[i] == s[i]);
        }
    }
}

/// The errors of a session are its own: whatever the browser does, no
/// session ends with an error of the configuration or of the shared
/// browser process.
pub proof fn law_session_errors_are_local(m: SessionModel, events: Seq<EventModel>)
    requires
        consistent(m),
        m.outcome matches Some(Err(e)) ==> request_scoped(e),
    ensures
        run(m, events).outcome matches Some(Err(e)) ==> request_scoped(e),
    decreases events.len(),
{
    if events.len() > 0 {
        lemma_advance(m, events[0]);
        law_session_errors_are_local(advance(m, events[0]), events.drop_first());
    }
}

/// A wait that times out decides the outcome as a timeout, and the tab is
/// closed next; with the report of the closing the session is over.
pub proof fn law_timeout_closes(m: SessionModel, closing: EventModel)
    requires
        consistent(m),
        m.pending is AwaitLoaded,
    ensures
        m.pending == Action::AwaitLoaded(m.timeout),
        advance(m, EventModel::TimedOut).pending == Action::CloseTab,
        advance(m, EventModel::TimedOut).outcome == Some(
            Err::<Seq<char>, ProxyError>(ProxyError::Timeout),
        ),
        advance(advance(m, EventModel::TimedOut), closing).pending == Action::Finish,
        advance(advance(m, EventModel::TimedOut), closing).outcome == Some(
            Err::<Seq<char>, ProxyError>(ProxyError::Timeout),
        ),
{
}

} // verus!
