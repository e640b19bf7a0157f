//! What the smoke host keeps between calls: its texture sessions per
//! engine and the diagnostics behind its snapshot.
use std::collections::HashMap;

use vstd::prelude::*;

use super::events::{FfiEventKind, SmokeEventSummary};

verus! {

broadcast use vstd::std_specs::hash::group_hash_axioms;

/// How many events of one request the smoke host keeps.
pub const MAX_REQUEST_EVENT_HISTORY: usize = 6;

/// A texture acquired for an engine.
#[derive(Clone, Copy, Debug, PartialEq, Eq, Structural)]
pub struct SmokeSession {
    pub engine_handle: i64,
    pub source_id: u64,
    pub request_id: u64,
    pub texture_id: i64,
    pub released: bool,
}

/// The request last made for an engine.
#[derive(Clone, Copy, Debug, PartialEq, Eq, Structural)]
pub struct TrackedRequest {
    pub request_id: u64,
    pub source_id: u64,
}

/// How often a source was resolved, and its latest generation.
#[derive(Clone, Copy, Debug, PartialEq, Eq, Structural)]
pub struct SmokeSourceSummary {
    pub resolve_count: u32,
    pub latest_generation: u32,
}

impl Default for SmokeSourceSummary {
    fn default() -> (s: Self)
        ensures
            s.resolve_count == 0 && s.latest_generation == 0,
    {
        SmokeSourceSummary { resolve_count: 0, latest_generation: 0 }
    }
}

/// The sources that the smoke host can resolve, and the generation of the
/// latest source it created.
pub struct AndroidSmokeSourceProvider {
    generation: u32,
    source_ids: &'static [u64],
}

impl AndroidSmokeSourceProvider {
    /// The generation of the latest source created (zero before the first).
    pub closed spec fn spec_generation(&self) -> u32 {
        self.generation
    }

    /// The sources it resolves.
    pub closed spec fn spec_source_ids(&self) -> Seq<u64> {
        self.source_ids@
    }

    pub fn new(source_ids: &'static [u64]) -> (p: Self)
        ensures
            p.spec_generation() == 0,
            p.spec_source_ids() == source_ids@,
    {
        AndroidSmokeSourceProvider { generation: 0, source_ids }
    }

    /// The generation of the next source created: one more than the last.
    pub fn next_generation(&mut self) -> (g: u32)
        requires
            old(self).spec_generation() < u32::MAX,
        ensures
            g == old(self).spec_generation() + 1,
            final(self).spec_generation() == g,
            final(self).spec_source_ids() == old(self).spec_source_ids(),
    {
        self.generation = self.generation + 1;
        self.generation
    }

    /// Whether it resolves `source_id`.
    pub fn provides(&self, source_id: u64) -> (r: bool)
        ensures
            r == self.spec_source_ids().contains(source_id),
    {
        let mut i: usize = 0;
        while i < self.source_ids.len()
            invariant
                0 <= i <= self.source_ids@.len(),
                forall|j: int| 0 <= j < i ==> self.source_ids@[j] != source_id,
            decreases self.source_ids@.len() - i,
        {
            if self.source_ids[i] == source_id {
                assert(self.source_ids@[i as int] == source_id);
                return true;
            }
            i = i + 1;
        }
        false
    }
}

/// The session of `engine_handle` whose texture a release would give
/// back: none when there is no session or it was released already.
pub open spec fn pending_of(sessions: Map<i64, SmokeSession>, engine_handle: i64) -> Option<SmokeSession> {
    if sessions.contains_key(engine_handle) && !sessions[engine_handle].released {
        Some(sessions[engine_handle])
    } else {
        None
    }
}

/// The sessions after the one of `engine_handle`, if any, is marked
/// released; it stays for the engine teardown of the next acquire.
pub open spec fn released_in(sessions: Map<i64, SmokeSession>, engine_handle: i64) -> Map<i64, SmokeSession> {
    if sessions.contains_key(engine_handle) {
        sessions.insert(engine_handle, SmokeSession { released: true, ..sessions[engine_handle] })
    } else {
        sessions
    }
}

/// A released (or missing) session gives nothing more to release, and
/// releasing it again changes nothing: of two releases in a row the second
/// finds nothing to give back.
pub proof fn law_second_release_finds_nothing(sessions: Map<i64, SmokeSession>, engine_handle: i64)
    ensures
        pending_of(released_in(sessions, engine_handle), engine_handle) == None::<SmokeSession>,
        released_in(released_in(sessions, engine_handle), engine_handle) == released_in(
            sessions,
            engine_handle,
        ),
{
    let once = released_in(sessions, engine_handle);
    assert(released_in(once, engine_handle) =~= once);
}

/// A texture to give back: its request and engine.
#[derive(Clone, Copy, Debug, PartialEq, Eq, Structural)]
pub struct TextureRelease {
    pub request_id: u64,
    pub engine_handle: i64,
}

/// The cleanup before a new acquire of an engine that had a session: give
/// back the session's texture unless that was done already, then
/// unregister the engine and drain the request's events.
#[derive(Clone, Copy, Debug, PartialEq, Eq, Structural)]
pub struct SessionTeardown {
    /// The texture still to be given back, if any.
    pub release: Option<TextureRelease>,
    /// The engine to unregister.
    pub unregister_engine: i64,
    /// The request whose events are drained at the end.
    pub drain_request: u64,
}

/// The cleanup owed for a session taken before a new acquire: none
/// without a session.
pub open spec fn session_teardown(session: Option<SmokeSession>) -> Option<SessionTeardown> {
    match session {
        Some(s) => Some(SessionTeardown {
            release: if s.released {
                None
            } else {
                Some(TextureRelease { request_id: s.request_id, engine_handle: s.engine_handle })
            },
            unregister_engine: s.engine_handle,
            drain_request: s.request_id,
        }),
        None => None,
    }
}

pub fn teardown_of(session: Option<SmokeSession>) -> (t: Option<SessionTeardown>)
    ensures
        t == session_teardown(session),
{
    match session {
        Some(s) => Some(SessionTeardown {
            release: if s.released {
                None
            } else {
                Some(TextureRelease { request_id: s.request_id, engine_handle: s.engine_handle })
            },
            unregister_engine: s.engine_handle,
            drain_request: s.request_id,
        }),
        None => None,
    }
}

/// A texture is given back once over a release and the teardown of the
/// next acquire: a session that `release_texture` gave back (marked
/// released) owes no second release at teardown, while one never given
/// back is released then.
pub proof fn law_texture_given_back_once(sessions: Map<i64, SmokeSession>, engine_handle: i64)
    requires
        sessions.contains_key(engine_handle),
    ensures
        session_teardown(Some(released_in(sessions, engine_handle)[engine_handle])).unwrap().release
            == None::<TextureRelease>,
        !sessions[engine_handle].released ==> session_teardown(Some(sessions[engine_handle])).unwrap().release
            == Some(
            TextureRelease {
                request_id: sessions[engine_handle].request_id,
                engine_handle: sessions[engine_handle].engine_handle,
            },
        ),
{
}

/// The sessions of the smoke host, one per engine.
pub struct SmokeSessions {
    sessions: HashMap<i64, SmokeSession>,
}

impl SmokeSessions {
    /// The session of each engine.
    pub closed spec fn view_sessions(&self) -> Map<i64, SmokeSession> {
        self.sessions@
    }

    pub fn new() -> (s: Self)
        ensures
            s.view_sessions() == Map::<i64, SmokeSession>::empty(),
    {
        SmokeSessions { sessions: HashMap::new() }
    }

    /// The session of an engine.
    pub fn get(&self, engine_handle: i64) -> (s: Option<SmokeSession>)
        ensures
            s == (if self.view_sessions().contains_key(engine_handle) {
                Some(self.view_sessions()[engine_handle])
            } else {
                None
            }),
    {
        match self.sessions.get(&engine_handle) {
            Some(s) => Some(*s),
            None => None,
        }
    }

    /// The session whose texture a release would give back: the engine's
    /// session unless there is none or it was released already (it then
    /// only awaits the engine teardown of the next acquire).
    pub fn pending_release(&self, engine_handle: i64) -> (s: Option<SmokeSession>)
        ensures
            s == pending_of(self.view_sessions(), engine_handle),
    {
        match self.sessions.get(&engine_handle) {
            Some(s) => {
                if s.released {
                    None
                } else {
                    Some(*s)
                }
            },
            None => None,
        }
    }

    /// Records a new, unreleased session for an engine.
    pub fn store(&mut self, engine_handle: i64, source_id: u64, request_id: u64, texture_id: i64)
        ensures
            final(self).view_sessions() == old(self).view_sessions().insert(
                engine_handle,
                SmokeSession { engine_handle, source_id, request_id, texture_id, released: false },
            ),
    {
        self.sessions.insert(
            engine_handle,
            SmokeSession { engine_handle, source_id, request_id, texture_id, released: false },
        );
    }

    /// Marks an engine's session as released, keeping it for the engine
    /// teardown that the next acquire performs.
    pub fn mark_released(&mut self, engine_handle: i64)
        ensures
            final(self).view_sessions() == released_in(old(self).view_sessions(), engine_handle),
    {
        match self.sessions.get(&engine_handle) {
            Some(s) => {
                let released = SmokeSession { released: true, ..*s };
                self.sessions.insert(engine_handle, released);
            },
            None => {},
        }
    }

    /// Removes and returns an engine's session.
    pub fn take(&mut self, engine_handle: i64) -> (s: Option<SmokeSession>)
        ensures
            final(self).view_sessions() == old(self).view_sessions().remove(engine_handle),
            s == (if old(self).view_sessions().contains_key(engine_handle) {
                Some(old(self).view_sessions()[engine_handle])
            } else {
                None
            }),
    {
        self.sessions.remove(&engine_handle)
    }
}

/// A request's history after `event`: the newest events, at most
/// `MAX_REQUEST_EVENT_HISTORY` of them, oldest first.
pub open spec fn bounded_history(history: Seq<SmokeEventSummary>, event: SmokeEventSummary) -> Seq<
    SmokeEventSummary,
> {
    let all = history.push(event);
    if all.len() > MAX_REQUEST_EVENT_HISTORY {
        all.subrange(all.len() - MAX_REQUEST_EVENT_HISTORY, all.len() as int)
    } else {
        all
    }
}

/// The diagnostics behind the smoke host's snapshot.
pub struct SmokeDiagnosticsState {
    last_request_by_engine: HashMap<i64, TrackedRequest>,
    last_event_by_engine: HashMap<i64, SmokeEventSummary>,
    recent_events_by_request: HashMap<u64, Vec<SmokeEventSummary>>,
    source_summary_by_id: HashMap<u64, SmokeSourceSummary>,
}

impl SmokeDiagnosticsState {
    /// The request last made for each engine.
    pub closed spec fn tracked_requests(&self) -> Map<i64, TrackedRequest> {
        self.last_request_by_engine@
    }

    /// The event last observed for each engine.
    pub closed spec fn last_events(&self) -> Map<i64, SmokeEventSummary> {
        self.last_event_by_engine@
    }

    /// Whether events are kept for a request.
    pub closed spec fn has_history(&self, request_id: u64) -> bool {
        self.recent_events_by_request@.contains_key(request_id)
    }

    /// The recent events kept for a request, oldest first.
    pub closed spec fn history(&self, request_id: u64) -> Seq<SmokeEventSummary> {
        if self.recent_events_by_request@.contains_key(request_id) {
            self.recent_events_by_request@[request_id]@
        } else {
            Seq::empty()
        }
    }

    /// Every request's kept history holds at most
    /// `MAX_REQUEST_EVENT_HISTORY` events.
    pub open spec fn histories_bounded(&self) -> bool {
        forall|r: u64| #[trigger] self.history(r).len() <= MAX_REQUEST_EVENT_HISTORY
    }

    /// The resolve summary of each source.
    pub closed spec fn source_summaries(&self) -> Map<u64, SmokeSourceSummary> {
        self.source_summary_by_id@
    }

    pub fn new() -> (s: Self)
        ensures
            s.tracked_requests() == Map::<i64, TrackedRequest>::empty(),
            s.last_events() == Map::<i64, SmokeEventSummary>::empty(),
            forall|r: u64| !s.has_history(r),
            s.histories_bounded(),
            s.source_summaries() == Map::<u64, SmokeSourceSummary>::empty(),
    {
        SmokeDiagnosticsState {
            last_request_by_engine: HashMap::new(),
            last_event_by_engine: HashMap::new(),
            recent_events_by_request: HashMap::new(),
            source_summary_by_id: HashMap::new(),
        }
    }

    /// A source was resolved to generation `generation`.
    pub fn track_source_resolve(&mut self, source_id: u64, generation: u32)
        ensures
            final(self).source_summaries() == old(self).source_summaries().insert(
                source_id,
                SmokeSourceSummary {
                    resolve_count: if old(self).source_summaries().contains_key(source_id) {
                        let c = old(self).source_summaries()[source_id].resolve_count;
                        if c == u32::MAX { c } else { (c + 1) as u32 }
                    } else {
                        1
                    },
                    latest_generation: generation,
                },
            ),
            final(self).tracked_requests() == old(self).tracked_requests(),
            final(self).last_events() == old(self).last_events(),
            forall|r: u64|
                final(self).has_history(r) == old(self).has_history(r) && final(self).history(r)
                    == old(self).history(r),
    {
        let current = match self.source_summary_by_id.get(&source_id) {
            Some(s) => *s,
            None => SmokeSourceSummary::default(),
        };
        let updated = SmokeSourceSummary {
            resolve_count: current.resolve_count.saturating_add(1),
            latest_generation: generation,
        };
        self.source_summary_by_id.insert(source_id, updated);
    }

    /// The resolve summary of a source.
    pub fn source_summary(&self, source_id: u64) -> (s: Option<SmokeSourceSummary>)
        ensures
            s == (if self.source_summaries().contains_key(source_id) {
                Some(self.source_summaries()[source_id])
            } else {
                None
            }),
    {
        match self.source_summary_by_id.get(&source_id) {
            Some(s) => Some(*s),
            None => None,
        }
    }

    /// The recent events of a request, if any were kept.
    pub fn recent_request_events(&self, request_id: u64) -> (events: Option<Vec<SmokeEventSummary>>)
        ensures
            !self.has_history(request_id) ==> events == None::<Vec<SmokeEventSummary>>,
            self.has_history(request_id) ==> (events matches Some(v) && v@ == self.history(
                request_id,
            )),
    {
        match self.recent_events_by_request.get(&request_id) {
            Some(events) => {
                let mut copy: Vec<SmokeEventSummary> = Vec::new();
                let mut i: usize = 0;
                while i < events.len()
                    invariant
                        0 <= i <= events@.len(),
                        copy@ == events@.take(i as int),
                    decreases events@.len() - i,
                {
                    copy.push(events[i]);
                    assert(events@.take(i + 1) =~= events@.take(i as int).push(events@[i as int]));
                    i = i + 1;
                }
                assert(events@.take(events@.len() as int) =~= events@);
                Some(copy)
            },
            None => None,
        }
    }

    /// The request last made for an engine.
    pub fn tracked_request(&self, engine_handle: i64) -> (t: Option<TrackedRequest>)
        ensures
            t == (if self.tracked_requests().contains_key(engine_handle) {
                Some(self.tracked_requests()[engine_handle])
            } else {
                None
            }),
    {
        match self.last_request_by_engine.get(&engine_handle) {
            Some(t) => Some(*t),
            None => None,
        }
    }

    /// The event last observed for an engine.
    pub fn last_event(&self, engine_handle: i64) -> (e: Option<SmokeEventSummary>)
        ensures
            e == (if self.last_events().contains_key(engine_handle) {
                Some(self.last_events()[engine_handle])
            } else {
                None
            }),
    {
        match self.last_event_by_engine.get(&engine_handle) {
            Some(e) => Some(*e),
            None => None,
        }
    }

    /// Remembers the request last made for an engine.
    pub fn track_request(&mut self, engine_handle: i64, request_id: u64, source_id: u64)
        ensures
            final(self).tracked_requests() == old(self).tracked_requests().insert(
                engine_handle,
                TrackedRequest { request_id, source_id },
            ),
            final(self).last_events() == old(self).last_events(),
            forall|r: u64|
                final(self).has_history(r) == old(self).has_history(r) && final(self).history(r)
                    == old(self).history(r),
            final(self).source_summaries() == old(self).source_summaries(),
    {
        self.last_request_by_engine.insert(engine_handle, TrackedRequest { request_id, source_id });
    }

    /// Records an observed event: it becomes its engine's last event and,
    /// unless it reports an engine gone, joins its request's history.
    pub fn record_event(&mut self, summary: SmokeEventSummary)
        ensures
            final(self).last_events() == old(self).last_events().insert(summary.engine_handle, summary),
            summary.event_kind != FfiEventKind::EngineGone ==> final(self).has_history(summary.request_id)
                && final(self).history(summary.request_id) == bounded_history(
                old(self).history(summary.request_id),
                summary,
            ),
            forall|r: u64|
                r != summary.request_id || summary.event_kind == FfiEventKind::EngineGone
                    ==> final(self).has_history(r) == old(self).has_history(r)
                    && final(self).history(r) == old(self).history(r),
            final(self).tracked_requests() == old(self).tracked_requests(),
            final(self).source_summaries() == old(self).source_summaries(),
            old(self).histories_bounded() ==> final(self).histories_bounded(),
    {
        self.last_event_by_engine.insert(summary.engine_handle, summary);
        if summary.event_kind == FfiEventKind::EngineGone {
            assert forall|r: u64| #[trigger] self.history(r) == old(self).history(r) by {}
            return;
        }
        let ghost old_state = *old(self);
        let ghost before = self.history(summary.request_id);
        let mut events = match self.recent_events_by_request.remove(&summary.request_id) {
            Some(v) => v,
            None => Vec::new(),
        };
        assert(events@ == before);
        events.push(summary);
        let kept = if events.len() > MAX_REQUEST_EVENT_HISTORY {
            let overflow = events.len() - MAX_REQUEST_EVENT_HISTORY;
            let mut rest: Vec<SmokeEventSummary> = Vec::new();
            let mut i: usize = overflow;
            while i < events.len()
                invariant
                    overflow <= i <= events@.len(),
                    rest@ == events@.subrange(overflow as int, i as int),
                decreases events@.len() - i,
            {
                rest.push(events[i]);
                assert(events@.subrange(overflow as int, i + 1) =~= events@.subrange(
                    overflow as int,
                    i as int,
                ).push(events@[i as int]));
                i = i + 1;
            }
            rest
        } else {
            events
        };
        assert(kept@ =~= bounded_history(before, summary));
        self.recent_events_by_request.insert(summary.request_id, kept);
        proof {
            if old_state.histories_bounded() {
                assert forall|r: u64| #[trigger] self.history(r).len() <= MAX_REQUEST_EVENT_HISTORY by {
                    if r == summary.request_id {
                        assert(old_state.history(r).len() <= MAX_REQUEST_EVENT_HISTORY);
                    } else {
                        assert(self.history(r) == old_state.history(r));
                    }
                }
            }
        }
    }
}

/// A request's history stays within `MAX_REQUEST_EVENT_HISTORY` events
/// and always ends with the event recorded last.
pub proof fn law_history_bounded_and_newest_last(history: Seq<SmokeEventSummary>, event: SmokeEventSummary)
    requires
        history.len() <= MAX_REQUEST_EVENT_HISTORY,
    ensures
        0 < bounded_history(history, event).len() <= MAX_REQUEST_EVENT_HISTORY,
        bounded_history(history, event).last() == event,
{
}

/// The next generation of a source in the lifecycle diagnostic: one more
/// than the last one handed out for it, starting at one.
pub fn next_lifecycle_generation(generations: &mut HashMap<u64, u32>, source_id: u64) -> (g: u32)
    requires
        old(generations)@.contains_key(source_id) ==> old(generations)@[source_id] < u32::MAX,
    ensures
        g == (if old(generations)@.contains_key(source_id) {
            old(generations)@[source_id] + 1
        } else {
            1
        }),
        final(generations)@ == old(generations)@.insert(source_id, g),
{
    let current = match generations.get(&source_id) {
        Some(g) => *g,
        None => 0,
    };
    let next = current + 1;
    generations.insert(source_id, next);
    next
}

} // verus!
