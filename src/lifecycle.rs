//! Lifecycle of the pipeline and of the spans opened through it: the pipeline
//! is started once, each span is closed exactly once, and shutdown happens
//! once, after every span is closed, handing all finished spans to the flush.
use vstd::prelude::*;

verus! {

/// Where the pipeline stands in its lifecycle.
#[derive(PartialEq, Eq, Structural, Clone, Copy, Debug)]
pub enum Phase {
    Idle,
    Running,
    Stopped,
}

#[derive(PartialEq, Eq, Structural, Clone, Copy, Debug)]
pub enum LifecycleError {
    /// The pipeline was started before.
    AlreadyStarted,
    /// The pipeline is not running.
    NotRunning,
    /// The pipeline was shut down before.
    AlreadyStopped,
    /// The span was not opened by this pipeline, or is closed.
    SpanNotOpen,
    /// Shutdown was asked for while spans are still open.
    SpansStillOpen,
    /// No fresh span identifier or event count is left.
    CounterExhausted,
}

/// What a shutdown hands to the final flush.
#[derive(PartialEq, Eq, Structural, Clone, Copy, Debug)]
pub struct FlushSummary {
    pub spans: u64,
    pub events: u64,
}

/// An open span of one pipeline. It cannot be copied: closing it consumes it.
pub struct SpanHandle {
    owner: u64,
    id: u64,
}

impl SpanHandle {
    /// Tag of the pipeline that opened the span.
    pub closed spec fn spec_owner(&self) -> u64 {
        self.owner
    }

    pub closed spec fn spec_id(&self) -> u64 {
        self.id
    }

    pub fn id(&self) -> (r: u64)
        ensures
            r == self.spec_id(),
    {
        self.id
    }
}

/// The single holder of the pipeline's lifecycle state.
pub struct PipelineLifecycle {
    owner: u64,
    phase: Phase,
    next_id: u64,
    open: Vec<u64>,
    finished: u64,
    events: u64,
}

impl PipelineLifecycle {
    /// Tag that this pipeline gives its span handles.
    pub closed spec fn owner(&self) -> u64 {
        self.owner
    }

    pub closed spec fn phase(&self) -> Phase {
        self.phase
    }

    /// Identifiers of the spans that are open.
    pub closed spec fn open_spans(&self) -> Set<u64> {
        self.open@.to_set()
    }

    /// The identifier the next span will get.
    pub closed spec fn fresh_id(&self) -> u64 {
        self.next_id
    }

    /// Number of spans closed so far.
    pub closed spec fn spans_finished(&self) -> u64 {
        self.finished
    }

    /// Number of events recorded so far.
    pub closed spec fn events_recorded(&self) -> u64 {
        self.events
    }

    pub closed spec fn wf(&self) -> bool {
        &&& self.open@.no_duplicates()
        &&& forall|i: int| 0 <= i < self.open@.len() ==> #[trigger] self.open@[i] < self.next_id
        &&& self.finished + self.open@.len() <= self.next_id
        &&& self.phase != Phase::Running ==> self.open@.len() == 0
    }

    pub open spec fn is_open(&self, id: u64) -> bool {
        self.open_spans().contains(id)
    }

    /// `span` was opened by this pipeline and is still open.
    pub open spec fn holds(&self, span: &SpanHandle) -> bool {
        span.spec_owner() == self.owner() && self.is_open(span.spec_id())
    }

    /// `post` is `pre` with one more span open, whose identifier is `id`.
    pub open spec fn opened(pre: Self, post: Self, id: u64) -> bool {
        &&& pre.phase() == Phase::Running
        &&& id == pre.fresh_id()
        &&& post.owner() == pre.owner()
        &&& post.phase() == pre.phase()
        &&& post.open_spans() == pre.open_spans().insert(id)
        &&& post.fresh_id() == pre.fresh_id() + 1
        &&& post.spans_finished() == pre.spans_finished()
        &&& post.events_recorded() == pre.events_recorded()
    }

    /// `post` is `pre` with the open span `id` closed and counted as finished.
    pub open spec fn closed(pre: Self, post: Self, id: u64) -> bool {
        &&& pre.is_open(id)
        &&& post.owner() == pre.owner()
        &&& post.phase() == pre.phase()
        &&& post.open_spans() == pre.open_spans().remove(id)
        &&& post.fresh_id() == pre.fresh_id()
        &&& post.spans_finished() == pre.spans_finished() + 1
        &&& post.events_recorded() == pre.events_recorded()
    }

    /// `post` is `pre` shut down, and `summary` holds every span finished and
    /// every event recorded before.
    pub open spec fn shut_down(pre: Self, post: Self, summary: FlushSummary) -> bool {
        &&& pre.phase() == Phase::Running
        &&& pre.open_spans().is_empty()
        &&& post.phase() == Phase::Stopped
        &&& post.owner() == pre.owner()
        &&& summary.spans == pre.spans_finished()
        &&& summary.events == pre.events_recorded()
        &&& post.open_spans() == pre.open_spans()
        &&& post.fresh_id() == pre.fresh_id()
        &&& post.spans_finished() == pre.spans_finished()
        &&& post.events_recorded() == pre.events_recorded()
    }

    /// A pipeline that is not started yet. Its span handles carry `owner`, so
    /// pipelines given distinct tags do not accept each other's spans.
    pub fn new(owner: u64) -> (r: Self)
        ensures
            r.wf(),
            r.owner() == owner,
            r.phase() == Phase::Idle,
            r.open_spans().is_empty(),
            r.fresh_id() == 0,
            r.spans_finished() == 0,
            r.events_recorded() == 0,
    {
        let r = PipelineLifecycle { owner, phase: Phase::Idle, next_id: 0, open: Vec::new(), finished: 0, events: 0 };
        proof {
            assert(r.open@.to_set() =~= Set::<u64>::empty());
        }
        r
    }

    /// Starts the pipeline; this succeeds once only.
    pub fn start(&mut self) -> (r: Result<(), LifecycleError>)
        requires
            old(self).wf(),
        ensures
            final(self).wf(),
            r is Ok <==> old(self).phase() == Phase::Idle,
            old(self).phase() == Phase::Running ==> r == Err::<(), LifecycleError>(LifecycleError::AlreadyStarted),
            old(self).phase() == Phase::Stopped ==> r == Err::<(), LifecycleError>(LifecycleError::AlreadyStopped),
            r is Ok ==> final(self).phase() == Phase::Running,
            r is Err ==> final(self).phase() == old(self).phase(),
            final(self).owner() == old(self).owner(),
            final(self).open_spans() == old(self).open_spans(),
            final(self).fresh_id() == old(self).fresh_id(),
            final(self).spans_finished() == old(self).spans_finished(),
            final(self).events_recorded() == old(self).events_recorded(),
    {
        match self.phase {
            Phase::Idle => {
                self.phase = Phase::Running;
                Ok(())
            },
            Phase::Running => Err(LifecycleError::AlreadyStarted),
            Phase::Stopped => Err(LifecycleError::AlreadyStopped),
        }
    }

    pub fn is_running(&self) -> (r: bool)
        ensures
            r == (self.phase() == Phase::Running),
    {
        self.phase == Phase::Running
    }

    /// Opens a span with a fresh identifier.
    pub fn open_span(&mut self) -> (r: Result<SpanHandle, LifecycleError>)
        requires
            old(self).wf(),
        ensures
            final(self).wf(),
            match r {
                Ok(h) => Self::opened(*old(self), *final(self), h.spec_id()) && h.spec_owner() == old(self).owner(),
                Err(e) => *final(self) == *old(self) && (if old(self).phase() != Phase::Running {
                    e == LifecycleError::NotRunning
                } else {
                    e == LifecycleError::CounterExhausted && old(self).fresh_id() == u64::MAX
                }),
            },
            old(self).phase() == Phase::Running && old(self).fresh_id() < u64::MAX ==> r is Ok,
    {
        if self.phase != Phase::Running {
            return Err(LifecycleError::NotRunning);
        }
        if self.next_id == u64::MAX {
            return Err(LifecycleError::CounterExhausted);
        }
        let id = self.next_id;
        let ghost pre = *self;
        self.open.push(id);
        self.next_id = id + 1;
        proof {
            assert(self.open@ == pre.open@.push(id));
            assert(!pre.open@.contains(id));
            assert(self.open@.to_set() =~= pre.open@.to_set().insert(id)) by {
                assert forall|x: u64| self.open@.contains(x) <==> (pre.open@.contains(x) || x == id) by {
                    if self.open@.contains(x) {
                        let k = choose|k: int| 0 <= k < self.open@.len() && self.open@[k] == x;
                        if k < pre.open@.len() {
                            assert(pre.open@[k] == x);
                        }
                    }
                    if pre.open@.contains(x) {
                        let k = choose|k: int| 0 <= k < pre.open@.len() && pre.open@[k] == x;
                        assert(self.open@[k] == x);
                    }
                    if x == id {
                        assert(self.open@[pre.open@.len() as int] == id);
                    }
                }
            }
            assert forall|i: int| 0 <= i < self.open@.len() implies #[trigger] self.open@[i] < self.next_id by {
                if i < pre.open@.len() {
                    assert(self.open@[i] == pre.open@[i]);
                }
            }
            assert(self.open@.no_duplicates()) by {
                assert forall|i: int, j: int|
                    0 <= i < self.open@.len() && 0 <= j < self.open@.len() && i != j
                    implies self.open@[i] != self.open@[j] by {
                    if i < pre.open@.len() && j < pre.open@.len() {
                        assert(pre.open@[i] != pre.open@[j]);
                    } else if i < pre.open@.len() {
                        assert(pre.open@[i] < id);
                    } else {
                        assert(pre.open@[j] < id);
                    }
                }
            }
        }
        Ok(SpanHandle { owner: self.owner, id })
    }

    /// Position of `id` among the open spans, if it is open.
    fn position(&self, id: u64) -> (r: Option<usize>)
        ensures
            match r {
                Some(i) => i < self.open@.len() && self.open@[i as int] == id,
                None => !self.open@.contains(id),
            },
    {
        let mut i: usize = 0;
        while i < self.open.len()
            invariant
                i <= self.open@.len(),
                forall|j: int| 0 <= j < i ==> self.open@[j] != id,
            decreases self.open@.len() - i,
        {
            if self.open[i] == id {
                return Some(i);
            }
            i = i + 1;
        }
        None
    }

    /// Records an event on an open span.
    pub fn record_event(&mut self, span: &SpanHandle) -> (r: Result<(), LifecycleError>)
        requires
            old(self).wf(),
        ensures
            final(self).wf(),
            match r {
                Ok(()) => {
                    &&& old(self).holds(span)
                    &&& final(self).owner() == old(self).owner()
                    &&& final(self).events_recorded() == old(self).events_recorded() + 1
                    &&& final(self).phase() == old(self).phase()
                    &&& final(self).open_spans() == old(self).open_spans()
                    &&& final(self).fresh_id() == old(self).fresh_id()
                    &&& final(self).spans_finished() == old(self).spans_finished()
                },
                Err(e) => *final(self) == *old(self) && (if !old(self).holds(span) {
                    e == LifecycleError::SpanNotOpen
                } else {
                    e == LifecycleError::CounterExhausted && old(self).events_recorded() == u64::MAX
                }),
            },
            old(self).holds(span) && old(self).events_recorded() < u64::MAX ==> r is Ok,
    {
        if span.owner != self.owner {
            return Err(LifecycleError::SpanNotOpen);
        }
        match self.position(span.id) {
            None => Err(LifecycleError::SpanNotOpen),
            Some(_) => {
                if self.events == u64::MAX {
                    Err(LifecycleError::CounterExhausted)
                } else {
                    self.events = self.events + 1;
                    Ok(())
                }
            },
        }
    }

    /// Closes an open span; the handle is consumed, so it cannot be closed again.
    pub fn close_span(&mut self, span: SpanHandle) -> (r: Result<(), LifecycleError>)
        requires
            old(self).wf(),
        ensures
            final(self).wf(),
            r is Ok <==> old(self).holds(&span),
            r is Ok ==> Self::closed(*old(self), *final(self), span.spec_id()),
            r is Err ==> r == Err::<(), LifecycleError>(LifecycleError::SpanNotOpen) && *final(self) == *old(self),
    {
        if span.owner != self.owner {
            return Err(LifecycleError::SpanNotOpen);
        }
        match self.position(span.id) {
            None => Err(LifecycleError::SpanNotOpen),
            Some(i) => {
                let ghost pre = *self;
                let id = self.open.remove(i);
                proof {
                    assert(self.open@ == pre.open@.remove(i as int));
                    assert(self.open@.to_set() =~= pre.open@.to_set().remove(id)) by {
                        assert forall|x: u64| self.open@.contains(x) <==> (pre.open@.contains(x) && x != id) by {
                            if pre.open@.contains(x) && x != id {
                                let k = choose|k: int| 0 <= k < pre.open@.len() && pre.open@[k] == x;
                                if k < i {
                                    assert(self.open@[k] == x);
                                } else {
                                    assert(k != i);
                                    assert(self.open@[k - 1] == x);
                                }
                            }
                            if self.open@.contains(x) {
                                let k = choose|k: int| 0 <= k < self.open@.len() && self.open@[k] == x;
                                if k < i {
                                    assert(pre.open@[k] == x);
                                    assert(k != i);
                                } else {
                                    assert(pre.open@[k + 1] == x);
                                    assert(k + 1 != i);
                                }
                            }
                        }
                    }
                    assert forall|a: int| 0 <= a < self.open@.len() implies #[trigger] self.open@[a] < self.next_id by {
                        if a < i {
                            assert(self.open@[a] == pre.open@[a]);
                        } else {
                            assert(self.open@[a] == pre.open@[a + 1]);
                        }
                    }
                    assert(self.open@.no_duplicates()) by {
                        assert forall|a: int, b: int|
                            0 <= a < self.open@.len() && 0 <= b < self.open@.len() && a != b
                            implies self.open@[a] != self.open@[b] by {
                            let pa = if a < i { a } else { a + 1 };
                            let pb = if b < i { b } else { b + 1 };
                            assert(self.open@[a] == pre.open@[pa]);
                            assert(self.open@[b] == pre.open@[pb]);
                        }
                    }
                }
                self.finished = self.finished + 1;
                Ok(())
            },
        }
    }

    /// Shuts the pipeline down, once, after every span is closed; returns what
    /// the final flush must export.
    pub fn shutdown(&mut self) -> (r: Result<FlushSummary, LifecycleError>)
        requires
            old(self).wf(),
        ensures
            final(self).wf(),
            match r {
                Ok(summary) => Self::shut_down(*old(self), *final(self), summary),
                Err(e) => *final(self) == *old(self) && e == (match old(self).phase() {
                    Phase::Idle => LifecycleError::NotRunning,
                    Phase::Stopped => LifecycleError::AlreadyStopped,
                    Phase::Running => LifecycleError::SpansStillOpen,
                }),
            },
            r is Ok <==> (old(self).phase() == Phase::Running && old(self).open_spans().is_empty()),
    {
        match self.phase {
            Phase::Idle => Err(LifecycleError::NotRunning),
            Phase::Stopped => Err(LifecycleError::AlreadyStopped),
            Phase::Running => {
                if self.open.len() > 0 {
                    proof {
                        assert(self.open@.to_set().contains(self.open@[0]));
                    }
                    Err(LifecycleError::SpansStillOpen)
                } else {
                    proof {
                        assert(self.open@.to_set() =~= Set::<u64>::empty());
                    }
                    self.phase = Phase::Stopped;
                    Ok(FlushSummary { spans: self.finished, events: self.events })
                }
            },
        }
    }
}

/// A span that is opened and then closed is closed exactly once: afterwards it
/// is no longer open, so closing it again fails, and the open spans are those
/// from before it was opened, so none is leaked.
pub proof fn lemma_span_closes_once(
    s0: PipelineLifecycle,
    s1: PipelineLifecycle,
    s2: PipelineLifecycle,
    id: u64,
)
    requires
        s0.wf(),
        PipelineLifecycle::opened(s0, s1, id),
        PipelineLifecycle::closed(s1, s2, id),
    ensures
        !s2.is_open(id),
        s2.open_spans() == s0.open_spans(),
        s2.spans_finished() == s0.spans_finished() + 1,
{
    if s0.open@.contains(id) {
        let k = choose|k: int| 0 <= k < s0.open@.len() && s0.open@[k] == id;
        assert(s0.open@[k] < s0.next_id);
    }
    assert(s2.open_spans() =~= s0.open_spans());
}

/// A shutdown that succeeds hands to the flush every span closed and every
/// event recorded before it, leaves no span open, and leaves the pipeline
/// stopped, so a second shutdown does not succeed.
pub proof fn lemma_shutdown_flushes_all(
    s0: PipelineLifecycle,
    s1: PipelineLifecycle,
    summary: FlushSummary,
)
    requires
        s0.wf(),
        PipelineLifecycle::shut_down(s0, s1, summary),
    ensures
        summary.spans == s0.spans_finished(),
        summary.events == s0.events_recorded(),
        s1.open_spans().is_empty(),
        s1.phase() != Phase::Running,
{
}

} // verus!
