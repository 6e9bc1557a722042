//! The query controller: it owns the engine and the query in force, skips
//! a query that did not change, and ticks the engine until the matching has
//! settled or a ceiling set by the caller is reached.

use vstd::prelude::*;

use crate::engine::{bumped, spec_window, CasePolicy, EngineView, MatchEngine, TickStatus};
use crate::query::{spec_query_change, QueryChange};

verus! {

/// Whether a query change is still being worked off.
#[derive(Clone, Copy, Debug, PartialEq, Eq, Structural)]
pub enum ControllerState {
    /// No query change is pending.
    Idle,
    /// A query was set and the matching has not been seen to settle since.
    Converging,
}

/// The limits that a caller puts on one run of ticks.
#[derive(Clone, Copy, Debug, PartialEq, Eq, Structural)]
pub struct Ceiling {
    /// How long one tick may wait for the engine, in milliseconds.
    pub tick_ms: u64,
    /// The run ends with the tick that makes this many. One tick is always
    /// made.
    pub max_ticks: u64,
    /// The run ends with the first tick that returns after more than this
    /// many milliseconds.
    pub max_millis: u64,
}

/// What to do after a tick.
#[derive(Clone, Copy, Debug, PartialEq, Eq, Structural)]
pub enum Step {
    /// The engine has no more work: stop.
    Settled,
    /// The engine has more work, but the ceiling is reached: stop.
    CeilingHit,
    /// Tick again.
    Continue,
}

/// What to do after the tick that made `ticks` and returned `status`, when
/// `elapsed_ms` milliseconds have passed since the run began.
pub open spec fn spec_next_step(
    status: TickStatus,
    ticks: u64,
    elapsed_ms: u128,
    ceiling: Ceiling,
) -> Step {
    if !status.running {
        Step::Settled
    } else if ticks >= ceiling.max_ticks || elapsed_ms > ceiling.max_millis {
        Step::CeilingHit
    } else {
        Step::Continue
    }
}

/// Decides what follows a tick: see [`spec_next_step`].
pub fn next_step(status: TickStatus, ticks: u64, elapsed_ms: u128, ceiling: &Ceiling) -> (step:
    Step)
    ensures
        step == spec_next_step(status, ticks, elapsed_ms, *ceiling),
{
    if !status.running {
        Step::Settled
    } else if ticks >= ceiling.max_ticks || elapsed_ms > ceiling.max_millis as u128 {
        Step::CeilingHit
    } else {
        Step::Continue
    }
}

/// The controller's state after a tick that returned `status`.
pub open spec fn spec_state_after(state: ControllerState, status: TickStatus) -> ControllerState {
    if status.running {
        state
    } else {
        ControllerState::Idle
    }
}

/// How a run of ticks ended.
#[derive(Clone, Copy, Debug, PartialEq, Eq, Structural)]
pub struct Convergence {
    /// The last tick reported that no work remains.
    pub settled: bool,
    /// Some tick of the run reported a changed snapshot.
    pub changed: bool,
    /// How many ticks were made.
    pub ticks: u64,
}

/// What a controller holds, as mathematics. The query in force is the
/// engine's.
pub struct ControllerView {
    /// The engine that the controller drives.
    pub engine: EngineView,
    /// Whether a query change is still being worked off.
    pub state: ControllerState,
}

/// The controller's view after `query` was set on `old`.
pub open spec fn spec_after_set_query(old: ControllerView, query: Seq<char>) -> ControllerView {
    let change = spec_query_change(query, old.engine.query);
    if change == QueryChange::Unchanged {
        old
    } else {
        ControllerView {
            engine: EngineView {
                query,
                handed: Some((old.engine.case, change == QueryChange::Extended)),
                reparses: bumped(old.engine.reparses),
                extensions: if change == QueryChange::Extended {
                    bumped(old.engine.extensions)
                } else {
                    old.engine.extensions
                },
                ..old.engine
            },
            state: ControllerState::Converging,
        }
    }
}

/// Setting a query twice in a row is the same as setting it once: the
/// second time nothing is touched.
pub proof fn lemma_set_query_idempotent(view: ControllerView, query: Seq<char>)
    ensures
        spec_after_set_query(spec_after_set_query(view, query), query) == spec_after_set_query(
            view,
            query,
        ),
        query == view.engine.query ==> spec_after_set_query(view, query) == view,
{
}

/// The query controller.
pub struct QueryController {
    engine: MatchEngine,
    last_query: String,
    state: ControllerState,
}

impl View for QueryController {
    type V = ControllerView;

    closed spec fn view(&self) -> ControllerView {
        ControllerView { engine: self.engine@, state: self.state }
    }
}

impl QueryController {
    /// The engine is well-formed and the query kept for diffing is the one
    /// that the engine matches against.
    pub closed spec fn wf(&self) -> bool {
        &&& self.engine.wf()
        &&& self.last_query@ == self.engine@.query
    }

    /// A well-formed controller drives a valid engine.
    pub proof fn lemma_wf_valid(&self)
        requires
            self.wf(),
        ensures
            self@.engine.valid(),
    {
        self.engine.lemma_wf_valid();
    }

    /// A controller over a new, empty engine, with the empty query.
    pub fn new(case: CasePolicy) -> (controller: QueryController)
        ensures
            controller.wf(),
            controller@ == (ControllerView {
                engine: EngineView {
                    pool: vstd::multiset::Multiset::empty(),
                    query: Seq::empty(),
                    matched: Seq::empty(),
                    shown_query: Seq::empty(),
                    scanned: 0,
                    case,
                    handed: None,
                    reparses: 0,
                    extensions: 0,
                },
                state: ControllerState::Idle,
            }),
    {
        QueryController {
            engine: MatchEngine::new(case),
            last_query: String::new(),
            state: ControllerState::Idle,
        }
    }

    /// Hands one candidate to the engine, unless the engine is full.
    pub fn push(&mut self, candidate: String) -> (accepted: bool)
        requires
            old(self).wf(),
        ensures
            final(self).wf(),
            accepted == (old(self)@.engine.pool.len() < crate::engine::MAX_CANDIDATES),
            accepted ==> final(self)@ == (ControllerView {
                engine: EngineView {
                    pool: old(self)@.engine.pool.insert(candidate@),
                    ..old(self)@.engine
                },
                ..old(self)@
            }),
            !accepted ==> *final(self) == *old(self),
    {
        self.engine.push(candidate)
    }

    /// Makes `query` the query in force.
    ///
    /// The same query again is skipped: neither the controller nor the engine
    /// is touched. A new query is handed to the engine, with the hint that it
    /// extends the previous one exactly when it does, and the controller
    /// starts converging.
    pub fn set_query(&mut self, query: &str) -> (change: QueryChange)
        requires
            old(self).wf(),
        ensures
            final(self).wf(),
            change == spec_query_change(query@, old(self)@.engine.query),
            query@ == old(self)@.engine.query ==> *final(self) == *old(self),
            final(self)@ == spec_after_set_query(old(self)@, query@),
            final(self)@.engine.query == query@,
    {
        let change = self.engine.set_query(query, self.last_query.as_str());
        if change.needs_reparse() {
            self.last_query = query.to_owned();
            self.state = ControllerState::Converging;
        }
        change
    }

    /// One bounded tick of the engine. A tick that finds no work left ends the
    /// convergence.
    pub fn tick(&mut self, budget_ms: u64) -> (status: TickStatus)
        requires
            old(self).wf(),
        ensures
            final(self).wf(),
            final(self)@.engine.same_but_snapshot(old(self)@.engine),
            !status.changed ==> final(self)@.engine == old(self)@.engine,
            !status.running ==> final(self)@.engine.settled(),
            final(self)@.state == spec_state_after(old(self)@.state, status),
    {
        let status = self.engine.tick(budget_ms);
        if !status.running {
            self.state = ControllerState::Idle;
        }
        status
    }

    /// Ticks until the engine reports that no work remains or the ceiling is
    /// reached, whichever comes first; after each tick [`next_step`] decides.
    ///
    /// When the engine settles is up to its background workers, so the
    /// outcome is not determined by the arguments. Whatever it is: only the
    /// snapshot can have changed, and only if a tick said so; a settled run
    /// leaves the controller idle and any other leaves its state alone.
    pub fn converge(&mut self, ceiling: &Ceiling) -> (outcome: Convergence)
        requires
            old(self).wf(),
        ensures
            final(self).wf(),
            final(self)@.engine.same_but_snapshot(old(self)@.engine),
            !outcome.changed ==> final(self)@.engine == old(self)@.engine,
            outcome.settled ==> final(self)@.engine.settled(),
            outcome.settled ==> final(self)@.state == ControllerState::Idle,
            !outcome.settled ==> final(self)@.state == old(self)@.state,
            1 <= outcome.ticks,
            outcome.ticks <= ceiling.max_ticks || outcome.ticks == 1,
    {
        let started = std::time::Instant::now();
        let mut ticks: u64 = 0;
        let mut changed = false;
        loop
            invariant
                self.wf(),
                self@.engine.same_but_snapshot(old(self)@.engine),
                !changed ==> self@.engine == old(self)@.engine,
                self@.state == old(self)@.state,
                ticks == 0 || ticks < ceiling.max_ticks,
            decreases ceiling.max_ticks - ticks,
        {
            let status = self.tick(ceiling.tick_ms);
            ticks = ticks + 1;
            changed = changed || status.changed;
            let elapsed_ms = started.elapsed().as_millis();
            match next_step(status, ticks, elapsed_ms, ceiling) {
                Step::Settled => {
                    return Convergence { settled: true, changed, ticks };
                },
                Step::CeilingHit => {
                    return Convergence { settled: false, changed, ticks };
                },
                Step::Continue => {},
            }
        }
    }

    /// The best `limit` matches of the current snapshot, best first, or all
    /// of them where there are fewer. Never more than `limit` come back, each
    /// is a candidate that was pushed, and none comes back more often than it
    /// was pushed.
    pub fn results(&self, limit: usize) -> (top: Vec<String>)
        requires
            self.wf(),
        ensures
            top@.len() <= limit,
            top@.len() == spec_window(limit as nat, self@.engine.matched.len()),
            top.deep_view() == self@.engine.matched.take(top@.len() as int),
            forall|i: int| 0 <= i < top@.len() ==> self@.engine.pool.contains(#[trigger] top@[i]@),
            top.deep_view().to_multiset().subset_of(self@.engine.pool),
    {
        self.engine.snapshot(limit)
    }

    /// The query in force.
    pub fn query(&self) -> (query: &str)
        requires
            self.wf(),
        ensures
            query@ == self@.engine.query,
    {
        self.last_query.as_str()
    }

    /// Whether a query change is still being worked off.
    pub fn state(&self) -> (state: ControllerState)
        ensures
            state == self@.state,
    {
        self.state
    }

    /// The engine, for its counters.
    pub fn engine(&self) -> (engine: &MatchEngine)
        ensures
            engine@ == self@.engine,
            self.wf() ==> engine.wf(),
    {
        &self.engine
    }
}

} // verus!
