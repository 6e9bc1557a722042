//! The match engine adapter: candidates go in, a query is set, bounded
//! ticks advance the matching, and snapshots hand out the ranked matches.
//!
//! The matching and ranking itself is done by the `nucleo` crate. What this
//! module takes on trust from it is written down in the contracts of the
//! private `engine_*` functions; everything else is proved from those.

use vstd::multiset::Multiset;
use vstd::prelude::*;

use crate::query::{query_change, spec_query_change, QueryChange};

verus! {

/// The most candidates that an engine accounts for. Its item list would
/// take one more, which no matching run would ever go through.
pub const MAX_CANDIDATES: u32 = 4_294_967_263;

/// How upper and lower case are told apart while matching.
#[derive(Clone, Copy, Debug, PartialEq, Eq, Structural)]
pub enum CasePolicy {
    /// A character never matches its other case.
    Respect,
    /// A character always matches its other case.
    Ignore,
    /// Case is ignored unless the query holds an upper-case character.
    Smart,
}

/// What one tick reports.
#[derive(Clone, Copy, Debug, PartialEq, Eq, Structural)]
pub struct TickStatus {
    /// The snapshot may differ from the one before the tick.
    pub changed: bool,
    /// More matching work remains for the current query.
    pub running: bool,
}

/// Makes `nucleo::Nucleo` known as a type whose inside is not looked into.
#[verifier::external_type_specification]
#[verifier::external_body]
#[verifier::reject_recursive_types(T)]
pub struct ExNucleo<T: Sync + Send + 'static>(nucleo::Nucleo<T>);

/// The candidates that were pushed into the engine, without order.
pub uninterp spec fn engine_pool(engine: nucleo::Nucleo<String>) -> Multiset<Seq<char>>;

/// The text of the engine's pattern: what the latest reparse was given, and
/// the empty text before the first.
pub uninterp spec fn engine_query(engine: nucleo::Nucleo<String>) -> Seq<char>;

/// The matched candidates of the engine's current snapshot, best first.
pub uninterp spec fn engine_matched(engine: nucleo::Nucleo<String>) -> Seq<Seq<char>>;

/// The text of the pattern that the matches of the engine's current snapshot
/// were matched against.
pub uninterp spec fn engine_shown_query(engine: nucleo::Nucleo<String>) -> Seq<char>;

/// How many candidates the engine's current snapshot accounts for: those
/// that the matching run behind it went through.
pub uninterp spec fn engine_scanned(engine: nucleo::Nucleo<String>) -> nat;

/// What the latest reparse was handed beside its text: the case policy, and
/// whether the promise that the text extends the text of the reparse before
/// it. `None` as long as no reparse was made.
pub uninterp spec fn engine_handed(engine: nucleo::Nucleo<String>) -> Option<(CasePolicy, bool)>;

/// `Nucleo::new`, with path matching, no wake-up callback, one worker per
/// hardware thread and one column. The new engine holds no candidate and its
/// pattern is empty, no reparse having been made; its snapshot is empty
/// too, for the empty pattern and no candidate.
#[verifier::external_body]
fn engine_new() -> (engine: nucleo::Nucleo<String>)
    ensures
        engine_pool(engine) == Multiset::<Seq<char>>::empty(),
        engine_query(engine) == Seq::<char>::empty(),
        engine_matched(engine) == Seq::<Seq<char>>::empty(),
        engine_shown_query(engine) == Seq::<char>::empty(),
        engine_scanned(engine) == 0,
        engine_handed(engine).is_none(),
{
    nucleo::Nucleo::new(nucleo::Config::DEFAULT.match_paths(), std::sync::Arc::new(|| {}), None, 1)
}

/// `Injector::push` on the engine's own injector, the candidate's text filling
/// the first column (every engine has one). It panics once the item list is
/// full, which the precondition excludes. The candidate joins the pool;
/// pattern and snapshot stay as they are until the next tick, and no reparse
/// is made.
#[verifier::external_body]
fn engine_push(engine: &mut nucleo::Nucleo<String>, candidate: String)
    requires
        engine_pool(*old(engine)).len() < MAX_CANDIDATES,
    ensures
        engine_pool(*final(engine)) == engine_pool(*old(engine)).insert(candidate@),
        engine_query(*final(engine)) == engine_query(*old(engine)),
        engine_matched(*final(engine)) == engine_matched(*old(engine)),
        engine_shown_query(*final(engine)) == engine_shown_query(*old(engine)),
        engine_scanned(*final(engine)) == engine_scanned(*old(engine)),
        engine_handed(*final(engine)) == engine_handed(*old(engine)),
{
    engine.injector().push(candidate, |text, columns| columns[0] = text.as_str().into());
}

/// `MultiPattern::reparse` on the first column, with smart normalization.
/// With `append` the caller promises the engine that the text of the previous
/// reparse is a prefix of the new one; a false promise can lose matches, so it
/// is a precondition here. The pattern's text becomes `text`, parsed under
/// `case`, and `append` is handed on as it is; pool and snapshot stay as they
/// are until the next tick.
#[verifier::external_body]
fn engine_reparse(engine: &mut nucleo::Nucleo<String>, text: &str, case: CasePolicy, append: bool)
    requires
        append ==> engine_query(*old(engine)).is_prefix_of(text@),
    ensures
        engine_query(*final(engine)) == text@,
        engine_pool(*final(engine)) == engine_pool(*old(engine)),
        engine_matched(*final(engine)) == engine_matched(*old(engine)),
        engine_shown_query(*final(engine)) == engine_shown_query(*old(engine)),
        engine_scanned(*final(engine)) == engine_scanned(*old(engine)),
        engine_handed(*final(engine)) == Some((case, append)),
{
    let case_matching = match case {
        CasePolicy::Respect => nucleo::pattern::CaseMatching::Respect,
        CasePolicy::Ignore => nucleo::pattern::CaseMatching::Ignore,
        CasePolicy::Smart => nucleo::pattern::CaseMatching::Smart,
    };
    engine.pattern.reparse(0, text, case_matching, nucleo::pattern::Normalization::Smart, append);
}

/// `Nucleo::tick`. It hands a changed pattern and new candidates to the
/// background workers, waits at most about `timeout_ms` milliseconds for
/// them, and may replace the snapshot by their latest finished run.
///
/// Pool and pattern are untouched and no reparse is made. Every match of the
/// snapshot is a candidate of the pool (each at most as often as it was
/// pushed), and a tick that reports no change leaves the snapshot as it was.
/// The tick reports
/// `running` unless the workers have finished a run over every candidate with
/// the pattern in force and the snapshot holds that run. Whether they have
/// depends on their progress, so nothing says when `running` is false, only
/// what holds when it is.
#[verifier::external_body]
fn engine_tick(engine: &mut nucleo::Nucleo<String>, timeout_ms: u64) -> (status: TickStatus)
    ensures
        engine_pool(*final(engine)) == engine_pool(*old(engine)),
        engine_query(*final(engine)) == engine_query(*old(engine)),
        engine_matched(*final(engine)).to_multiset().subset_of(engine_pool(*final(engine))),
        !status.changed ==> engine_matched(*final(engine)) == engine_matched(*old(engine)),
        !status.changed ==> engine_shown_query(*final(engine)) == engine_shown_query(*old(engine)),
        !status.changed ==> engine_scanned(*final(engine)) == engine_scanned(*old(engine)),
        !status.running ==> engine_shown_query(*final(engine)) == engine_query(*final(engine)),
        !status.running ==> engine_scanned(*final(engine)) == engine_pool(*final(engine)).len(),
        engine_handed(*final(engine)) == engine_handed(*old(engine)),
{
    let status = engine.tick(timeout_ms);
    TickStatus { changed: status.changed, running: status.running }
}

/// `Snapshot::matched_item_count` on the engine's current snapshot.
#[verifier::external_body]
fn engine_matched_count(engine: &nucleo::Nucleo<String>) -> (count: u32)
    ensures
        count == engine_matched(*engine).len(),
{
    engine.snapshot().matched_item_count()
}

/// `Snapshot::item_count` on the engine's current snapshot.
#[verifier::external_body]
fn engine_scanned_count(engine: &nucleo::Nucleo<String>) -> (count: u32)
    ensures
        count == engine_scanned(*engine),
{
    engine.snapshot().item_count()
}

/// `Snapshot::matched_items` on the first `count` matches of the engine's
/// current snapshot, each handed out as a copy of its text. The outside
/// function panics on a range that ends beyond the matches.
#[verifier::external_body]
fn engine_top(engine: &nucleo::Nucleo<String>, count: u32) -> (top: Vec<String>)
    requires
        count <= engine_matched(*engine).len(),
    ensures
        top@.len() == count,
        forall|i: int| 0 <= i < count ==> (#[trigger] top@[i])@ == engine_matched(*engine)[i],
{
    engine.snapshot().matched_items(..count).map(|item| item.data.clone()).collect()
}

/// What a match engine holds, as mathematics.
pub struct EngineView {
    /// The candidates pushed so far, without order.
    pub pool: Multiset<Seq<char>>,
    /// The query that the engine matches against.
    pub query: Seq<char>,
    /// The matched candidates of the current snapshot, best first.
    pub matched: Seq<Seq<char>>,
    /// The query that the matches of the current snapshot were matched
    /// against.
    pub shown_query: Seq<char>,
    /// How many candidates the current snapshot accounts for.
    pub scanned: nat,
    /// How case is treated when a query is parsed.
    pub case: CasePolicy,
    /// What the engine was handed with the latest query that it parsed: the
    /// case policy, and whether the hint that the query extends the one
    /// before it. `None` before the first.
    pub handed: Option<(CasePolicy, bool)>,
    /// How many times the query was parsed again.
    pub reparses: nat,
    /// How many of those reparses carried the extension hint.
    pub extensions: nat,
}

impl EngineView {
    /// What holds of every engine: it is not over-full, its snapshot shows
    /// nothing but candidates of its pool, its counters fit, and no query was
    /// parsed under another case policy than the engine's.
    pub open spec fn valid(self) -> bool {
        &&& self.pool.len() <= MAX_CANDIDATES
        &&& self.matched.to_multiset().subset_of(self.pool)
        &&& self.extensions <= self.reparses <= u64::MAX
        &&& self.handed matches Some((case, _)) ==> case == self.case
    }

    /// The matching has settled: the snapshot was matched against the query
    /// in force and accounts for every candidate of the pool.
    pub open spec fn settled(self) -> bool {
        &&& self.shown_query == self.query
        &&& self.scanned == self.pool.len()
    }

    /// Whether `self` is `before` but for its snapshot.
    pub open spec fn same_but_snapshot(self, before: EngineView) -> bool {
        self == (EngineView {
            matched: self.matched,
            shown_query: self.shown_query,
            scanned: self.scanned,
            ..before
        })
    }
}

/// A counter after one more event; it stays at its maximum once there.
pub open spec fn bumped(count: nat) -> nat {
    if count < u64::MAX {
        count + 1
    } else {
        count
    }
}

/// The match engine adapter.
pub struct MatchEngine {
    engine: nucleo::Nucleo<String>,
    case: CasePolicy,
    held: u32,
    reparses: u64,
    extensions: u64,
}

impl View for MatchEngine {
    type V = EngineView;

    closed spec fn view(&self) -> EngineView {
        EngineView {
            pool: engine_pool(self.engine),
            query: engine_query(self.engine),
            matched: engine_matched(self.engine),
            shown_query: engine_shown_query(self.engine),
            scanned: engine_scanned(self.engine),
            case: self.case,
            handed: engine_handed(self.engine),
            reparses: self.reparses as nat,
            extensions: self.extensions as nat,
        }
    }
}

impl MatchEngine {
    /// The adapter's own bookkeeping agrees with the engine it wraps, and
    /// what it holds is valid. Every constructor establishes this and every
    /// method keeps it.
    pub closed spec fn wf(&self) -> bool {
        &&& self.held == engine_pool(self.engine).len()
        &&& self@.valid()
    }

    /// A well-formed engine holds a valid view.
    pub proof fn lemma_wf_valid(&self)
        requires
            self.wf(),
        ensures
            self@.valid(),
    {
    }

    /// An engine without candidates, with the empty query.
    pub fn new(case: CasePolicy) -> (engine: MatchEngine)
        ensures
            engine.wf(),
            engine@ == (EngineView {
                pool: Multiset::empty(),
                query: Seq::empty(),
                matched: Seq::empty(),
                shown_query: Seq::empty(),
                scanned: 0,
                case,
                handed: None,
                reparses: 0,
                extensions: 0,
            }),
    {
        let engine = engine_new();
        proof {
            assert(engine_matched(engine).to_multiset() =~= Multiset::<Seq<char>>::empty()) by {
                broadcast use vstd::seq_lib::group_to_multiset_ensures;
            }
        }
        MatchEngine { engine, case, held: 0, reparses: 0, extensions: 0 }
    }

    /// Adds one candidate, unless the engine is full. The snapshot does not
    /// show it before the next tick.
    pub fn push(&mut self, candidate: String) -> (accepted: bool)
        requires
            old(self).wf(),
        ensures
            final(self).wf(),
            accepted == (old(self)@.pool.len() < MAX_CANDIDATES),
            accepted ==> final(self)@ == (EngineView {
                pool: old(self)@.pool.insert(candidate@),
                ..old(self)@
            }),
            !accepted ==> *final(self) == *old(self),
    {
        if self.held < MAX_CANDIDATES {
            engine_push(&mut self.engine, candidate);
            self.held = self.held + 1;
            true
        } else {
            false
        }
    }

    /// Sets the query, given the query that was set before it.
    ///
    /// If the two are the same, nothing is touched. Otherwise the engine
    /// parses `query` under the engine's case policy, and it is told that it
    /// may build on its previous matches exactly when `prior_query` is a
    /// proper prefix of `query`.
    ///
    /// The engine takes that hint on trust and can lose matches where it is
    /// false. Hence the precondition: where the hint is given, the query that
    /// the engine holds must be a prefix of `query` too, as it is for every
    /// caller that passes the engine's own query as `prior_query`.
    pub fn set_query(&mut self, query: &str, prior_query: &str) -> (change: QueryChange)
        requires
            old(self).wf(),
            spec_query_change(query@, prior_query@) == QueryChange::Extended ==> old(
                self,
            )@.query.is_prefix_of(query@),
        ensures
            final(self).wf(),
            change == spec_query_change(query@, prior_query@),
            query@ == prior_query@ ==> *final(self) == *old(self),
            change != QueryChange::Unchanged ==> final(self)@ == (EngineView {
                query: query@,
                handed: Some((old(self)@.case, change == QueryChange::Extended)),
                reparses: bumped(old(self)@.reparses),
                extensions: if change == QueryChange::Extended {
                    bumped(old(self)@.extensions)
                } else {
                    old(self)@.extensions
                },
                ..old(self)@
            }),
    {
        let change = query_change(query, prior_query);
        if change.needs_reparse() {
            let hint = change.extension_hint();
            engine_reparse(&mut self.engine, query, self.case, hint);
            self.reparses = self.reparses.saturating_add(1);
            if hint {
                self.extensions = self.extensions.saturating_add(1);
            }
        }
        change
    }

    /// Advances the matching by at most about `budget_ms` milliseconds of
    /// waiting.
    ///
    /// Only the snapshot can change, and not even that when the status
    /// reports no change. When the status reports that nothing is running,
    /// the matching has settled: the snapshot is that of the query in force
    /// over every candidate pushed so far. Whether a tick gets that far
    /// depends on the progress of the background workers.
    pub fn tick(&mut self, budget_ms: u64) -> (status: TickStatus)
        requires
            old(self).wf(),
        ensures
            final(self).wf(),
            final(self)@.same_but_snapshot(old(self)@),
            !status.changed ==> final(self)@ == old(self)@,
            !status.running ==> final(self)@.settled(),
    {
        engine_tick(&mut self.engine, budget_ms)
    }

    /// The best `limit` matches of the current snapshot, best first, or all
    /// of them where there are fewer. The engine is not touched.
    ///
    /// Never more than `limit` come back, each is a candidate that was
    /// pushed, and none comes back more often than it was pushed.
    pub fn snapshot(&self, limit: usize) -> (top: Vec<String>)
        requires
            self.wf(),
        ensures
            top@.len() <= limit,
            top@.len() == spec_window(limit as nat, self@.matched.len()),
            top.deep_view() == self@.matched.take(top@.len() as int),
            forall|i: int| 0 <= i < top@.len() ==> self@.pool.contains(#[trigger] top@[i]@),
            top.deep_view().to_multiset().subset_of(self@.pool),
    {
        let matched = engine_matched_count(&self.engine);
        let count: u32 = if limit < matched as usize {
            limit as u32
        } else {
            matched
        };
        let top = engine_top(&self.engine, count);
        proof {
            let shown = self@.matched.take(count as int);
            assert(top.deep_view() =~= shown);
            assert forall|i: int| 0 <= i < top@.len() implies self@.pool.contains(
                #[trigger] top@[i]@,
            ) by {
                lemma_matched_in_pool(self@, i);
            }
            lemma_take_within(self@.matched, count as int);
        }
        top
    }

    /// How many candidates the engine holds.
    pub fn candidate_count(&self) -> (count: u32)
        requires
            self.wf(),
        ensures
            count == self@.pool.len(),
    {
        self.held
    }

    /// How many candidates the current snapshot accounts for.
    pub fn scanned_count(&self) -> (count: u32)
        ensures
            count == self@.scanned,
    {
        engine_scanned_count(&self.engine)
    }

    /// How many matches the current snapshot holds.
    pub fn matched_count(&self) -> (count: u32)
        ensures
            count == self@.matched.len(),
    {
        engine_matched_count(&self.engine)
    }

    /// How many times the engine parsed a query again.
    pub fn reparse_count(&self) -> (count: u64)
        ensures
            count == self@.reparses,
    {
        self.reparses
    }

    /// How many reparses carried the extension hint.
    pub fn extension_count(&self) -> (count: u64)
        ensures
            count == self@.extensions,
    {
        self.extensions
    }

    /// How case is treated when a query is parsed.
    pub fn case_policy(&self) -> (case: CasePolicy)
        ensures
            case == self@.case,
    {
        self.case
    }
}

/// How many rows a window of at most `limit` rows shows of `available` ones.
pub open spec fn spec_window(limit: nat, available: nat) -> nat {
    if limit < available {
        limit
    } else {
        available
    }
}

/// The first `n` items of a sequence are among its items, each no more often
/// than the sequence holds it.
pub proof fn lemma_take_within<A>(s: Seq<A>, n: int)
    requires
        0 <= n <= s.len(),
    ensures
        s.take(n).to_multiset().subset_of(s.to_multiset()),
    decreases s.len() - n,
{
    if n == s.len() {
        assert(s.take(n) =~= s);
    } else {
        lemma_take_within(s, n + 1);
        assert(s.take(n + 1) =~= s.take(n).push(s[n]));
        vstd::seq_lib::to_multiset_build(s.take(n), s[n]);
    }
}

/// A valid engine's snapshot shows only what is in its pool.
pub proof fn lemma_matched_in_pool(view: EngineView, i: int)
    requires
        view.valid(),
        0 <= i < view.matched.len(),
    ensures
        view.pool.contains(view.matched[i]),
{
    broadcast use vstd::seq_lib::group_to_multiset_ensures;
}

/// A valid engine's snapshot shows no more matches than the pool holds
/// candidates.
pub proof fn lemma_matched_at_most_pool(view: EngineView)
    requires
        view.valid(),
    ensures
        view.matched.len() <= view.pool.len(),
{
    broadcast use vstd::seq_lib::group_to_multiset_ensures;

    let shown = view.matched.to_multiset();
    assert(view.pool =~= shown.add(view.pool.sub(shown)));
}

} // verus!
