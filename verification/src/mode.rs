//! The interaction driver: which of the three operating modes a run is in,
//! and what the two batch modes do with a query. The interactive mode is in
//! [`crate::session`].

use vstd::prelude::*;

use crate::controller::{spec_after_set_query, Ceiling, ControllerState, QueryController};
use crate::engine::{spec_window, CasePolicy};

verus! {

/// How many result lines the single shot prints.
pub const SINGLE_SHOT_ROWS: usize = 100;

/// How many result lines the line-piped mode prints for one input line.
pub const PIPED_ROWS: usize = 10;

/// How long one tick waits in the batch modes, in milliseconds.
pub const BATCH_TICK_MS: u64 = 10;

/// How long the line-piped mode lets one input line converge, in
/// milliseconds.
pub const PIPED_CAP_MS: u64 = 900;

/// The three operating modes.
#[derive(Clone, Copy, Debug, PartialEq, Eq, Structural)]
pub enum Mode {
    /// One query from the command line, one block of results.
    SingleShot,
    /// One query per line of input, one block of results per line.
    LinePiped,
    /// The terminal session.
    Interactive,
}

/// The mode of a run: a query on the command line forces the single shot;
/// without one, input that is no terminal is read line by line.
pub open spec fn spec_select_mode(query_given: bool, input_is_terminal: bool) -> Mode {
    if query_given {
        Mode::SingleShot
    } else if !input_is_terminal {
        Mode::LinePiped
    } else {
        Mode::Interactive
    }
}

/// Selects the mode of a run: see [`spec_select_mode`].
pub fn select_mode(query_given: bool, input_is_terminal: bool) -> (mode: Mode)
    ensures
        mode == spec_select_mode(query_given, input_is_terminal),
{
    if query_given {
        Mode::SingleShot
    } else if !input_is_terminal {
        Mode::LinePiped
    } else {
        Mode::Interactive
    }
}

/// The case policy for the two case flags: ignoring case wins over smart
/// case, and without either flag case is respected.
pub open spec fn spec_case_policy(ignore_case: bool, smart_case: bool) -> CasePolicy {
    if ignore_case {
        CasePolicy::Ignore
    } else if smart_case {
        CasePolicy::Smart
    } else {
        CasePolicy::Respect
    }
}

/// Resolves the two case flags: see [`spec_case_policy`].
pub fn case_policy(ignore_case: bool, smart_case: bool) -> (policy: CasePolicy)
    ensures
        policy == spec_case_policy(ignore_case, smart_case),
{
    if ignore_case {
        CasePolicy::Ignore
    } else if smart_case {
        CasePolicy::Smart
    } else {
        CasePolicy::Respect
    }
}

/// The ceiling of the single shot: none to speak of, so that the run ends
/// when the engine has settled.
pub fn single_shot_ceiling() -> (ceiling: Ceiling)
    ensures
        ceiling == (Ceiling { tick_ms: BATCH_TICK_MS, max_ticks: u64::MAX, max_millis: u64::MAX }),
{
    Ceiling { tick_ms: BATCH_TICK_MS, max_ticks: u64::MAX, max_millis: u64::MAX }
}

/// The ceiling of one input line in the line-piped mode: a cap on the time.
pub fn piped_ceiling() -> (ceiling: Ceiling)
    ensures
        ceiling == (Ceiling {
            tick_ms: BATCH_TICK_MS,
            max_ticks: u64::MAX,
            max_millis: PIPED_CAP_MS,
        }),
{
    Ceiling { tick_ms: BATCH_TICK_MS, max_ticks: u64::MAX, max_millis: PIPED_CAP_MS }
}

/// The single shot: sets the query, lets the engine converge, and returns
/// the best `limit` matches, best first, for the caller to print.
///
/// After a new query the controller is idle only if the matching has
/// settled; it is still converging if the ceiling ended the run.
pub fn single_shot(controller: &mut QueryController, query: &str, limit: usize) -> (lines: Vec<
    String,
>)
    requires
        old(controller).wf(),
    ensures
        final(controller).wf(),
        final(controller)@.engine.same_but_snapshot(
            spec_after_set_query(old(controller)@, query@).engine,
        ),
        query@ != old(controller)@.engine.query && final(controller)@.state
            == ControllerState::Idle ==> final(controller)@.engine.settled(),
        lines@.len() <= limit,
        lines@.len() == spec_window(limit as nat, final(controller)@.engine.matched.len()),
        lines.deep_view() == final(controller)@.engine.matched.take(lines@.len() as int),
        forall|i: int|
            0 <= i < lines@.len() ==> final(controller)@.engine.pool.contains(
                #[trigger] lines@[i]@,
            ),
        lines.deep_view().to_multiset().subset_of(final(controller)@.engine.pool),
{
    let _ = controller.set_query(query);
    let _ = controller.converge(&single_shot_ceiling());
    controller.results(limit)
}

/// One input line of the line-piped mode: the line is the query. It returns
/// the block to print for the line, the best [`PIPED_ROWS`] matches.
///
/// A line that repeats the query in force is not parsed again and costs no
/// tick, so nothing changes and its block is that of the unchanged snapshot.
/// Any other line is set as the query and given one run of ticks under
/// [`piped_ceiling`]; after it the controller is idle only if the matching
/// has settled.
pub fn piped_line(controller: &mut QueryController, line: &str) -> (block: Vec<String>)
    requires
        old(controller).wf(),
    ensures
        final(controller).wf(),
        line@ == old(controller)@.engine.query ==> *final(controller) == *old(controller),
        final(controller)@.engine.same_but_snapshot(
            spec_after_set_query(old(controller)@, line@).engine,
        ),
        line@ != old(controller)@.engine.query && final(controller)@.state
            == ControllerState::Idle ==> final(controller)@.engine.settled(),
        block@.len() <= PIPED_ROWS,
        block@.len() == spec_window(PIPED_ROWS as nat, final(controller)@.engine.matched.len()),
        block.deep_view() == final(controller)@.engine.matched.take(block@.len() as int),
        forall|i: int|
            0 <= i < block@.len() ==> final(controller)@.engine.pool.contains(
                #[trigger] block@[i]@,
            ),
        block.deep_view().to_multiset().subset_of(final(controller)@.engine.pool),
{
    let change = controller.set_query(line);
    if change.needs_reparse() {
        let _ = controller.converge(&piped_ceiling());
    }
    controller.results(PIPED_ROWS)
}

} // verus!
