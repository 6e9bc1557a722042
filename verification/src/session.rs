//! The terminal session: the state behind the interactive mode and what a
//! key does to it. Drawing the state and waiting for the next key are left to
//! the caller; every decision is taken here.

use vstd::prelude::*;

use crate::controller::{spec_after_set_query, spec_state_after, QueryController};
use crate::engine::{spec_window, TickStatus};

verus! {

/// How many rows the window of the interactive mode shows.
pub const WINDOW_ROWS: usize = 50;

/// How long the tick of one frame waits for the engine, in milliseconds.
pub const FRAME_TICK_MS: u64 = 10;

/// A key, as far as the session tells keys apart.
#[derive(Clone, Copy, Debug, PartialEq, Eq, Structural)]
pub enum Key {
    /// A printable character.
    Char(char),
    /// Backspace.
    Backspace,
    /// Arrow up.
    Up,
    /// Arrow down.
    Down,
    /// Enter.
    Enter,
    /// Escape.
    Escape,
    /// Any other key.
    Other,
}

/// What happened to a key.
#[derive(Clone, Copy, Debug, PartialEq, Eq, Structural)]
pub enum KeyKind {
    /// It was pressed.
    Press,
    /// It is held down and repeats.
    Repeat,
    /// It was released.
    Release,
}

/// What the session asks of its caller after a key.
#[derive(Debug, PartialEq, Eq)]
pub enum Outcome {
    /// Go on with the next frame.
    Continue,
    /// Leave the session and emit this candidate.
    Selected(String),
    /// Leave the session without a selection.
    Cancelled,
}

/// An [`Outcome`], as mathematics.
pub enum OutcomeView {
    /// Go on with the next frame.
    Continue,
    /// Leave the session and emit this candidate.
    Selected(Seq<char>),
    /// Leave the session without a selection.
    Cancelled,
}

impl View for Outcome {
    type V = OutcomeView;

    open spec fn view(&self) -> OutcomeView {
        match self {
            Outcome::Continue => OutcomeView::Continue,
            Outcome::Selected(text) => OutcomeView::Selected(text@),
            Outcome::Cancelled => OutcomeView::Cancelled,
        }
    }
}

/// What a session holds, as mathematics.
pub struct SessionView {
    /// The query typed so far.
    pub query: Seq<char>,
    /// The selected row of the window.
    pub selection: nat,
    /// The rows shown, best match first.
    pub window: Seq<Seq<char>>,
    /// The most rows that the window ever shows.
    pub capacity: nat,
}

impl SessionView {
    /// The window is within its capacity and the selection is on one of its
    /// rows, or on row 0 while there is none.
    pub open spec fn valid(self) -> bool {
        &&& self.window.len() <= self.capacity
        &&& self.window.len() > 0 ==> self.selection < self.window.len()
        &&& self.window.len() == 0 ==> self.selection == 0
    }
}

/// The row below `selection` in a window of `rows` rows, wrapping to the top.
pub open spec fn spec_row_below(selection: nat, rows: nat) -> nat {
    if rows == 0 {
        selection
    } else if selection + 1 >= rows {
        0
    } else {
        selection + 1
    }
}

/// The row above `selection` in a window of `rows` rows, wrapping to the
/// bottom.
pub open spec fn spec_row_above(selection: nat, rows: nat) -> nat {
    if rows == 0 {
        selection
    } else if selection == 0 {
        (rows - 1) as nat
    } else {
        (selection - 1) as nat
    }
}

/// The selection that stays on its row where the new window still has it,
/// and else moves to the last row.
pub open spec fn spec_clamped(selection: nat, rows: nat) -> nat {
    if rows == 0 {
        0
    } else if selection >= rows {
        (rows - 1) as nat
    } else {
        selection
    }
}

/// The session after a key event. Only presses act.
pub open spec fn spec_key_step(s: SessionView, key: Key, kind: KeyKind) -> SessionView {
    if kind != KeyKind::Press {
        s
    } else {
        match key {
            Key::Char(c) => SessionView { query: s.query.push(c), selection: 0, ..s },
            Key::Backspace => SessionView {
                query: if s.query.len() > 0 {
                    s.query.drop_last()
                } else {
                    s.query
                },
                selection: 0,
                ..s
            },
            Key::Up => SessionView { selection: spec_row_above(s.selection, s.window.len()), ..s },
            Key::Down => SessionView {
                selection: spec_row_below(s.selection, s.window.len()),
                ..s
            },
            Key::Enter => s,
            Key::Escape => s,
            Key::Other => s,
        }
    }
}

/// What the session asks of its caller after a key event.
pub open spec fn spec_key_outcome(s: SessionView, key: Key, kind: KeyKind) -> OutcomeView {
    if kind != KeyKind::Press {
        OutcomeView::Continue
    } else {
        match key {
            Key::Enter => if s.window.len() > 0 {
                OutcomeView::Selected(s.window[s.selection as int])
            } else {
                OutcomeView::Continue
            },
            Key::Escape => OutcomeView::Cancelled,
            _ => OutcomeView::Continue,
        }
    }
}

/// The session after the same key was pressed `times` times.
pub open spec fn spec_pressed(s: SessionView, key: Key, times: nat) -> SessionView
    decreases times,
{
    if times == 0 {
        s
    } else {
        spec_pressed(spec_key_step(s, key, KeyKind::Press), key, (times - 1) as nat)
    }
}

/// The session after a frame put `rows` into its window.
pub open spec fn spec_refreshed(s: SessionView, rows: Seq<Seq<char>>) -> SessionView {
    let shown = if rows.len() > s.capacity {
        rows.take(s.capacity as int)
    } else {
        rows
    };
    SessionView { selection: spec_clamped(s.selection, shown.len()), window: shown, ..s }
}

/// No key event takes a valid session to an invalid one.
pub proof fn lemma_key_step_valid(s: SessionView, key: Key, kind: KeyKind)
    requires
        s.valid(),
    ensures
        spec_key_step(s, key, kind).valid(),
{
}

/// No new window takes a valid session to an invalid one.
pub proof fn lemma_refreshed_valid(s: SessionView, rows: Seq<Seq<char>>)
    requires
        s.valid(),
    ensures
        spec_refreshed(s, rows).valid(),
{
}

/// Pressing "down" `times` times, at most once per row, moves the selection
/// that many rows down, going on from the top after the last row. Nothing
/// else changes.
pub proof fn lemma_down_moves(s: SessionView, times: nat)
    requires
        s.valid(),
        s.window.len() > 0,
        times <= s.window.len(),
    ensures
        spec_pressed(s, Key::Down, times) == (SessionView {
            selection: if s.selection + times < s.window.len() {
                s.selection + times
            } else {
                (s.selection + times - s.window.len()) as nat
            },
            ..s
        }),
    decreases times,
{
    if times > 0 {
        let next = spec_key_step(s, Key::Down, KeyKind::Press);
        lemma_down_moves(next, (times - 1) as nat);
    }
}

/// In a window of N > 0 rows, pressing "down" N times brings the session
/// back to where it was, and pressing "up" on row 0 selects row N - 1.
pub proof fn lemma_selection_wraps(s: SessionView)
    requires
        s.valid(),
        s.window.len() > 0,
    ensures
        spec_pressed(s, Key::Down, s.window.len()) == s,
        s.selection == 0 ==> spec_key_step(s, Key::Up, KeyKind::Press).selection
            == s.window.len() - 1,
{
    lemma_down_moves(s, s.window.len());
}

/// With an empty window "up" and "down" leave the selection on row 0, and
/// "enter" does nothing: the session stays as it is and goes on.
pub proof fn lemma_empty_window_safe(s: SessionView)
    requires
        s.valid(),
        s.window.len() == 0,
    ensures
        spec_key_step(s, Key::Up, KeyKind::Press).selection == 0,
        spec_key_step(s, Key::Down, KeyKind::Press).selection == 0,
        spec_key_step(s, Key::Enter, KeyKind::Press) == s,
        spec_key_outcome(s, Key::Enter, KeyKind::Press) == OutcomeView::Continue,
{
}

/// The state of the interactive mode.
pub struct SessionState {
    query: String,
    selection_index: usize,
    result_window: Vec<String>,
    capacity: usize,
}

impl View for SessionState {
    type V = SessionView;

    closed spec fn view(&self) -> SessionView {
        SessionView {
            query: self.query@,
            selection: self.selection_index as nat,
            window: self.result_window.deep_view(),
            capacity: self.capacity as nat,
        }
    }
}

impl SessionState {
    /// What the session holds is valid.
    pub closed spec fn wf(&self) -> bool {
        self@.valid()
    }

    /// A well-formed session holds a valid view.
    pub proof fn lemma_wf_valid(&self)
        requires
            self.wf(),
        ensures
            self@.valid(),
    {
    }

    /// The session at the entry to the interactive mode: no query, no rows.
    pub fn new(capacity: usize) -> (session: SessionState)
        ensures
            session.wf(),
            session@ == (SessionView {
                query: Seq::empty(),
                selection: 0,
                window: Seq::empty(),
                capacity: capacity as nat,
            }),
    {
        let session = SessionState {
            query: String::new(),
            selection_index: 0,
            result_window: Vec::new(),
            capacity,
        };
        assert(session.result_window.deep_view() =~= Seq::<Seq<char>>::empty());
        session
    }

    /// Applies one key event: see [`spec_key_step`] for the new state and
    /// [`spec_key_outcome`] for what the caller is to do next.
    pub fn handle_key(&mut self, key: Key, kind: KeyKind) -> (outcome: Outcome)
        requires
            old(self).wf(),
        ensures
            final(self).wf(),
            final(self)@ == spec_key_step(old(self)@, key, kind),
            outcome@ == spec_key_outcome(old(self)@, key, kind),
    {
        if !matches!(kind, KeyKind::Press) {
            return Outcome::Continue;
        }
        let rows = self.result_window.len();
        match key {
            Key::Char(c) => {
                self.query.push(c);
                self.selection_index = 0;
                Outcome::Continue
            },
            Key::Backspace => {
                let _ = self.query.pop();
                self.selection_index = 0;
                Outcome::Continue
            },
            Key::Up => {
                if rows > 0 {
                    self.selection_index = if self.selection_index == 0 {
                        rows - 1
                    } else {
                        self.selection_index - 1
                    };
                }
                Outcome::Continue
            },
            Key::Down => {
                if rows > 0 {
                    self.selection_index = if self.selection_index + 1 >= rows {
                        0
                    } else {
                        self.selection_index + 1
                    };
                }
                Outcome::Continue
            },
            Key::Enter => {
                if rows > 0 {
                    Outcome::Selected(self.result_window[self.selection_index].clone())
                } else {
                    Outcome::Continue
                }
            },
            Key::Escape => Outcome::Cancelled,
            Key::Other => Outcome::Continue,
        }
    }

    /// Puts new rows into the window, the first `capacity` of them where
    /// there are more, and moves the selection back into range.
    pub fn refresh(&mut self, rows: Vec<String>)
        requires
            old(self).wf(),
        ensures
            final(self).wf(),
            final(self)@ == spec_refreshed(old(self)@, rows.deep_view()),
    {
        let mut rows = rows;
        let ghost given = rows.deep_view();
        if rows.len() > self.capacity {
            rows.truncate(self.capacity);
            assert(rows.deep_view() =~= given.take(self.capacity as int));
        }
        let shown = rows.len();
        if shown == 0 {
            self.selection_index = 0;
        } else if self.selection_index >= shown {
            self.selection_index = shown - 1;
        }
        self.result_window = rows;
    }

    /// The engine's part of one frame: the typed query is made the query in
    /// force (which does nothing if it already is), the engine gets one
    /// bounded tick, and the best matches of the snapshot become the window.
    pub fn frame(&mut self, controller: &mut QueryController, budget_ms: u64) -> (status:
        TickStatus)
        requires
            old(self).wf(),
            old(controller).wf(),
        ensures
            final(self).wf(),
            final(controller).wf(),
            final(controller)@.engine.same_but_snapshot(
                spec_after_set_query(old(controller)@, old(self)@.query).engine,
            ),
            !status.running ==> final(controller)@.engine.settled(),
            !status.changed ==> final(controller)@.engine == spec_after_set_query(
                old(controller)@,
                old(self)@.query,
            ).engine,
            final(controller)@.state == spec_state_after(
                spec_after_set_query(old(controller)@, old(self)@.query).state,
                status,
            ),
            final(self)@ == spec_refreshed(
                old(self)@,
                final(controller)@.engine.matched.take(
                    spec_window(
                        old(self)@.capacity,
                        final(controller)@.engine.matched.len(),
                    ) as int,
                ),
            ),
    {
        let _ = controller.set_query(self.query.as_str());
        let status = controller.tick(budget_ms);
        let top = controller.results(self.capacity);
        self.refresh(top);
        status
    }

    /// The query typed so far.
    pub fn query(&self) -> (query: &str)
        ensures
            query@ == self@.query,
    {
        self.query.as_str()
    }

    /// The selected row of the window.
    pub fn selection_index(&self) -> (index: usize)
        ensures
            index == self@.selection,
    {
        self.selection_index
    }

    /// The rows shown, best match first.
    pub fn result_window(&self) -> (rows: &Vec<String>)
        ensures
            rows.deep_view() == self@.window,
    {
        &self.result_window
    }

    /// The most rows that the window ever shows.
    pub fn capacity(&self) -> (capacity: usize)
        ensures
            capacity == self@.capacity,
    {
        self.capacity
    }
}

} // verus!
