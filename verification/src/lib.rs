//! The search orchestration of an interactive fuzzy finder.
//!
//! Candidates stream into a match engine while the user is still typing.
//! This crate holds what goes on around that engine: the comparison of a new
//! query with the previous one ([`query`]), the adapter through which
//! candidates, queries and ticks reach the engine ([`engine`]), the
//! controller that skips repeated queries and lets the matching converge
//! under a ceiling ([`controller`]), the choice of operating mode and the two
//! batch modes ([`mode`]), and the state machine of the interactive mode
//! ([`session`]).
//!
//! Every function carries a contract over a mathematical view of the state,
//! and Verus proves each body against it. The few facts taken on trust are
//! about the `nucleo` engine ([`engine`]), the wall clock ([`clock`]) and two
//! methods of `String` ([`text`]).

pub mod clock;
pub mod controller;
pub mod engine;
pub mod mode;
pub mod query;
pub mod session;
pub mod text;
