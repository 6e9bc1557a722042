//! Query diffing: how a new query relates to the one before it.

use vstd::prelude::*;
use vstd::std_specs::iter::IteratorSpec;

verus! {

/// How a new query relates to the query that was in force before it.
#[derive(Clone, Copy, Debug, PartialEq, Eq, Structural)]
pub enum QueryChange {
    /// The new query is the previous one, character for character.
    Unchanged,
    /// The previous query is a proper prefix of the new one.
    Extended,
    /// Anything else: the previous matches cannot be reused.
    Replaced,
}

/// The relation of `query` to `prior`, by plain prefix comparison.
pub open spec fn spec_query_change(query: Seq<char>, prior: Seq<char>) -> QueryChange {
    if query == prior {
        QueryChange::Unchanged
    } else if prior.is_prefix_of(query) {
        QueryChange::Extended
    } else {
        QueryChange::Replaced
    }
}

impl QueryChange {
    /// Whether the engine has to parse the query again.
    pub open spec fn spec_needs_reparse(self) -> bool {
        self != QueryChange::Unchanged
    }

    /// Whether the engine may build on the matches of the previous query.
    pub open spec fn spec_extension_hint(self) -> bool {
        self == QueryChange::Extended
    }

    /// Whether the engine has to parse the query again.
    #[verifier::when_used_as_spec(spec_needs_reparse)]
    pub fn needs_reparse(self) -> (r: bool)
        ensures
            r == self.spec_needs_reparse(),
    {
        !matches!(self, QueryChange::Unchanged)
    }

    /// Whether the engine may build on the matches of the previous query.
    #[verifier::when_used_as_spec(spec_extension_hint)]
    pub fn extension_hint(self) -> (r: bool)
        ensures
            r == self.spec_extension_hint(),
    {
        matches!(self, QueryChange::Extended)
    }
}

/// The extension hint is given for every query that extends the previous one
/// by at least one character, and for no other.
pub proof fn lemma_hint_iff_proper_extension(query: Seq<char>, prior: Seq<char>)
    ensures
        spec_query_change(query, prior).spec_extension_hint() <==> (prior.is_prefix_of(query)
            && prior.len() < query.len()),
        spec_query_change(query, prior).spec_needs_reparse() <==> query != prior,
{
    if prior.is_prefix_of(query) && prior.len() == query.len() {
        assert(query =~= prior);
    }
}

/// Compares `query` with `prior`, one character at a time.
pub fn query_change(query: &str, prior: &str) -> (change: QueryChange)
    ensures
        change == spec_query_change(query@, prior@),
{
    let mut rest_prior = prior.chars();
    let mut rest_query = query.chars();
    let ghost mut seen: int = 0;
    loop
        invariant
            0 <= seen <= prior@.len(),
            seen <= query@.len(),
            rest_prior.remaining() == prior@.skip(seen),
            rest_query.remaining() == query@.skip(seen),
            prior@.take(seen) == query@.take(seen),
        decreases prior@.len() - seen,
    {
        let p = rest_prior.next();
        let q = rest_query.next();
        match (p, q) {
            (None, None) => {
                assert(query@ =~= query@.take(seen));
                return QueryChange::Unchanged;
            },
            (None, Some(_)) => {
                return QueryChange::Extended;
            },
            (Some(_), None) => {
                return QueryChange::Replaced;
            },
            (Some(a), Some(b)) => {
                if a != b {
                    return QueryChange::Replaced;
                }
                proof {
                    seen = seen + 1;
                }
            },
        }
    }
}

} // verus!
