use vstd::prelude::*;

use crate::automaton::Transition;
use crate::compare::Comparable;

verus! {

/// The next state that `entries` gives for `(state, symbol)`: the third
/// component of the first entry whose first two components match.
pub open spec fn lookup<S, A>(entries: Seq<(S, A, S)>, state: S, symbol: A) -> Option<S>
    decreases entries.len(),
{
    if entries.len() == 0 {
        None
    } else if entries[0].0 == state && entries[0].1 == symbol {
        Some(entries[0].2)
    } else {
        lookup(entries.drop_first(), state, symbol)
    }
}

/// A transition rule given as a finite table of
/// `(state, symbol, next state)` entries, with an optional fallback
/// state for every pair the table does not list.
///
/// With a fallback the rule is total; without one its domain is exactly
/// the listed pairs.
pub struct TransitionTable<S, A> {
    entries: Vec<(S, A, S)>,
    fallback: Option<S>,
}

impl<S: Comparable, A: Comparable> TransitionTable<S, A> {
    /// The table's entries, in order.
    pub closed spec fn entries_seq(self) -> Seq<(S, A, S)> {
        self.entries@
    }

    /// The fallback state, if any.
    pub closed spec fn fallback_spec(self) -> Option<S> {
        self.fallback
    }

    /// Builds a table from its entries and an optional fallback state.
    pub fn new(entries: Vec<(S, A, S)>, fallback: Option<S>) -> (r: Self)
        ensures
            r.entries_seq() == entries@,
            r.fallback_spec() == fallback,
    {
        TransitionTable { entries, fallback }
    }
}

impl<S: Comparable, A: Comparable> Transition<S, A> for TransitionTable<S, A> {
    /// Defined on a pair when the table lists it or a fallback exists.
    open spec fn domain(&self, state: S, symbol: A) -> bool {
        lookup(self.entries_seq(), state, symbol) is Some || self.fallback_spec() is Some
    }

    /// The first matching entry's next state, else the fallback state.
    open spec fn next_spec(&self, state: S, symbol: A) -> S {
        match lookup(self.entries_seq(), state, symbol) {
            Some(n) => n,
            None => self.fallback_spec().unwrap(),
        }
    }

    fn next(&self, state: S, symbol: A) -> (r: S) {
        let mut i: usize = 0;
        proof {
            assert(self.entries@.skip(0) =~= self.entries@);
        }
        while i < self.entries.len()
            invariant
                i <= self.entries@.len(),
                lookup(self.entries@.skip(i as int), state, symbol) == lookup(
                    self.entries@,
                    state,
                    symbol,
                ),
            decreases self.entries@.len() - i,
        {
            proof {
                assert(self.entries@.skip(i as int)[0] == self.entries@[i as int]);
                assert(self.entries@.skip(i as int).drop_first() =~= self.entries@.skip(i + 1));
            }
            let entry = self.entries[i];
            if entry.0.equals(&state) && entry.1.equals(&symbol) {
                return entry.2;
            }
            i += 1;
        }
        self.fallback.unwrap()
    }
}

} // verus!
