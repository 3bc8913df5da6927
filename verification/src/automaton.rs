use vstd::prelude::*;

use crate::compare::Comparable;
use crate::compare::contains_value;
use crate::compare::dedup;

verus! {

/// A transition rule: from a current state and an input symbol it yields
/// the next state.
///
/// `domain` is the set of pairs the rule is defined on.  Applying the
/// rule outside its domain is a contract violation by whoever supplied
/// the rule, not a runtime condition, so `next` simply requires it.
pub trait Transition<S, A>: Sized {
    /// Whether the rule yields a next state for this pair.
    spec fn domain(&self, state: S, symbol: A) -> bool;

    /// The next state, as a mathematical function of the arguments.
    spec fn next_spec(&self, state: S, symbol: A) -> S;

    /// Applies the rule once.
    fn next(&self, state: S, symbol: A) -> (r: S)
        requires
            self.domain(state, symbol),
        ensures
            r == self.next_spec(state, symbol),
    ;
}

/// The state reached by folding `rule` over `symbols` from the left,
/// one symbol at a time, starting at `state`.
pub open spec fn run<S, A, F: Transition<S, A>>(rule: F, state: S, symbols: Seq<A>) -> S
    decreases symbols.len(),
{
    if symbols.len() == 0 {
        state
    } else {
        run(rule, rule.next_spec(state, symbols[0]), symbols.drop_first())
    }
}

/// Whether every transition taken while folding `rule` over `symbols`
/// from `state` lies in the rule's domain.
pub open spec fn run_defined<S, A, F: Transition<S, A>>(rule: F, state: S, symbols: Seq<A>) -> bool
    decreases symbols.len(),
{
    symbols.len() == 0 || (rule.domain(state, symbols[0]) && run_defined(
        rule,
        rule.next_spec(state, symbols[0]),
        symbols.drop_first(),
    ))
}

/// A rule that is defined on every pair is defined along every run.
pub proof fn lemma_total_rule_run_defined<S, A, F: Transition<S, A>>(
    rule: F,
    state: S,
    symbols: Seq<A>,
)
    requires
        forall|x: S, a: A| rule.domain(x, a),
    ensures
        run_defined(rule, state, symbols),
    decreases symbols.len(),
{
    if symbols.len() != 0 {
        lemma_total_rule_run_defined(rule, rule.next_spec(state, symbols[0]), symbols.drop_first());
    }
}

/// The verdict of one evaluation: the final state reached, tagged with
/// whether it belongs to the accept set.
#[derive(Clone, Copy, Debug, PartialEq, Eq)]
pub enum Status<S> {
    Accept(S),
    Reject(S),
}

/// A deterministic finite automaton: a declared universe of states, a
/// declared input alphabet, a transition rule, a start state, and a set
/// of accepting states.  The value is immutable after construction.
///
/// `states` and `alphabet` are documentation and introspection only: no
/// operation checks the start state, the accept states or the inputs
/// against them.  Acceptance is decided purely against `accept`.
pub struct DFA<S, A, F> {
    states: Vec<S>,
    alphabet: Vec<A>,
    transition: F,
    start: S,
    accept: Vec<S>,
}

impl<S: Comparable, A: Comparable, F: Transition<S, A>> DFA<S, A, F> {
    /// The stored state universe, one entry per state.
    pub closed spec fn states_seq(self) -> Seq<S> {
        self.states@
    }

    /// The stored alphabet, one entry per symbol.
    pub closed spec fn alphabet_seq(self) -> Seq<A> {
        self.alphabet@
    }

    /// The stored accept states, one entry per state.
    pub closed spec fn accept_seq(self) -> Seq<S> {
        self.accept@
    }

    /// The start state.
    pub closed spec fn start_spec(self) -> S {
        self.start
    }

    /// The transition rule.
    pub closed spec fn transition_spec(self) -> F {
        self.transition
    }

    /// The declared universe of states, as a set.
    pub open spec fn state_set(self) -> Set<S> {
        self.states_seq().to_set()
    }

    /// The declared input alphabet, as a set.
    pub open spec fn alphabet_set(self) -> Set<A> {
        self.alphabet_seq().to_set()
    }

    /// The accepting states, as a set.
    pub open spec fn accept_set(self) -> Set<S> {
        self.accept_seq().to_set()
    }

    /// The verdict `input` returns on `symbols`: the state reached by
    /// folding the transition rule over `symbols` from the start state,
    /// wrapped in `Accept` exactly when it is an accept state.
    pub open spec fn spec_input(self, symbols: Seq<A>) -> Status<S> {
        let f = run(self.transition_spec(), self.start_spec(), symbols);
        if self.accept_set().contains(f) {
            Status::Accept(f)
        } else {
            Status::Reject(f)
        }
    }

    /// Builds an automaton from its five parts.  Duplicates in `states`,
    /// `alphabet` and `accept` collapse; nothing is validated beyond
    /// that, so a start state outside `states` or an accept set that is
    /// not a subset of `states` is stored as given.
    pub fn new(states: Vec<S>, alphabet: Vec<A>, transition: F, start: S, accept: Vec<S>) -> (r:
        Self)
        ensures
            r.state_set() == states@.to_set(),
            r.alphabet_set() == alphabet@.to_set(),
            r.accept_set() == accept@.to_set(),
            r.states_seq().no_duplicates(),
            r.alphabet_seq().no_duplicates(),
            r.accept_seq().no_duplicates(),
            r.start_spec() == start,
            r.transition_spec() == transition,
    {
        DFA {
            states: dedup(states),
            alphabet: dedup(alphabet),
            transition,
            start,
            accept: dedup(accept),
        }
    }

    /// The declared universe of states.
    pub fn states(&self) -> (r: &Vec<S>)
        ensures
            r@ == self.states_seq(),
    {
        &self.states
    }

    /// The declared input alphabet.
    pub fn alphabet(&self) -> (r: &Vec<A>)
        ensures
            r@ == self.alphabet_seq(),
    {
        &self.alphabet
    }

    /// The transition rule.
    pub fn transition_function(&self) -> (r: &F)
        ensures
            *r == self.transition_spec(),
    {
        &self.transition
    }

    /// The start state.
    pub fn start_state(&self) -> (r: &S)
        ensures
            *r == self.start_spec(),
    {
        &self.start
    }

    /// The accepting states.
    pub fn accept_states(&self) -> (r: &Vec<S>)
        ensures
            r@ == self.accept_seq(),
    {
        &self.accept
    }

    /// Runs the automaton over `symbols`, in order, left to right: a
    /// strict fold of the transition rule starting from the start
    /// state.  An empty input performs no transition and the verdict is
    /// computed against the start state itself.
    pub fn input(&self, symbols: &Vec<A>) -> (r: Status<S>)
        requires
            run_defined(self.transition_spec(), self.start_spec(), symbols@),
        ensures
            r == self.spec_input(symbols@),
    {
        let mut state: S = self.start;
        let mut i: usize = 0;
        proof {
            assert(symbols@.skip(0) =~= symbols@);
        }
        while i < symbols.len()
            invariant
                i <= symbols@.len(),
                run_defined(self.transition_spec(), state, symbols@.skip(i as int)),
                run(self.transition_spec(), state, symbols@.skip(i as int)) == run(
                    self.transition_spec(),
                    self.start_spec(),
                    symbols@,
                ),
            decreases symbols@.len() - i,
        {
            proof {
                assert(symbols@.skip(i as int)[0] == symbols@[i as int]);
                assert(symbols@.skip(i as int).drop_first() =~= symbols@.skip(i + 1));
            }
            state = self.transition.next(state, symbols[i]);
            i += 1;
        }
        proof {
            assert(symbols@.skip(symbols@.len() as int) =~= Seq::<A>::empty());
        }
        if contains_value(&self.accept, &state) {
            Status::Accept(state)
        } else {
            Status::Reject(state)
        }
    }
}

/// Law: an evaluation verdict carries exactly the state reached by
/// folding the transition rule over the whole input from the start
/// state — `Accept` of it when it is an accept state, `Reject` of it
/// otherwise, and never any other state.
pub proof fn lemma_verdict_is_folded_state<S: Comparable, A: Comparable, F: Transition<S, A>>(
    a: DFA<S, A, F>,
    symbols: Seq<A>,
)
    ensures
        ({
            let f = run(a.transition_spec(), a.start_spec(), symbols);
            &&& a.spec_input(symbols) == Status::Accept(f) || a.spec_input(symbols)
                == Status::Reject(f)
            &&& a.spec_input(symbols) == Status::Accept(f) <==> a.accept_set().contains(f)
        }),
{
}

/// Law: on an empty input no transition is taken, so the verdict is
/// computed directly against the start state.
pub proof fn lemma_empty_input<S: Comparable, A: Comparable, F: Transition<S, A>>(a: DFA<S, A, F>)
    ensures
        a.accept_set().contains(a.start_spec()) ==> a.spec_input(Seq::empty()) == Status::Accept(
            a.start_spec(),
        ),
        !a.accept_set().contains(a.start_spec()) ==> a.spec_input(Seq::empty()) == Status::Reject(
            a.start_spec(),
        ),
{
}

/// Law: evaluation is deterministic.  `input` promises its result equals
/// `spec_input`, a function of the automaton and the input alone, so any
/// two results of evaluating the same automaton on the same input are
/// the same verdict.
pub proof fn lemma_input_deterministic<S: Comparable, A: Comparable, F: Transition<S, A>>(
    a: DFA<S, A, F>,
    symbols: Seq<A>,
    r1: Status<S>,
    r2: Status<S>,
)
    requires
        r1 == a.spec_input(symbols),
        r2 == a.spec_input(symbols),
    ensures
        r1 == r2,
{
}

} // verus!
