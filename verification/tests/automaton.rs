use dfa::automaton::DFA;
use dfa::automaton::Transition;
use dfa::automaton::Status;
use dfa::compare::contains_value;
use dfa::compare::dedup;
use dfa::table::TransitionTable;

fn same_set<T: PartialEq + Copy>(got: &Vec<T>, want: &[T]) -> bool {
    got.len() == want.len() && want.iter().all(|x| got.contains(x))
        && got.iter().all(|x| want.contains(x))
}

fn chars_of(s: &str) -> Vec<char> {
    s.chars().collect()
}

#[test]
fn it_works() {
    let result = 2 + 2;
    assert_eq!(result, 4);
}

#[test]
fn create_dfa() {
    let transition = TransitionTable::new(vec![(1, 'a', 2)], Some(3));
    let dfa = DFA::new(vec![1, 2, 3], vec!['a', 'b'], transition, 1, vec![2]);

    assert!(same_set(dfa.states(), &[1, 2, 3]));
    assert!(same_set(dfa.alphabet(), &['a', 'b']));
    assert!(*dfa.start_state() == 1);
    assert!(same_set(dfa.accept_states(), &[2]));
}

#[test]
fn run_inputs() {
    let transition = TransitionTable::new(
        vec![
            (0, '0', 0),
            (0, '1', 1),
            (1, '0', 2),
            (1, '1', 0),
            (2, '0', 1),
            (2, '1', 2),
        ],
        None,
    );
    let dfa = DFA::new(vec![0, 1, 2], vec!['0', '1'], transition, 0, vec![0]);

    assert!(dfa.input(&chars_of("0")) == Status::Accept(0));
    assert!(dfa.input(&chars_of("1")) == Status::Reject(1));
    assert!(dfa.input(&chars_of("11")) == Status::Accept(0));
    assert!(dfa.input(&chars_of("10")) == Status::Reject(2));
    assert!(dfa.input(&chars_of("1001")) == Status::Accept(0));
}

#[test]
fn single_entry_with_fallback_runs() {
    let transition = TransitionTable::new(vec![(1, 'a', 2)], Some(3));
    let dfa = DFA::new(vec![1, 2, 3], vec!['a', 'b'], transition, 1, vec![2]);

    assert!(dfa.input(&chars_of("a")) == Status::Accept(2));
    assert!(dfa.input(&chars_of("b")) == Status::Reject(3));
    assert!(dfa.input(&chars_of("ab")) == Status::Reject(3));
}

#[test]
fn empty_input_accepts_start_in_accept_set() {
    let transition = TransitionTable::new(vec![(0, '0', 0)], None);
    let dfa = DFA::new(vec![0, 1], vec!['0'], transition, 0, vec![0, 1]);

    assert!(dfa.input(&Vec::new()) == Status::Accept(0));
}

#[test]
fn empty_input_rejects_start_outside_accept_set() {
    let transition = TransitionTable::new(vec![(0, '0', 0)], None);
    let dfa = DFA::new(vec![0, 1], vec!['0'], transition, 0, vec![1]);

    assert!(dfa.input(&Vec::new()) == Status::Reject(0));
}

#[test]
fn repeated_evaluation_is_deterministic() {
    let transition = TransitionTable::new(
        vec![
            (0, '0', 0),
            (0, '1', 1),
            (1, '0', 2),
            (1, '1', 0),
            (2, '0', 1),
            (2, '1', 2),
        ],
        None,
    );
    let dfa = DFA::new(vec![0, 1, 2], vec!['0', '1'], transition, 0, vec![0]);

    let first = dfa.input(&chars_of("1001"));
    let second = dfa.input(&chars_of("1001"));
    let third = dfa.input(&chars_of("1001"));
    assert!(first == second);
    assert!(second == third);
    assert!(first == Status::Accept(0));
}

#[test]
fn accessors_idempotent_across_evaluation() {
    let transition = TransitionTable::new(vec![(1, 'a', 2)], Some(3));
    let dfa = DFA::new(vec![1, 2, 3], vec!['a', 'b'], transition, 1, vec![2]);

    let states_before: Vec<i32> = dfa.states().clone();
    let alphabet_before: Vec<char> = dfa.alphabet().clone();
    let start_before: i32 = *dfa.start_state();
    let accept_before: Vec<i32> = dfa.accept_states().clone();

    let _ = dfa.input(&chars_of("ab"));

    assert!(dfa.states() == &states_before);
    assert!(dfa.alphabet() == &alphabet_before);
    assert!(*dfa.start_state() == start_before);
    assert!(dfa.accept_states() == &accept_before);
    assert!(dfa.states() == &states_before);
    assert!(*dfa.start_state() == start_before);
}

#[test]
fn verdict_carries_folded_state() {
    let transition = TransitionTable::new(
        vec![
            (0, '0', 0),
            (0, '1', 1),
            (1, '0', 2),
            (1, '1', 0),
            (2, '0', 1),
            (2, '1', 2),
        ],
        None,
    );
    let dfa = DFA::new(vec![0, 1, 2], vec!['0', '1'], transition, 0, vec![0]);

    let word = chars_of("10110");
    let mut state: i32 = *dfa.start_state();
    for c in &word {
        state = dfa.transition_function().next(state, *c);
    }
    let verdict = dfa.input(&word);
    assert!(verdict == Status::Accept(state) || verdict == Status::Reject(state));
    let carried = match verdict {
        Status::Accept(s) => s,
        Status::Reject(s) => s,
    };
    assert_eq!(carried, state);
}

#[test]
fn duplicate_entries_collapse() {
    let transition = TransitionTable::new(vec![(1, 'a', 2)], Some(3));
    let dfa = DFA::new(
        vec![1, 1, 2, 3, 2],
        vec!['a', 'b', 'a'],
        transition,
        1,
        vec![2, 2],
    );

    assert!(same_set(dfa.states(), &[1, 2, 3]));
    assert_eq!(dfa.states().len(), 3);
    assert!(same_set(dfa.alphabet(), &['a', 'b']));
    assert_eq!(dfa.alphabet().len(), 2);
    assert!(same_set(dfa.accept_states(), &[2]));
    assert_eq!(dfa.accept_states().len(), 1);
}

#[test]
fn fallback_covers_unlisted_pairs() {
    let transition: TransitionTable<i32, char> =
        TransitionTable::new(vec![(1, 'a', 2)], Some(3));
    assert_eq!(transition.next(1, 'a'), 2);
    assert_eq!(transition.next(1, 'b'), 3);
    assert_eq!(transition.next(2, 'a'), 3);
}

#[test]
fn dedup_and_membership() {
    let items = dedup(vec![4, 4, 5, 4, 6, 5]);
    assert_eq!(items.len(), 3);
    assert!(contains_value(&items, &4));
    assert!(contains_value(&items, &5));
    assert!(contains_value(&items, &6));
    assert!(!contains_value(&items, &7));
}
