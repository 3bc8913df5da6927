pub mod automaton;
pub mod compare;
pub mod table;
