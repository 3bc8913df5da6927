use vstd::prelude::*;

verus! {

/// Executable equality that agrees with logical equality.
///
/// An automaton repeatedly compares states against membership sets and
/// symbols against table entries, so both of its type parameters must
/// supply an equality test whose verdict matches `==` in specifications.
pub trait Comparable: Sized + Copy {
    /// Returns whether `self` and `other` are the same value.
    fn equals(&self, other: &Self) -> (r: bool)
        ensures
            r <==> self == other,
    ;
}

impl Comparable for bool {
    fn equals(&self, other: &Self) -> (r: bool) {
        *self == *other
    }
}

impl Comparable for char {
    fn equals(&self, other: &Self) -> (r: bool) {
        *self == *other
    }
}

impl Comparable for u8 {
    fn equals(&self, other: &Self) -> (r: bool) {
        *self == *other
    }
}

impl Comparable for u16 {
    fn equals(&self, other: &Self) -> (r: bool) {
        *self == *other
    }
}

impl Comparable for u32 {
    fn equals(&self, other: &Self) -> (r: bool) {
        *self == *other
    }
}

impl Comparable for u64 {
    fn equals(&self, other: &Self) -> (r: bool) {
        *self == *other
    }
}

impl Comparable for usize {
    fn equals(&self, other: &Self) -> (r: bool) {
        *self == *other
    }
}

impl Comparable for i8 {
    fn equals(&self, other: &Self) -> (r: bool) {
        *self == *other
    }
}

impl Comparable for i16 {
    fn equals(&self, other: &Self) -> (r: bool) {
        *self == *other
    }
}

impl Comparable for i32 {
    fn equals(&self, other: &Self) -> (r: bool) {
        *self == *other
    }
}

impl Comparable for i64 {
    fn equals(&self, other: &Self) -> (r: bool) {
        *self == *other
    }
}

impl Comparable for isize {
    fn equals(&self, other: &Self) -> (r: bool) {
        *self == *other
    }
}

/// Returns whether `items` holds `x`, by the `Comparable` equality.
pub fn contains_value<T: Comparable>(items: &Vec<T>, x: &T) -> (r: bool)
    ensures
        r <==> items@.contains(*x),
{
    let mut i: usize = 0;
    while i < items.len()
        invariant
            i <= items@.len(),
            forall|j: int| 0 <= j < i ==> items@[j] != *x,
        decreases items@.len() - i,
    {
        if items[i].equals(x) {
            return true;
        }
        i += 1;
    }
    false
}

/// Collapses duplicates: the result holds the same values as `items`,
/// each exactly once.
pub fn dedup<T: Comparable>(items: Vec<T>) -> (r: Vec<T>)
    ensures
        r@.to_set() == items@.to_set(),
        r@.no_duplicates(),
{
    let mut out: Vec<T> = Vec::new();
    let mut i: usize = 0;
    while i < items.len()
        invariant
            i <= items@.len(),
            out@.to_set() == items@.take(i as int).to_set(),
            out@.no_duplicates(),
        decreases items@.len() - i,
    {
        let x = items[i];
        let ghost prev = out@;
        if !contains_value(&out, &x) {
            out.push(x);
        }
        proof {
            broadcast use vstd::seq_lib::group_seq_properties;
            broadcast use vstd::prelude::Seq::lemma_push_to_set_commute;

            assert(items@.take(i + 1) =~= items@.take(i as int).push(items@[i as int]));
            if prev.contains(x) {
                assert(prev.to_set().contains(x));
                assert(prev.to_set().insert(x) =~= prev.to_set());
            }
            assert(out@.to_set() =~= items@.take(i + 1).to_set());
        }
        i += 1;
    }
    proof {
        assert(items@.take(items@.len() as int) =~= items@);
    }
    out
}

} // verus!
