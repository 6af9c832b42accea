//! Laws the container obeys, stated over the mathematical model that the
//! operation contracts use: `spec_push_seq`, `spec_push_result` and
//! `spec_get` on the published sequence.

use vstd::prelude::*;

use crate::two_head_vec::{spec_get, spec_push_result, spec_push_seq};

verus! {

/// The published sequence after appending each of `values` in turn onto `s`,
/// under the given capacity.
pub open spec fn push_all<T>(s: Seq<T>, capacity: usize, values: Seq<T>) -> Seq<T>
    decreases values.len(),
{
    if values.len() == 0 {
        s
    } else {
        push_all(spec_push_seq(s, capacity, values[0]), capacity, values.skip(1))
    }
}

/// Appending values that all fit lands every one of them, in order.
proof fn lemma_push_all_fits<T>(s: Seq<T>, capacity: usize, values: Seq<T>)
    requires
        s.len() + values.len() <= capacity,
    ensures
        push_all(s, capacity, values) == s + values,
    decreases values.len(),
{
    if values.len() == 0 {
        assert(s + values =~= s);
    } else {
        assert(spec_push_seq(s, capacity, values[0]) == s.push(values[0]));
        lemma_push_all_fits(s.push(values[0]), capacity, values.skip(1));
        assert(s.push(values[0]) + values.skip(1) =~= s + values);
    }
}

/// Capacity bound: starting from an empty container of capacity `capacity`,
/// appending `values.len() <= capacity` values succeeds at every step and
/// publishes exactly those values in order; one more append onto the then
/// full container fails, hands the extra value back unchanged, and leaves
/// the published sequence as it was.
pub proof fn lemma_capacity_bound<T>(capacity: usize, values: Seq<T>, extra: T)
    requires
        values.len() <= capacity,
    ensures
        push_all(Seq::<T>::empty(), capacity, values) == values,
        forall|i: int|
            0 <= i < values.len() ==> spec_push_result(
                push_all(Seq::<T>::empty(), capacity, values.take(i)),
                capacity,
                values[i],
            ) == Ok::<(), T>(()),
        values.len() == capacity ==> spec_push_result(values, capacity, extra) == Err::<(), T>(
            extra,
        ),
        values.len() == capacity ==> spec_push_seq(values, capacity, extra) == values,
{
    lemma_push_all_fits(Seq::<T>::empty(), capacity, values);
    assert(Seq::<T>::empty() + values =~= values);
    assert forall|i: int|
        0 <= i < values.len() implies spec_push_result(
        push_all(Seq::<T>::empty(), capacity, values.take(i)),
        capacity,
        values[i],
    ) == Ok::<(), T>(()) by {
        lemma_push_all_fits(Seq::<T>::empty(), capacity, values.take(i));
        assert(Seq::<T>::empty() + values.take(i) =~= values.take(i));
    }
}

/// Read-your-writes: once an append of `value` has completed successfully,
/// a lookup at the index it landed at (the length before the append) yields
/// exactly `value`.
pub proof fn lemma_read_your_writes<T>(s: Seq<T>, capacity: usize, value: T)
    requires
        s.len() < capacity,
    ensures
        spec_get(spec_push_seq(s, capacity, value), s.len() as usize) == Ok::<T, usize>(value),
{
}

/// No torn reads: a lookup that succeeds returns an element of the published
/// sequence itself — a value some completed append put there — never any
/// other value.
pub proof fn lemma_no_torn_reads<T>(s: Seq<T>, index: usize, value: T)
    requires
        spec_get(s, index) == Ok::<T, usize>(value),
    ensures
        s.contains(value),
{
    assert(s[index as int] == value);
}

/// Bounds check: a lookup fails exactly on the indices at or past the
/// published length, reporting the offending index, and at every index below
/// the length it returns the published element, never failing spuriously.
pub proof fn lemma_bounds_check<T>(s: Seq<T>, index: usize)
    ensures
        index >= s.len() <==> spec_get(s, index) == Err::<T, usize>(index),
        index < s.len() ==> spec_get(s, index) == Ok::<T, usize>(s[index as int]),
{
}

/// Convergence: while no append is in flight the published sequence does not
/// change, and what a lookup must return is a function of that sequence and
/// the index alone, so repeated lookups at one index agree with each other.
pub proof fn lemma_idempotent_reads<T>(
    s: Seq<T>,
    index: usize,
    r1: Result<T, usize>,
    r2: Result<T, usize>,
)
    requires
        r1 == spec_get(s, index),
        r2 == spec_get(s, index),
    ensures
        r1 == r2,
{
}

} // verus!
