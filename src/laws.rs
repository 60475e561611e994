//! Properties that hold across several calls of the accessors.
use crate::local::{counter_after, resolved_id};
use crate::table::{init_slot, try_init_result, try_init_slot};
use vstd::prelude::*;

verus! {

/// Once a cell has been accessed in an instance and the slot was filled,
/// another access of the same cell in the same instance keeps the cell's
/// identity, draws nothing from the counter, changes nothing, and answers the
/// value stored by the first, whatever it offers or produces. This holds of a
/// first access that offered a value and of a fallible one that succeeded.
pub proof fn lemma_second_access_agrees<T, E>(
    cell: Option<usize>,
    next: usize,
    m: Map<usize, T>,
    v: T,
    offered: T,
    produced: Result<T, E>,
)
    ensures
        ({
            let id = resolved_id(cell, next);
            let n1 = counter_after(cell, next);
            let m1 = init_slot(m, id, v);
            &&& try_init_slot(m, id, Ok::<T, E>(v)) == m1
            &&& resolved_id(Some(id), n1) == id
            &&& counter_after(Some(id), n1) == n1
            &&& m1.contains_key(id)
            &&& init_slot(m1, id, offered) == m1
            &&& try_init_slot(m1, id, produced) == m1
            &&& try_init_result(m1, id, produced) == Ok::<T, E>(m1[id])
        }),
{
}

/// A fallible initialisation that fails leaves the slot empty, so the next
/// attempt consults its producer again and stores what that one gives; once
/// an attempt succeeds, the slot keeps its value and every later attempt
/// answers it, whatever its producer would give.
pub proof fn lemma_failure_does_not_poison<T, E>(
    m: Map<usize, T>,
    id: usize,
    failure: E,
    retried: Result<T, E>,
    later: Result<T, E>,
)
    requires
        !m.contains_key(id),
    ensures
        try_init_slot(m, id, Err::<T, E>(failure)) == m,
        try_init_result(m, id, Err::<T, E>(failure)) == Err::<T, E>(failure),
        try_init_slot(m, id, retried) == (match retried {
            Ok(v) => m.insert(id, v),
            Err(_) => m,
        }),
        try_init_result(m, id, retried) == retried,
        retried is Ok ==> ({
            let m2 = try_init_slot(m, id, retried);
            &&& try_init_slot(m2, id, later) == m2
            &&& try_init_result(m2, id, later) == Ok::<T, E>(retried->Ok_0)
        }),
{
}

/// Two cells that settle their identities one after the other on the same
/// counter never share an identity, provided that every identity either of
/// them already had was drawn earlier from that counter (so lies below its
/// value), that they did not already share one, and that the counter does
/// not wrap round meanwhile.
pub proof fn lemma_distinct_cells_never_share_identity(
    first: Option<usize>,
    second: Option<usize>,
    next: usize,
)
    requires
        next < usize::MAX,
        first is Some ==> first->Some_0 < next,
        second is Some ==> second->Some_0 < next,
        first is Some && second is Some ==> first != second,
    ensures
        resolved_id(first, next) != resolved_id(second, counter_after(first, next)),
{
}

/// What one instance stores through a cell stays in that instance: the store
/// fills the slot in that instance's table alone, and a later read of the
/// same cell in another instance looks at the same slot of its own table, so
/// an instance in which the slot was empty still finds it empty.
pub proof fn lemma_instances_are_isolated<T>(
    cell: Option<usize>,
    next: usize,
    mine: Map<usize, T>,
    other: Map<usize, T>,
    v: T,
)
    requires
        !other.contains_key(resolved_id(cell, next)),
    ensures
        ({
            let id = resolved_id(cell, next);
            let n1 = counter_after(cell, next);
            &&& init_slot(mine, id, v).contains_key(id)
            &&& resolved_id(Some(id), n1) == id
            &&& !other.contains_key(resolved_id(Some(id), n1))
        }),
{
}

} // verus!
