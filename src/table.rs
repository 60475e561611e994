//! The storage that one instance holds: at most one value per slot identity.
use std::collections::HashMap;
use vstd::prelude::*;
use vstd::std_specs::hash::group_hash_axioms;

verus! {

broadcast use group_hash_axioms;

/// The slots of one instance, keyed by slot identity. A slot, once filled,
/// keeps its value for as long as the table lives: no operation here removes
/// or replaces an entry.
pub struct LocalTable<T> {
    cells: HashMap<usize, T>,
}

impl<T> View for LocalTable<T> {
    type V = Map<usize, T>;

    closed spec fn view(&self) -> Map<usize, T> {
        self.cells@
    }
}

/// The slots after offering `v` to slot `id`: an empty slot takes it, a
/// filled one keeps what it holds.
pub open spec fn init_slot<T>(m: Map<usize, T>, id: usize, v: T) -> Map<usize, T> {
    if m.contains_key(id) {
        m
    } else {
        m.insert(id, v)
    }
}

/// The slots after a fallible initialisation of slot `id` whose producer
/// gave `produced` (consulted only when the slot is empty). A failure
/// stores nothing.
pub open spec fn try_init_slot<T, E>(m: Map<usize, T>, id: usize, produced: Result<T, E>) -> Map<
    usize,
    T,
> {
    if m.contains_key(id) {
        m
    } else {
        match produced {
            Ok(v) => m.insert(id, v),
            Err(_) => m,
        }
    }
}

/// What a fallible initialisation of slot `id` answers: the value already
/// there, or else whatever the producer gave.
pub open spec fn try_init_result<T, E>(m: Map<usize, T>, id: usize, produced: Result<T, E>) -> Result<
    T,
    E,
> {
    if m.contains_key(id) {
        Ok(m[id])
    } else {
        produced
    }
}

/// A result that refers to a value, read as the value itself.
pub open spec fn deref_result<T, E>(r: Result<&T, E>) -> Result<T, E> {
    match r {
        Ok(v) => Ok(*v),
        Err(e) => Err(e),
    }
}

impl<T> LocalTable<T> {
    /// A table with every slot empty.
    pub fn new() -> (r: LocalTable<T>)
        ensures
            r@ == Map::<usize, T>::empty(),
    {
        LocalTable { cells: HashMap::new() }
    }

    /// The value in slot `id`, if the slot is filled.
    pub fn lookup(&self, id: usize) -> (r: Option<&T>)
        ensures
            r.is_some() == self@.contains_key(id),
            r.is_some() ==> *r.unwrap() == self@[id],
    {
        self.cells.get(&id)
    }

    /// Fills slot `id` with `value` if it is empty, and returns what the slot
    /// holds afterwards.
    pub fn get_or_init(&mut self, id: usize, value: T) -> (r: &T)
        ensures
            final(self)@ == init_slot(old(self)@, id, value),
            final(self)@.contains_key(id),
            *r == final(self)@[id],
    {
        if !self.cells.contains_key(&id) {
            self.cells.insert(id, value);
        }
        self.cells.get(&id).unwrap()
    }
    /// Fills slot `id` with the result of `f` if it is empty, and returns what
    /// the slot holds afterwards. `f` runs only when the slot is empty.
    pub fn get_or_init_with<F: FnOnce() -> T>(&mut self, id: usize, f: F) -> (r: &T)
        requires
            f.requires(()),
        ensures
            old(self)@.contains_key(id) ==> *r == old(self)@[id],
            !old(self)@.contains_key(id) ==> f.ensures((), *r),
            final(self)@ == init_slot(old(self)@, id, *r),
            *r == final(self)@[id],
    {
        if !self.cells.contains_key(&id) {
            let value = f();
            self.cells.insert(id, value);
        }
        self.cells.get(&id).unwrap()
    }

    /// Fills slot `id` with the value that `f` produces if the slot is empty.
    /// A failure of `f` is handed back and leaves the slot empty, so a later
    /// call may try again. `f` runs only when the slot is empty.
    pub fn get_or_try_init<E, F: FnOnce() -> Result<T, E>>(&mut self, id: usize, f: F) -> (r:
        Result<&T, E>)
        requires
            f.requires(()),
        ensures
            old(self)@.contains_key(id) ==> deref_result(r) == Ok::<T, E>(old(self)@[id]),
            !old(self)@.contains_key(id) ==> f.ensures((), deref_result(r)),
            final(self)@ == try_init_slot(old(self)@, id, deref_result(r)),
            deref_result(r) == try_init_result(old(self)@, id, deref_result(r)),
            r is Ok ==> *r->Ok_0 == final(self)@[id],
    {
        if !self.cells.contains_key(&id) {
            match f() {
                Ok(value) => {
                    self.cells.insert(id, value);
                },
                Err(e) => {
                    return Err(e);
                },
            }
        }
        Ok(self.cells.get(&id).unwrap())
    }
}

} // verus!
