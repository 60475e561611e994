//! Cells whose value is local to an instance.
use crate::once::{cell_contents, cell_get, cell_set, empty_cell};
use crate::slot_id::{advanced, next_id, IdCounter};
use crate::table::{deref_result, init_slot, try_init_result, try_init_slot, LocalTable};
use core::marker::PhantomData;
use once_cell::sync::OnceCell;
use vstd::prelude::*;

verus! {

/// A declaration of one slot in every instance, holding a `T`.
///
/// The slot's identity is drawn from an [`IdCounter`] the first time the
/// cell is used, and kept from then on. Each instance's [`LocalTable`] holds
/// at most one value under that identity.
pub struct Local<T> {
    _type: PhantomData<T>,
    id: OnceCell<usize>,
}

impl<T> View for Local<T> {
    type V = Option<usize>;

    /// The cell's slot identity, once it has one.
    closed spec fn view(&self) -> Option<usize> {
        cell_contents(self.id)
    }
}

/// The identity that a cell in state `cell` settles on when the counter
/// stands at `next`: the one it has, or else the counter's value.
pub open spec fn resolved_id(cell: Option<usize>, next: usize) -> usize {
    match cell {
        Some(i) => i,
        None => next,
    }
}

/// The counter after a cell in state `cell` has settled its identity: only
/// a cell without one draws from the counter.
pub open spec fn counter_after(cell: Option<usize>, next: usize) -> usize {
    match cell {
        Some(_) => next,
        None => advanced(next),
    }
}

impl<T> Local<T> {
    /// The slot identity that the next access settles on when the counter
    /// stands at `counter`.
    pub open spec fn slot(&self, counter: IdCounter) -> usize {
        resolved_id(self@, counter@)
    }

    /// A cell with no identity yet.
    pub fn new() -> (r: Local<T>)
        ensures
            r@ == None::<usize>,
    {
        Local { _type: PhantomData, id: empty_cell() }
    }

    /// The cell's slot identity, drawn from `counter` on the first use and
    /// kept afterwards.
    pub fn id(&mut self, counter: &mut IdCounter) -> (r: usize)
        ensures
            r == old(self).slot(*old(counter)),
            final(counter)@ == counter_after(old(self)@, old(counter)@),
            final(self)@ == Some(r),
    {
        match cell_get(&mut self.id) {
            Some(i) => i,
            None => {
                let i = next_id(counter);
                let _ = cell_set(&mut self.id, i);
                i
            },
        }
    }
}

impl<T> Default for Local<T> {
    /// A cell with no identity yet, as [`Local::new`] gives.
    fn default() -> (r: Local<T>)
        ensures
            r@ == None::<usize>,
    {
        Local::new()
    }
}

impl<T: Send + 'static> Local<T> {
    /// The cell's value in the instance whose slots are `cx`, or `None` if
    /// it has not been initialised there. Nothing is stored.
    pub fn get<'a>(
        &mut self,
        counter: &mut IdCounter,
        cx: &'a LocalTable<T>,
    ) -> (r: Option<&'a T>)
        ensures
            final(self)@ == Some(old(self).slot(*old(counter))),
            final(counter)@ == counter_after(old(self)@, old(counter)@),
            r.is_some() == cx@.contains_key(old(self).slot(*old(counter))),
            r.is_some() ==> *r.unwrap() == cx@[old(self).slot(*old(counter))],
    {
        let id = self.id(counter);
        cx.lookup(id)
    }

    /// The cell's value in the instance `cx`, storing `value` there first if
    /// the cell has not been initialised in it.
    pub fn get_or_init<'a>(
        &mut self,
        counter: &mut IdCounter,
        cx: &'a mut LocalTable<T>,
        value: T,
    ) -> (r: &'a T)
        ensures
            final(self)@ == Some(old(self).slot(*old(counter))),
            final(counter)@ == counter_after(old(self)@, old(counter)@),
            final(cx)@ == init_slot(old(cx)@, old(self).slot(*old(counter)), value),
            *r == final(cx)@[old(self).slot(*old(counter))],
    {
        let id = self.id(counter);
        cx.get_or_init(id, value)
    }

    /// The cell's value in the instance `cx`, storing the result of `f` there
    /// first if the cell has not been initialised in it. `f` runs only then.
    pub fn get_or_init_with<'a, F: FnOnce() -> T>(
        &mut self,
        counter: &mut IdCounter,
        cx: &'a mut LocalTable<T>,
        f: F,
    ) -> (r: &'a T)
        requires
            f.requires(()),
        ensures
            final(self)@ == Some(old(self).slot(*old(counter))),
            final(counter)@ == counter_after(old(self)@, old(counter)@),
            old(cx)@.contains_key(old(self).slot(*old(counter))) ==> *r == old(cx)@[old(self).slot(*old(counter))],
            !old(cx)@.contains_key(old(self).slot(*old(counter))) ==> f.ensures((), *r),
            final(cx)@ == init_slot(old(cx)@, old(self).slot(*old(counter)), *r),
            *r == final(cx)@[old(self).slot(*old(counter))],
    {
        let id = self.id(counter);
        cx.get_or_init_with(id, f)
    }

    /// The cell's value in the instance `cx`, storing the value that `f`
    /// produces there first if the cell has not been initialised in it. `f`
    /// runs only then; its failure is handed back and stores nothing, so a
    /// later call tries again. `f` has no access to `cx`, so it cannot
    /// re-enter the initialisation it is part of.
    pub fn get_or_try_init<'a, E, F: FnOnce() -> Result<T, E>>(
        &mut self,
        counter: &mut IdCounter,
        cx: &'a mut LocalTable<T>,
        f: F,
    ) -> (r: Result<&'a T, E>)
        requires
            f.requires(()),
        ensures
            final(self)@ == Some(old(self).slot(*old(counter))),
            final(counter)@ == counter_after(old(self)@, old(counter)@),
            old(cx)@.contains_key(old(self).slot(*old(counter))) ==> deref_result(r) == Ok::<T, E>(old(cx)@[old(self).slot(*old(counter))]),
            !old(cx)@.contains_key(old(self).slot(*old(counter))) ==> f.ensures((), deref_result(r)),
            final(cx)@ == try_init_slot(old(cx)@, old(self).slot(*old(counter)), deref_result(r)),
            deref_result(r) == try_init_result(old(cx)@, old(self).slot(*old(counter)), deref_result(r)),
            r is Ok ==> *r->Ok_0 == final(cx)@[old(self).slot(*old(counter))],
    {
        let id = self.id(counter);
        cx.get_or_try_init(id, f)
    }
}

impl<T: Send + Default + 'static> Local<T> {
    /// The cell's value in the instance `cx`, storing `T::default()` there
    /// first if the cell has not been initialised in it.
    pub fn get_or_init_default<'a>(
        &mut self,
        counter: &mut IdCounter,
        cx: &'a mut LocalTable<T>,
    ) -> (r: &'a T)
        ensures
            final(self)@ == Some(old(self).slot(*old(counter))),
            final(counter)@ == counter_after(old(self)@, old(counter)@),
            old(cx)@.contains_key(old(self).slot(*old(counter))) ==> *r == old(cx)@[old(self).slot(*old(counter))],
            !old(cx)@.contains_key(old(self).slot(*old(counter))) ==> call_ensures(T::default, (), *r),
            final(cx)@ == init_slot(old(cx)@, old(self).slot(*old(counter)), *r),
            *r == final(cx)@[old(self).slot(*old(counter))],
    {
        self.get_or_init_with(counter, cx, T::default)
    }
}

} // verus!
