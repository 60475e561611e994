//! The one-time cell that holds a slot's identity, from the `once_cell` crate.
use once_cell::sync::OnceCell;
use vstd::prelude::*;

verus! {

#[verifier::external_type_specification]
#[verifier::external_body]
#[verifier::reject_recursive_types(T)]
pub struct ExOnceCell<T>(OnceCell<T>);

/// What a cell of slot identities holds: `None` while it is empty.
pub uninterp spec fn cell_contents(c: OnceCell<usize>) -> Option<usize>;

/// Relies on `once_cell::sync::OnceCell::new`: a new cell is empty.
#[verifier::external_body]
pub(crate) fn empty_cell() -> (r: OnceCell<usize>)
    ensures
        cell_contents(r) == None::<usize>,
{
    OnceCell::new()
}

/// Relies on `once_cell::sync::OnceCell::get_mut`: with the cell held
/// exclusively, it gives the value the cell holds, or `None` when it is empty,
/// and leaves the cell as it was.
#[verifier::external_body]
pub(crate) fn cell_get(c: &mut OnceCell<usize>) -> (r: Option<usize>)
    ensures
        r == cell_contents(*old(c)),
        *final(c) == *old(c),
{
    c.get_mut().copied()
}

/// Relies on `once_cell::sync::OnceCell::set`: an empty cell takes `v` and
/// answers `Ok`; a full one keeps its value and hands `v` back in `Err`.
#[verifier::external_body]
pub(crate) fn cell_set(c: &mut OnceCell<usize>, v: usize) -> (r: Result<(), usize>)
    ensures
        r == (if cell_contents(*old(c)) is None {
            Ok::<(), usize>(())
        } else {
            Err(v)
        }),
        cell_contents(*final(c)) == (if cell_contents(*old(c)) is None {
            Some(v)
        } else {
            cell_contents(*old(c))
        }),
{
    c.set(v)
}

} // verus!
