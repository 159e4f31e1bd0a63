//! Shared ownership, and cells whose contents are borrowed at run time.

use crate::file::CountedPipe;
use crate::pipe::PipeFile;
use atomic_refcell::AtomicRef;
use atomic_refcell::AtomicRefCell;
use atomic_refcell::AtomicRefMut;
use atomic_refcell::BorrowError;
use atomic_refcell::BorrowMutError;
use std::sync::atomic::AtomicBool;
use std::sync::Arc;
use vstd::prelude::*;

verus! {

/// A cell whose contents are borrowed at run time.
#[verifier::external_type_specification]
#[verifier::external_body]
#[verifier::reject_recursive_types(T)]
pub struct ExAtomicRefCell<T: ?Sized>(atomic_refcell::AtomicRefCell<T>);

/// A borrow of a cell's contents.
#[verifier::external_type_specification]
#[verifier::external_body]
#[verifier::reject_recursive_types(T)]
pub struct ExAtomicRef<'b, T: ?Sized>(atomic_refcell::AtomicRef<'b, T>);

/// A mutable borrow of a cell's contents.
#[verifier::external_type_specification]
#[verifier::external_body]
#[verifier::reject_recursive_types(T)]
pub struct ExAtomicRefMut<'b, T: ?Sized + 'b>(atomic_refcell::AtomicRefMut<'b, T>);

/// The error of a borrow that failed.
#[verifier::external_type_specification]
#[verifier::external_body]
pub struct ExBorrowError(atomic_refcell::BorrowError);

/// The error of a mutable borrow that failed.
#[verifier::external_type_specification]
#[verifier::external_body]
pub struct ExBorrowMutError(atomic_refcell::BorrowMutError);

/// The contents that a borrow gives access to.
pub uninterp spec fn ref_contents(borrowed: AtomicRef<'_, PipeFile>) -> PipeFile;

/// The cell that a borrow was made from.
pub uninterp spec fn ref_cell(borrowed: AtomicRef<'_, PipeFile>) -> AtomicRefCell<PipeFile>;

/// The contents that a mutable borrow gives access to.
pub uninterp spec fn ref_mut_contents(borrowed: AtomicRefMut<'_, PipeFile>) -> PipeFile;

/// The cell that a mutable borrow was made from.
pub uninterp spec fn ref_mut_cell(borrowed: AtomicRefMut<'_, PipeFile>) -> AtomicRefCell<PipeFile>;

/// At some time a borrow of a cell was refused, which it is only while another one is alive.
pub uninterp spec fn borrow_refused(cell: AtomicRefCell<PipeFile>) -> bool;

/// [`AtomicRefCell::try_borrow`]. A borrow that succeeds is one of this cell, and one that fails
/// was refused. Which of the two it is depends on the borrows that are alive, and what the cell
/// holds on what was done through earlier ones, so neither is stated. The call panics if the number
/// of borrows that are alive would pass half of the range of `usize`, which memory does not allow
/// unless borrows are forgotten.
#[verifier::external_body]
pub(crate) fn try_borrow(cell: &AtomicRefCell<PipeFile>) -> (borrowed: Result<
    AtomicRef<'_, PipeFile>,
    BorrowError,
>)
    ensures
        borrowed matches Ok(borrowed) ==> ref_cell(borrowed) == *cell,
        borrowed is Err ==> borrow_refused(*cell),
{
    cell.try_borrow()
}

/// [`AtomicRefCell::try_borrow_mut`]. A borrow that succeeds is one of this cell, and one that
/// fails was refused. Which of the two it is depends on the borrows that are alive, and what the
/// cell holds on what was done through earlier ones, so neither is stated.
#[verifier::external_body]
pub(crate) fn try_borrow_mut(cell: &AtomicRefCell<PipeFile>) -> (borrowed: Result<
    AtomicRefMut<'_, PipeFile>,
    BorrowMutError,
>)
    ensures
        borrowed matches Ok(borrowed) ==> ref_mut_cell(borrowed) == *cell,
        borrowed is Err ==> borrow_refused(*cell),
{
    cell.try_borrow_mut()
}

/// `Deref::deref` of [`AtomicRef`], which gives access to what is borrowed.
#[verifier::external_body]
pub(crate) fn contents<'a>(borrowed: &'a AtomicRef<'_, PipeFile>) -> (file: &'a PipeFile)
    ensures
        *file == ref_contents(*borrowed),
{
    &**borrowed
}

/// `Deref::deref` of [`AtomicRefMut`], which gives access to what is borrowed.
#[verifier::external_body]
pub(crate) fn contents_of_mut<'a>(borrowed: &'a AtomicRefMut<'_, PipeFile>) -> (file: &'a PipeFile)
    ensures
        *file == ref_mut_contents(*borrowed),
{
    &**borrowed
}

/// `DerefMut::deref_mut` of [`AtomicRefMut`], which gives access to what is borrowed. What is
/// written to it is what the borrow then gives access to, and the borrow stays one of the same
/// cell.
#[verifier::external_body]
pub(crate) fn contents_mut<'a>(borrowed: &'a mut AtomicRefMut<'_, PipeFile>) -> (file:
    &'a mut PipeFile)
    ensures
        *file == ref_mut_contents(*old(borrowed)),
        ref_mut_contents(*final(borrowed)) == *final(file),
        ref_mut_cell(*final(borrowed)) == ref_mut_cell(*old(borrowed)),
{
    &mut **borrowed
}

/// At some time there were this many pointers to a count.
pub uninterp spec fn counted(count: AtomicBool, number: usize) -> bool;

/// At some time there were this many pointers to what holds a cell.
pub uninterp spec fn pointed_to(cell: AtomicRefCell<PipeFile>, number: usize) -> bool;

/// At some time what holds a cell lay at this address.
pub uninterp spec fn lay_at(cell: AtomicRefCell<PipeFile>, address: usize) -> bool;

/// [`Arc::clone`], which makes another pointer to the same allocation.
#[verifier::external_body]
pub(crate) fn arc_clone<T>(arc: &Arc<T>) -> (clone: Arc<T>)
    ensures
        clone == *arc,
{
    Arc::clone(arc)
}

/// [`Arc::into_inner`], which gives the value back if there is exactly one pointer to it. How many
/// there are does not show in the pointer that is given, so it is only stated that their number
/// decides. If the caller has another pointer to the value in `beside`, there are at least the two.
#[allow(unused_variables)]
#[verifier::external_body]
pub(crate) fn arc_into_inner(arc: Arc<CountedPipe>, beside: Option<&Arc<CountedPipe>>) -> (value:
    Option<CountedPipe>)
    ensures
        value matches Some(value) ==> value == *arc,
        value is Some ==> pointed_to(arc.cell(), 1),
        value is None ==> exists|number: usize| number > 1 && pointed_to(arc.cell(), number),
        value is Some ==> (beside matches Some(other) ==> **other != *arc),
{
    Arc::into_inner(arc)
}

/// [`Arc::strong_count`], the number of pointers to the allocation, of which there is at least the
/// one that is given. How many more there are does not show in it.
#[verifier::external_body]
pub(crate) fn arc_strong_count(arc: &Arc<AtomicBool>) -> (number: usize)
    ensures
        number > 0,
        counted(**arc, number),
{
    Arc::strong_count(arc)
}

/// The addresses that [`Arc::as_ptr`] gives for two pointers. Where an allocation lies is up to the
/// machine, but it is never at zero, and since both are around, they lie at one place if and only
/// if they are the same: each holds a cell of its own.
#[verifier::external_body]
pub(crate) fn arc_addresses(a: &Arc<CountedPipe>, b: &Arc<CountedPipe>) -> (addresses: (
    usize,
    usize,
))
    ensures
        addresses.0 != 0,
        addresses.1 != 0,
        addresses.0 == addresses.1 <==> **a == **b,
        lay_at(a.cell(), addresses.0),
        lay_at(b.cell(), addresses.1),
{
    (Arc::as_ptr(a) as usize, Arc::as_ptr(b) as usize)
}

} // verus!
