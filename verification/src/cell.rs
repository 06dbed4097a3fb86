//! A slot that is written at most once and read any number of times.

use vstd::prelude::*;

verus! {

/// `once_cell::sync::OnceCell`, carried as an opaque value.
#[verifier::external_type_specification]
#[verifier::external_body]
#[verifier::reject_recursive_types(T)]
pub struct ExOnceCell<T>(once_cell::sync::OnceCell<T>);

/// What a `once_cell::sync::OnceCell<u64>` holds: `None` while it is empty,
/// `Some(v)` once `v` has been stored in it.
pub uninterp spec fn cell_contents(cell: once_cell::sync::OnceCell<u64>) -> Option<u64>;

/// Calls `once_cell::sync::OnceCell::new`, which creates an empty cell.
#[verifier::external_body]
fn cell_new() -> (cell: once_cell::sync::OnceCell<u64>)
    ensures
        cell_contents(cell) == None::<u64>,
{
    once_cell::sync::OnceCell::new()
}

/// Calls `once_cell::sync::OnceCell::get`, which returns the stored value, or
/// `None` for an empty cell. The reference it hands out is copied.
#[verifier::external_body]
fn cell_get(cell: &once_cell::sync::OnceCell<u64>) -> (value: Option<u64>)
    ensures
        value == cell_contents(*cell),
{
    cell.get().copied()
}

/// The contents of a cell that held `before` when `value` was offered to it:
/// the first value offered stays.
pub open spec fn offered(before: Option<u64>, value: u64) -> Option<u64> {
    match before {
        Some(kept) => Some(kept),
        None => Some(value),
    }
}

/// What offering `value` to a cell that held `before` reports: success on an
/// empty cell, the rejected value on a full one.
pub open spec fn set_outcome(before: Option<u64>, value: u64) -> Result<(), u64> {
    match before {
        Some(_) => Err(value),
        None => Ok(()),
    }
}

/// Calls `once_cell::sync::OnceCell::set`. On an empty cell it stores `value`
/// and returns `Ok(())`; on a full cell it leaves the contents alone and
/// returns `Err(value)`. The exclusive borrow rules out a concurrent writer.
#[verifier::external_body]
fn cell_set(cell: &mut once_cell::sync::OnceCell<u64>, value: u64) -> (outcome: Result<(), u64>)
    ensures
        outcome == set_outcome(cell_contents(*old(cell)), value),
        cell_contents(*final(cell)) == offered(cell_contents(*old(cell)), value),
{
    cell.set(value)
}

/// A write-once, read-many slot for a 64-bit value.
///
/// The first `set` fills the slot; every later `set` is a no-op. Nothing ever
/// empties or overwrites a filled slot.
pub struct SetOnce {
    cell: once_cell::sync::OnceCell<u64>,
}

impl View for SetOnce {
    type V = Option<u64>;

    closed spec fn view(&self) -> Option<u64> {
        cell_contents(self.cell)
    }
}

impl SetOnce {
    /// An empty slot.
    pub fn create() -> (slot: SetOnce)
        ensures
            slot@ == None::<u64>,
    {
        SetOnce { cell: cell_new() }
    }

    /// Stores `value` if the slot is empty and reports whether it did.
    /// A filled slot keeps its value, and the call is not an error.
    pub fn set(&mut self, value: u64) -> (stored: bool)
        ensures
            stored == (old(self)@ is None),
            final(self)@ == offered(old(self)@, value),
    {
        match cell_set(&mut self.cell, value) {
            Ok(_) => true,
            Err(_) => false,
        }
    }

    /// The stored value, or `None` while the slot is not ready.
    pub fn get(&self) -> (value: Option<u64>)
        ensures
            value == self@,
    {
        cell_get(&self.cell)
    }
}

} // verus!
