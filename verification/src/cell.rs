use vstd::prelude::*;
use std::sync::Arc;

verus! {

/// A shared slot holding an `Arc<i32>` that readers load and writers replace
/// without locking, backed by `arc_swap::ArcSwap<i32>`.
///
/// This is the only cell implementation the workloads run on.
///
/// The slot is changed through shared references from many threads at once, so
/// the value a load observes depends on how those threads interleave.
#[verifier::external_body]
pub struct SharedCell {
    inner: arc_swap::ArcSwap<i32>,
}

/// A read handle on the value a `SharedCell` held when it was loaded
/// (an `arc_swap::Guard<Arc<i32>>`); it keeps that value alive while it exists.
#[verifier::external_body]
pub struct ReadGuard {
    inner: arc_swap::Guard<Arc<i32>>,
}

/// What a `SharedCell` holds as of its last exclusive operation: its
/// construction, or a store made through `&mut`. Stores made through a shared
/// reference, which threads make concurrently, are not followed by this name.
pub uninterp spec fn cell_contents(cell: SharedCell) -> Seq<i32>;

impl SharedCell {
    /// Builds a slot holding `value`: `ArcSwap::new(value)`, which holds exactly
    /// the `Arc` it is given.
    #[verifier::external_body]
    pub(crate) fn new(value: Arc<i32>) -> (cell: SharedCell)
        ensures
            cell_contents(cell) == seq![*value],
    {
        SharedCell { inner: arc_swap::ArcSwap::new(value) }
    }

    /// Takes a read handle on the current value: `ArcSwapAny::load`.
    /// What it holds depends on concurrent stores, so nothing is promised of it.
    #[verifier::external_body]
    pub(crate) fn load(&self) -> (guard: ReadGuard) {
        ReadGuard { inner: self.inner.load() }
    }

    /// Replaces the held value with `value` while no other reference to the slot
    /// exists: `ArcSwapAny::store`, after which, as arc_swap documents, loads
    /// yield the new value.
    #[verifier::external_body]
    pub(crate) fn store_exclusive(&mut self, value: Arc<i32>)
        ensures
            cell_contents(*final(self)) == seq![*value],
    {
        self.inner.store(value)
    }

    /// Replaces the held value with `value`: `ArcSwapAny::store`.
    /// arc_swap documents that later loads yield this value; no clause says so,
    /// since other threads may store in between and the slot changes behind
    /// shared references, which a name over its contents could not follow.
    #[verifier::external_body]
    pub(crate) fn store(&self, value: Arc<i32>) {
        self.inner.store(value)
    }
}

/// The loads and stores one thread has made on one shared cell.
///
/// Its counts move only when a load or a store actually goes through it to the
/// cell it was opened on; nothing outside this module can set them.
pub struct Tally<'a> {
    cell: &'a SharedCell,
    loads: Ghost<nat>,
    stores: Ghost<nat>,
}

impl<'a> Tally<'a> {
    /// The cell the loads and stores go to.
    pub closed spec fn cell(&self) -> SharedCell {
        *self.cell
    }

    /// The number of loads made through this tally.
    pub closed spec fn loads(&self) -> nat {
        self.loads@
    }

    /// The number of stores made through this tally.
    pub closed spec fn stores(&self) -> nat {
        self.stores@
    }

    /// Opens a tally on `cell`, with no load or store made yet.
    pub fn on(cell: &'a SharedCell) -> (t: Tally<'a>)
        ensures
            t.cell() == *cell,
            t.loads() == 0,
            t.stores() == 0,
    {
        Tally { cell, loads: Ghost(0), stores: Ghost(0) }
    }

    /// Loads the cell once and hands back the guard.
    pub fn load(&mut self) -> (guard: ReadGuard)
        ensures
            final(self).cell() == old(self).cell(),
            final(self).loads() == old(self).loads() + 1,
            final(self).stores() == old(self).stores(),
    {
        let guard = self.cell.load();
        self.loads = Ghost(self.loads@ + 1);
        guard
    }

    /// Stores `value` into the cell once.
    pub fn store(&mut self, value: Arc<i32>)
        ensures
            final(self).cell() == old(self).cell(),
            final(self).loads() == old(self).loads(),
            final(self).stores() == old(self).stores() + 1,
    {
        self.cell.store(value);
        self.stores = Ghost(self.stores@ + 1);
    }
}

/// Hands `value` to `std::hint::black_box`, the identity function that the
/// compiler must treat as an unknown use of its argument; the result is `value`.
#[verifier::external_body]
pub(crate) fn opaque_use<T>(value: T) -> (same: T)
    ensures
        same == value,
{
    std::hint::black_box(value)
}

/// Draws an `i32` from the thread-local generator: `rand::random::<i32>()`.
/// The value is random, so nothing is promised of it.
#[verifier::external_body]
pub(crate) fn random_value() -> (value: i32) {
    rand::random::<i32>()
}

} // verus!
