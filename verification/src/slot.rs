//! The slot of a store: the one place where the library calls into
//! `arc_swap`, and the only part of it that is taken on trust.
//!
//! A slot is an `arc_swap` cell together with a record of the snapshot it was
//! made with. `holding` is verified; it is the only way to make a slot, so the
//! record always names what the cell was made with. `fresh`, `read` and
//! `replace` are not proved. Each makes one call into `arc_swap` and states
//! what that call is relied on for. Together they keep one invariant: every
//! snapshot that is or ever was in the cell is the one it was made with, or
//! one that the rule admits. `replace` demands it of what goes in, and `read`
//! claims it of what comes out.

use crate::rule::Rule;
use arc_swap::ArcSwap;
use std::marker::PhantomData;
use std::sync::Arc;
use vstd::prelude::*;

verus! {

/// An `arc_swap::ArcSwap`. Its type cannot be described to Verus, because the
/// strategy types it is built from are private to that crate; so it is kept
/// behind this struct, and Verus sees nothing of it.
#[verifier::external_body]
#[verifier::reject_recursive_types(T)]
struct SwapCell<T> {
    inner: ArcSwap<T>,
}

impl<T> SwapCell<T> {
    /// Calls `ArcSwapAny::new`, which makes a cell that holds `initial`.
    /// Nothing is claimed of the cell.
    #[verifier::external_body]
    fn fresh(initial: Arc<T>) -> (cell: Self) {
        SwapCell { inner: ArcSwap::new(initial) }
    }
}

/// The cell that holds the current snapshot, with the snapshot it was made
/// with on record. The type parameter `R` names the rule under which the slot
/// is refilled.
#[verifier::reject_recursive_types(T)]
#[verifier::reject_recursive_types(R)]
pub(crate) struct CurrentSlot<T, R> {
    cell: SwapCell<T>,
    first: Ghost<Arc<T>>,
    rule: PhantomData<R>,
}

impl<T, R: Rule<T>> CurrentSlot<T, R> {
    /// The snapshot that the slot was made with.
    pub(crate) closed spec fn first(&self) -> T {
        *self.first@
    }

    /// Makes a slot that holds `initial`.
    pub(crate) fn holding(initial: Arc<T>) -> (slot: Self)
        ensures
            slot.first() == *initial,
    {
        let first = Ghost(initial);
        CurrentSlot { cell: SwapCell::fresh(initial), first, rule: PhantomData }
    }

    /// Calls `ArcSwapAny::load_full`, which takes, atomically, one more handle
    /// to the snapshot that the cell holds. Which snapshot that is depends on
    /// what other callers did in the meantime. Claimed is only what holds of
    /// every snapshot that was ever in the cell: it is the one the cell was
    /// made with, or `replace` put it there, and then the rule admits it.
    #[verifier::external_body]
    pub(crate) fn read(&self) -> (snapshot: Arc<T>)
        ensures
            *snapshot == self.first() || R::admits(*snapshot),
    {
        self.cell.inner.load_full()
    }

    /// Calls `ArcSwapAny::store`, which puts `snapshot` in the place of the
    /// snapshot held and drops the cell's handle to that one. Nothing is
    /// returned, and nothing is claimed.
    #[verifier::external_body]
    pub(crate) fn replace(&self, snapshot: Arc<T>)
        requires
            R::admits(*snapshot),
    {
        self.cell.inner.store(snapshot)
    }
}

} // verus!
