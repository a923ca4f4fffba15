//! Cooperative cancellation. The host owns a flag shared with every snapshot
//! taken since the last batch; starting a new batch raises the flag before
//! any mutation, and in-flight reads abort when they next poll it.
use vstd::prelude::*;
use std::sync::Arc;
use core::sync::atomic::AtomicBool;
use core::sync::atomic::Ordering;

verus! {

/// The signal that a query was superseded by a concurrent mutation; always
/// recoverable by retrying against a fresh snapshot.
#[derive(Clone, Copy, Debug, PartialEq, Eq, Structural)]
pub struct Canceled;

/// Either a completed result or a cancellation signal. An absent result is a
/// successful `Ok(None)` or `Ok(vec![])`, never `Err`.
pub type Cancelable<T> = Result<T, Canceled>;

impl Canceled {
    pub fn new() -> (r: Canceled)
        ensures
            r == Canceled,
    {
        Canceled
    }
}

/// Relies on `core::sync::atomic::Ordering::SeqCst`: hands the strongest
/// memory ordering to the flag's load and store.
#[verifier::external_body]
fn seq_cst() -> Ordering {
    Ordering::SeqCst
}

/// One batch generation's cancellation flag. The host keeps the writing end;
/// each snapshot of that generation holds a reading clone. The flag's value
/// is shared mutable state, so nothing is promised of what a poll returns.
#[derive(Debug)]
pub struct CancelFlag {
    cell: Arc<AtomicBool>,
}

impl CancelFlag {
    /// A fresh, lowered flag for a new generation of snapshots.
    pub fn new() -> CancelFlag {
        CancelFlag { cell: Arc::new(AtomicBool::new(false)) }
    }

    /// A reading end of the same flag, handed to a snapshot.
    pub fn share(&self) -> CancelFlag {
        CancelFlag { cell: Arc::clone(&self.cell) }
    }

    /// Raises the flag: every holder of this generation sees cancellation
    /// from its next poll on.
    pub fn raise(&self) {
        (&*self.cell).store(true, seq_cst());
    }

    /// Polls the flag. The result reflects whether some holder raised it;
    /// as shared state it can change between two polls, so no value is pinned.
    pub fn is_raised(&self) -> bool {
        (&*self.cell).load(seq_cst())
    }
}

/// The base capability every queryable view offers: telling whether the data
/// it reads has been superseded, and turning that into an early abort.
pub trait BaseDatabase: Sized {
    /// Whether the view's generation has been canceled by a newer batch.
    fn is_canceled(&self) -> bool;

    /// Aborts with `Canceled` when the view is superseded; the no-value
    /// result `Ok(())` lets a read continue.
    fn check_canceled(&self) -> (r: Cancelable<()>) {
        if self.is_canceled() {
            Err(Canceled::new())
        } else {
            Ok(())
        }
    }
}

} // verus!
