//! What a worker does: one insert or one transaction at a time.

pub mod core_workload;

pub use core_workload::CoreWorkload;

use crate::db::DbError;
use crate::db::DB;
use vstd::prelude::*;

verus! {

/// Why a worker stopped.
#[derive(Debug)]
pub enum WorkloadError {
    /// The storage capability failed.
    Storage(DbError),
    /// The completion window overflowed while acknowledging an insert.
    WindowOverflow,
    /// The command given to a worker was neither `load` nor `run`.
    InvalidCommand,
}

/// A workload: the per-operation behaviour a worker repeats. The two spec
/// members of each operation say when it may run and how it changes the
/// workload's own state; what storage does with the handed-over values is
/// the adapter's business.
pub trait Workload: Sized {
    /// When a load-phase insert may run.
    spec fn insert_ready(&self) -> bool;

    /// How a load-phase insert changes the workload state, and which
    /// results it can leave.
    spec fn insert_post(&self, post: Self, r: Result<(), WorkloadError>) -> bool;

    /// When a run-phase transaction may run.
    spec fn transaction_ready(&self) -> bool;

    /// How a run-phase transaction changes the workload state, and which
    /// results it can leave.
    spec fn transaction_post(&self, post: Self, r: Result<(), WorkloadError>) -> bool;

    /// One load-phase operation: synthesize a fresh row and insert it.
    fn do_insert<T: DB>(&mut self, db: &mut T) -> (r: Result<(), WorkloadError>)
        requires
            old(self).insert_ready(),
        ensures
            old(self).insert_post(*final(self), r),
    ;

    /// One run-phase operation, drawn from the configured mix.
    fn do_transaction<T: DB>(&mut self, db: &mut T) -> (r: Result<(), WorkloadError>)
        requires
            old(self).transaction_ready(),
        ensures
            old(self).transaction_post(*final(self), r),
    ;
}

} // verus!
