//! A workload generator and benchmark driver for key-value stores.
//!
//! The crate composes statistical generators (constant, counter, uniform,
//! weighted-discrete, and an acknowledged counter with a sliding completion
//! window) into a configurable stream of insert and read operations against
//! a pluggable storage capability, and reports how many operations each
//! worker runs.

pub mod db;
pub mod generator;
pub mod properties;
pub mod rng;
pub mod sqlite;
pub mod text;
pub mod workload;

use crate::db::DB;
use crate::text::dec_rep;
use crate::text::u64_to_decimal;
use crate::workload::core_workload::operation_in_support;
use crate::workload::core_workload::same_static_config;
use crate::workload::core_workload::CoreOperation;
use crate::workload::CoreWorkload;
use crate::workload::Workload;
use crate::workload::WorkloadError;
use vstd::prelude::*;
use vstd::string::StringExecFns;

verus! {

/// One worker's load phase: `repeat` inserts in a row, stopping at the
/// first failure. On success the key sequence has advanced by exactly
/// `repeat`; on failure it stopped somewhere inside the run.
pub fn load<T: DB>(wl: &mut CoreWorkload, db: &mut T, repeat: usize) -> (r: Result<
    (),
    WorkloadError,
>)
    requires
        old(wl).wf(),
        old(wl).field_length_generator.samples_internally(),
        old(wl).key_sequence.counter + repeat <= u64::MAX,
    ensures
        final(wl).wf(),
        same_static_config(*old(wl), *final(wl)),
        final(wl).transaction_insert_key_sequence == old(wl).transaction_insert_key_sequence,
        old(wl).key_sequence.counter <= final(wl).key_sequence.counter <= old(wl).key_sequence.counter + repeat,
        r is Ok ==> final(wl).key_sequence.counter == old(wl).key_sequence.counter + repeat,
        r matches Err(e) ==> e is Storage,
{
    let ghost pre = *old(wl);
    let mut i: usize = 0;
    while i < repeat
        invariant
            0 <= i <= repeat,
            pre == *old(wl),
            wl.wf(),
            same_static_config(pre, *wl),
            wl.transaction_insert_key_sequence == pre.transaction_insert_key_sequence,
            wl.field_length_generator.samples_internally(),
            wl.key_sequence.counter == pre.key_sequence.counter + i,
            pre.key_sequence.counter + repeat <= u64::MAX,
        decreases repeat - i,
    {
        match wl.do_insert(db) {
            Ok(()) => {},
            Err(e) => {
                return Err(e);
            },
        }
        i = i + 1;
    }
    Ok(())
}

/// One worker's run phase: `repeat` transactions, stopping at the first
/// failure. The load-phase key sequence is untouched and the acknowledged
/// counter only moves forward.
pub fn run<T: DB>(wl: &mut CoreWorkload, db: &mut T, repeat: usize) -> (r: Result<
    (),
    WorkloadError,
>)
    requires
        old(wl).wf(),
        old(wl).field_length_generator.samples_internally() || !operation_in_support(
            old(wl).operation_chooser,
            CoreOperation::Insert,
        ),
        old(wl).transaction_insert_key_sequence.counter.counter + repeat <= u64::MAX,
    ensures
        final(wl).wf(),
        same_static_config(*old(wl), *final(wl)),
        final(wl).key_sequence == old(wl).key_sequence,
        old(wl).transaction_insert_key_sequence.limit <= final(wl).transaction_insert_key_sequence.limit,
        old(wl).transaction_insert_key_sequence.counter.counter <= final(wl).transaction_insert_key_sequence.counter.counter <= old(wl).transaction_insert_key_sequence.counter.counter + repeat,
        r matches Err(e) ==> (e is Storage || e is WindowOverflow),
        // a mix that cannot draw an insert assigns no insert keys at all
        !operation_in_support(old(wl).operation_chooser, CoreOperation::Insert) ==> final(wl).transaction_insert_key_sequence == old(wl).transaction_insert_key_sequence,
{
    let ghost pre = *old(wl);
    let mut i: usize = 0;
    while i < repeat
        invariant
            0 <= i <= repeat,
            pre == *old(wl),
            wl.wf(),
            same_static_config(pre, *wl),
            wl.key_sequence == pre.key_sequence,
            pre.transaction_insert_key_sequence.limit
                <= wl.transaction_insert_key_sequence.limit,
            pre.transaction_insert_key_sequence.counter.counter + i
                >= wl.transaction_insert_key_sequence.counter.counter,
            pre.transaction_insert_key_sequence.counter.counter
                <= wl.transaction_insert_key_sequence.counter.counter,
            pre.transaction_insert_key_sequence.counter.counter + repeat <= u64::MAX,
            pre.field_length_generator.samples_internally() || !operation_in_support(
                pre.operation_chooser,
                CoreOperation::Insert,
            ),
            !operation_in_support(pre.operation_chooser, CoreOperation::Insert)
                ==> wl.transaction_insert_key_sequence
                == pre.transaction_insert_key_sequence,
        decreases repeat - i,
    {
        match wl.do_transaction(db) {
            Ok(()) => {},
            Err(e) => {
                return Err(e);
            },
        }
        i = i + 1;
    }
    Ok(())
}

/// Dispatches one worker: `load` and `run` are the only commands; any
/// other is refused, and only then.
pub fn thread_runner<T: DB>(db: &mut T, wl: &mut CoreWorkload, repeat: usize, cmd: &str) -> (r:
    Result<(), WorkloadError>)
    requires
        old(wl).wf(),
        cmd@ == "load"@ ==> old(wl).field_length_generator.samples_internally(),
        cmd@ == "run"@ ==> (old(wl).field_length_generator.samples_internally()
            || !operation_in_support(old(wl).operation_chooser, CoreOperation::Insert)),
        old(wl).key_sequence.counter + repeat <= u64::MAX,
        old(wl).transaction_insert_key_sequence.counter.counter + repeat <= u64::MAX,
    ensures
        final(wl).wf(),
        same_static_config(*old(wl), *final(wl)),
        (r matches Err(e) && e is InvalidCommand) <==> (cmd@ != "load"@ && cmd@ != "run"@),
        cmd@ == "load"@ ==> {
            &&& final(wl).transaction_insert_key_sequence == old(wl).transaction_insert_key_sequence
            &&& old(wl).key_sequence.counter <= final(wl).key_sequence.counter <= old(wl).key_sequence.counter + repeat
            &&& (r is Ok ==> final(wl).key_sequence.counter == old(wl).key_sequence.counter
                + repeat)
            &&& (r matches Err(e) ==> e is Storage)
        },
        cmd@ == "run"@ ==> {
            &&& final(wl).key_sequence == old(wl).key_sequence
            &&& old(wl).transaction_insert_key_sequence.limit <= final(wl).transaction_insert_key_sequence.limit
            &&& old(wl).transaction_insert_key_sequence.counter.counter <= final(wl).transaction_insert_key_sequence.counter.counter <= old(wl).transaction_insert_key_sequence.counter.counter + repeat
            &&& (r matches Err(e) ==> (e is Storage || e is WindowOverflow))
            &&& (!operation_in_support(old(wl).operation_chooser, CoreOperation::Insert)
                ==> final(wl).transaction_insert_key_sequence == old(wl).transaction_insert_key_sequence)
        },
{
    proof {
        reveal_strlit("load");
        reveal_strlit("run");
        assert("load"@[0] == 'l' && "run"@[0] == 'r');
    }
    let name = String::from_str(cmd);
    if name == String::from_str("load") {
        load(wl, db, repeat)
    } else if name == String::from_str("run") {
        run(wl, db, repeat)
    } else {
        Err(WorkloadError::InvalidCommand)
    }
}

/// How many operations each of `n_threads` workers runs: the integer
/// quotient. Remainder operations are dropped deliberately, so that every
/// worker runs the same count.
pub fn per_thread_operations(operation_count: usize, n_threads: usize) -> (r: usize)
    requires
        n_threads >= 1,
    ensures
        r == operation_count / n_threads,
{
    operation_count / n_threads
}

/// The overall-report line naming the worker count.
pub fn report_thread_count_line(n_threads: u64) -> (r: String)
    ensures
        r@ == "[OVERALL], ThreadCount, "@ + dec_rep(n_threads as nat),
{
    let mut s = String::from_str("[OVERALL], ThreadCount, ");
    s.append(u64_to_decimal(n_threads).as_str());
    s
}

/// The overall-report line naming a command's wall time in milliseconds.
pub fn report_runtime_line(runtime_ms: u64) -> (r: String)
    ensures
        r@ == "[OVERALL], RunTime(ms), "@ + dec_rep(runtime_ms as nat),
{
    let mut s = String::from_str("[OVERALL], RunTime(ms), ");
    s.append(u64_to_decimal(runtime_ms).as_str());
    s
}

} // verus!
