//! The parsed workload configuration.
//!
//! Proportions are held as integer parts per million of
//! [`PROPORTION_SCALE`], so that a fraction like 0.95 is stored as 950 000.
//! The loader that reads a workload file converts its fractional values to
//! this scale before handing them to the library.

use vstd::prelude::*;
use vstd::string::StringExecFns;

verus! {

/// One whole: the denominator of every proportion field.
pub const PROPORTION_SCALE: u64 = 1000000;

/// An immutable record of the workload configuration, loaded once per run.
pub struct Properties {
    pub insert_start: u64,
    pub insert_count: u64,
    pub operation_count: u64,
    pub record_count: u64,
    pub thread_count: u64,
    pub max_execution_time: Option<u64>,
    pub warmup_time: Option<u64>,
    /// One of `constant`, `uniform`, `zipfian`, `histogram`.
    pub field_length_distribution: String,
    pub field_length: u64,
    /// Which distribution chooses read keys; `uniform` is supported.
    pub request_distribution: String,
    pub read_proportion: u64,
    pub update_proportion: u64,
    pub insert_proportion: u64,
    pub scan_proportion: u64,
    pub read_modify_write_proportion: u64,
}

pub fn zero_u64() -> (r: u64)
    ensures
        r == 0,
{
    0
}

pub fn thread_count_default() -> (r: u64)
    ensures
        r == 200,
{
    200
}

pub fn field_length_distribution_default() -> (r: String)
    ensures
        r@ == "constant"@,
{
    String::from_str("constant")
}

pub fn field_length_default() -> (r: u64)
    ensures
        r == 100,
{
    100
}

pub fn request_distribution_default() -> (r: String)
    ensures
        r@ == "uniform"@,
{
    String::from_str("uniform")
}

pub fn read_proportion_default() -> (r: u64)
    ensures
        r == 950000,
{
    950000
}

pub fn update_proportion_default() -> (r: u64)
    ensures
        r == 950000,
{
    950000
}

pub fn insert_proportion_default() -> (r: u64)
    ensures
        r == 0,
{
    0
}

pub fn scan_proportion_default() -> (r: u64)
    ensures
        r == 0,
{
    0
}

pub fn read_modify_write_proportion_default() -> (r: u64)
    ensures
        r == 0,
{
    0
}

impl Properties {
    /// A configuration with every optional key at its default.
    pub fn new(operation_count: u64) -> (r: Properties)
        ensures
            r.insert_start == 0,
            r.insert_count == 0,
            r.operation_count == operation_count,
            r.record_count == 0,
            r.thread_count == 200,
            r.max_execution_time is None,
            r.warmup_time is None,
            r.field_length_distribution@ == "constant"@,
            r.field_length == 100,
            r.request_distribution@ == "uniform"@,
            r.read_proportion == 950000,
            r.update_proportion == 950000,
            r.insert_proportion == 0,
            r.scan_proportion == 0,
            r.read_modify_write_proportion == 0,
    {
        Properties {
            insert_start: zero_u64(),
            insert_count: zero_u64(),
            operation_count,
            record_count: zero_u64(),
            thread_count: thread_count_default(),
            max_execution_time: None,
            warmup_time: None,
            field_length_distribution: field_length_distribution_default(),
            field_length: field_length_default(),
            request_distribution: request_distribution_default(),
            read_proportion: read_proportion_default(),
            update_proportion: update_proportion_default(),
            insert_proportion: insert_proportion_default(),
            scan_proportion: scan_proportion_default(),
            read_modify_write_proportion: read_modify_write_proportion_default(),
        }
    }
}

} // verus!
