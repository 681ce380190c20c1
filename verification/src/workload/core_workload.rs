//! The core workload: composes the generators into the YCSB-style mix of
//! inserts and transactions.

use crate::db::DB;
use crate::generator::AcknowledgedCounterGenerator;
use crate::generator::ConstantGenerator;
use crate::generator::CounterGenerator;
use crate::generator::DiscreteGenerator;
use crate::generator::Generator;
use crate::generator::UniformLongGenerator;
use crate::generator::WeightPair;
use crate::generator::acknowledged_counter_generator::ack_ok_post;
use crate::generator::acknowledged_counter_generator::slot_of;
use crate::generator::acknowledged_counter_generator::WINDOW_SIZE;
use crate::generator::discrete_generator::pick_from;
use crate::generator::discrete_generator::total_from;
use crate::generator::discrete_generator::total_weight;
use crate::generator::discrete_generator::lemma_total_from_concat;
use crate::properties::Properties;
use crate::properties::PROPORTION_SCALE;
use crate::rng::fresh_rng;
use crate::rng::is_alnum_char;
use crate::rng::sample_alphanumeric;
use crate::text::dec_rep;
use crate::text::lower_of;
use crate::text::to_lowercase;
use crate::text::u64_to_decimal;
use crate::workload::Workload;
use crate::workload::WorkloadError;
use vstd::prelude::*;
use vstd::string::StringExecFns;

verus! {

broadcast use vstd::string::group_string_axioms;

/// The multiplier of the key scramble; the FNV-1a offset basis, which this
/// workload deliberately also uses as the multiplier.
pub const FNV_PRIME: u64 = 0xcbf29ce484222325;

/// One round of the key scramble: fold the low octet in by xor, then
/// multiply (wrapping) by the constant.
pub open spec fn fnv_step(h: u64, octet: u64) -> u64 {
    vstd::wrapping::u64_specs::wrapping_mul(h ^ octet, FNV_PRIME)
}

/// `n` rounds of the scramble over the octets of `x`, least significant
/// first.
pub open spec fn fnv_rounds(h: u64, x: u64, n: nat) -> u64
    decreases n,
{
    if n == 0 {
        h
    } else {
        fnv_rounds(fnv_step(h, x & 0xff), x >> 8, (n - 1) as nat)
    }
}

/// The 64-bit key scramble: eight rounds starting from the constant.
pub open spec fn fnv1a64(x: u64) -> u64 {
    fnv_rounds(FNV_PRIME, x, 8)
}

/// Scrambles a monotone key into a spread key space, so that hot spots of
/// the key chooser land in hashed order rather than assignment order.
pub fn fnvhash64(val: u64) -> (r: u64)
    ensures
        r == fnv1a64(val),
{
    let ghost orig = val;
    let mut val = val;
    let prime: u64 = 0xcbf29ce484222325;
    let mut hashval = prime;
    let mut i: u64 = 0;
    while i < 8
        invariant
            0 <= i <= 8,
            prime == FNV_PRIME,
            fnv_rounds(hashval, val, (8 - i) as nat) == fnv1a64(orig),
        decreases 8 - i,
    {
        let octet = val & 0x00ff;
        val >>= 8;
        hashval ^= octet;
        hashval = hashval.wrapping_mul(prime);
        i = i + 1;
    }
    hashval
}

/// The fixed names of the ten row fields.
pub open spec fn field_name_spec(i: int) -> Seq<char> {
    if i == 0 {
        "field0"@
    } else if i == 1 {
        "field1"@
    } else if i == 2 {
        "field2"@
    } else if i == 3 {
        "field3"@
    } else if i == 4 {
        "field4"@
    } else if i == 5 {
        "field5"@
    } else if i == 6 {
        "field6"@
    } else if i == 7 {
        "field7"@
    } else if i == 8 {
        "field8"@
    } else {
        "field9"@
    }
}

/// Every character of the string is alphanumeric.
pub open spec fn all_alnum(s: Seq<char>) -> bool {
    forall|j: int| 0 <= j < s.len() ==> is_alnum_char(#[trigger] s[j])
}

/// The operations a transaction can be.
#[derive(Copy, Clone, Debug, PartialEq, Eq, Structural)]
pub enum CoreOperation {
    Read,
    Update,
    Insert,
    Scan,
    ReadModifyWrite,
}

/// A configuration the workload cannot be built from.
#[derive(Copy, Clone, Debug, PartialEq, Eq, Structural)]
pub enum ConfigError {
    /// The field length distribution names none of the known kinds.
    UnknownFieldLengthDistribution,
    /// The named field length distribution is reserved and unimplemented:
    /// `histogram`.
    UnsupportedFieldLengthDistribution,
    /// A field length of zero under `uniform`, or one too large to allocate.
    InvalidFieldLength,
    /// The derived insert count or key range is degenerate.
    InvalidKeyRange,
    /// Only `uniform` is served as a request distribution.
    UnsupportedRequestDistribution,
    /// A proportion exceeds one whole.
    InvalidProportion,
    /// Every proportion is zero: no operation could ever be chosen.
    NoOperations,
}

/// The distribution of field value lengths.
///
/// A Zipfian length distribution is served through its bounds alone: the
/// skewed draws are floating-point work that lives with the driver, which
/// hands each sampled length in as a plain value (see
/// [`CoreWorkload::build_insert_row_from`]). The library states what holds
/// of every such draw: it lies inside the configured range.
pub enum FieldLengthGenerator {
    Constant(ConstantGenerator<u64>),
    Uniform(UniformLongGenerator),
    Zipfian { lower_bound: u64, upper_bound: u64 },
}

impl FieldLengthGenerator {
    /// Lengths must be allocatable and the range non-empty.
    pub open spec fn wf(&self) -> bool {
        match self {
            FieldLengthGenerator::Constant(c) => c.value <= usize::MAX,
            FieldLengthGenerator::Uniform(u) => u.lower_bound <= u.upper_bound && u.upper_bound
                <= usize::MAX,
            FieldLengthGenerator::Zipfian { lower_bound, upper_bound } => *lower_bound
                <= *upper_bound && *upper_bound <= usize::MAX,
        }
    }

    /// The lengths this distribution can produce.
    pub open spec fn in_support(&self, len: u64) -> bool {
        match self {
            FieldLengthGenerator::Constant(c) => len == c.value,
            FieldLengthGenerator::Uniform(u) => u.lower_bound <= len <= u.upper_bound,
            FieldLengthGenerator::Zipfian { lower_bound, upper_bound } => *lower_bound <= len
                <= *upper_bound,
        }
    }

    /// Whether the generator draws its own lengths. Zipfian lengths come
    /// from the driver instead: their sampler is floating point.
    pub open spec fn samples_internally(&self) -> bool {
        !(self is Zipfian)
    }
}

impl Generator<u64> for FieldLengthGenerator {
    open spec fn sample_req(&self) -> bool {
        &&& self.wf()
        &&& self.samples_internally()
    }

    open spec fn sample_ens(&self, post: Self, r: u64) -> bool {
        &&& post == *self
        &&& self.in_support(r)
    }

    fn next_value(&mut self, rng: &mut rand::rngs::SmallRng) -> (r: u64) {
        match self {
            FieldLengthGenerator::Constant(c) => c.next_value(rng),
            FieldLengthGenerator::Uniform(u) => u.next_value(rng),
            FieldLengthGenerator::Zipfian { lower_bound, .. } => {
                // unreachable: sampling demands an internally sampling
                // generator
                proof {
                    assert(false);
                }
                *lower_bound
            },
        }
    }
}

/// Whether the configured field length distribution can be served.
pub open spec fn field_length_config_ok(prop: Properties) -> bool {
    let d = lower_of(prop.field_length_distribution@);
    ||| (d == "constant"@ && prop.field_length <= usize::MAX)
    ||| (d == "uniform"@ && 1 <= prop.field_length <= usize::MAX)
    ||| (d == "zipfian"@ && 1 <= prop.field_length <= usize::MAX)
}

/// Builds the field length generator the configuration names.
pub fn get_field_length_generator(prop: &Properties) -> (r: Result<
    FieldLengthGenerator,
    ConfigError,
>)
    ensures
        r matches Ok(g) ==> g.wf(),
        ({
            let d = lower_of(prop.field_length_distribution@);
            &&& (d == "constant"@ && prop.field_length <= usize::MAX) ==> (r matches Ok(
                FieldLengthGenerator::Constant(c),
            ) && c.value == prop.field_length)
            &&& (d == "constant"@ && prop.field_length > usize::MAX) ==> (r matches Err(e) && e
                == ConfigError::InvalidFieldLength)
            &&& (d == "uniform"@ && 1 <= prop.field_length <= usize::MAX) ==> (r matches Ok(
                FieldLengthGenerator::Uniform(u),
            ) && u.lower_bound == 1 && u.upper_bound == prop.field_length)
            &&& (d == "uniform"@ && !(1 <= prop.field_length <= usize::MAX)) ==> (r matches Err(
                e,
            ) && e == ConfigError::InvalidFieldLength)
            &&& (d == "zipfian"@ && 1 <= prop.field_length <= usize::MAX) ==> (r matches Ok(g)
                && g == (FieldLengthGenerator::Zipfian {
                lower_bound: 1,
                upper_bound: prop.field_length,
            }))
            &&& (d == "zipfian"@ && !(1 <= prop.field_length <= usize::MAX)) ==> (r matches Err(
                e,
            ) && e == ConfigError::InvalidFieldLength)
            &&& d == "histogram"@ ==> (r matches Err(e) && e
                == ConfigError::UnsupportedFieldLengthDistribution)
            &&& (d != "constant"@ && d != "uniform"@ && d != "zipfian"@ && d != "histogram"@)
                ==> (r matches Err(e) && e == ConfigError::UnknownFieldLengthDistribution)
            &&& r is Ok <==> field_length_config_ok(*prop)
        }),
{
    proof {
        reveal_strlit("constant");
        reveal_strlit("uniform");
        reveal_strlit("zipfian");
        reveal_strlit("histogram");
        // the four distribution names differ pairwise in their first letter
        assert("constant"@[0] == 'c' && "uniform"@[0] == 'u' && "zipfian"@[0] == 'z'
            && "histogram"@[0] == 'h');
    }
    let lower = to_lowercase(prop.field_length_distribution.as_str());
    if lower == String::from_str("constant") {
        if prop.field_length <= usize::MAX as u64 {
            Ok(FieldLengthGenerator::Constant(ConstantGenerator::new(prop.field_length)))
        } else {
            Err(ConfigError::InvalidFieldLength)
        }
    } else if lower == String::from_str("uniform") {
        if 1 <= prop.field_length && prop.field_length <= usize::MAX as u64 {
            Ok(FieldLengthGenerator::Uniform(UniformLongGenerator::new(1, prop.field_length)))
        } else {
            Err(ConfigError::InvalidFieldLength)
        }
    } else if lower == String::from_str("zipfian") {
        // the Zipfian sampler runs on floating point, which lives with the
        // driver; the library serves the configuration through its bounds
        if 1 <= prop.field_length && prop.field_length <= usize::MAX as u64 {
            Ok(FieldLengthGenerator::Zipfian { lower_bound: 1, upper_bound: prop.field_length })
        } else {
            Err(ConfigError::InvalidFieldLength)
        }
    } else if lower == String::from_str("histogram") {
        Err(ConfigError::UnsupportedFieldLengthDistribution)
    } else {
        Err(ConfigError::UnknownFieldLengthDistribution)
    }
}

/// The insert count the key chooser covers: the configured one when it is
/// meaningful, otherwise what the record count leaves after the start key.
pub open spec fn effective_insert_count(prop: Properties) -> int {
    if prop.insert_count > 1 {
        prop.insert_count as int
    } else {
        prop.record_count - prop.insert_start
    }
}

/// Whether the read-key range is usable.
pub open spec fn key_range_ok(prop: Properties) -> bool {
    &&& effective_insert_count(prop) > 1
    &&& prop.insert_start + effective_insert_count(prop) - 1 <= u64::MAX
}

/// Builds the read-key chooser the configuration names.
pub fn get_key_chooser_generator(prop: &Properties) -> (r: Result<
    UniformLongGenerator,
    ConfigError,
>)
    ensures
        !key_range_ok(*prop) ==> (r matches Err(e) && e == ConfigError::InvalidKeyRange),
        key_range_ok(*prop) && lower_of(prop.request_distribution@) != "uniform"@ ==> (r matches Err(
            e,
        ) && e == ConfigError::UnsupportedRequestDistribution),
        key_range_ok(*prop) && lower_of(prop.request_distribution@) == "uniform"@ ==> (r matches Ok(
            u,
        ) && u.lower_bound == prop.insert_start && u.upper_bound == prop.insert_start
            + effective_insert_count(*prop) - 1),
{
    let insert_count: u64;
    if prop.insert_count > 1 {
        insert_count = prop.insert_count;
    } else if prop.record_count >= prop.insert_start {
        insert_count = prop.record_count - prop.insert_start;
    } else {
        return Err(ConfigError::InvalidKeyRange);
    }
    if insert_count <= 1 {
        return Err(ConfigError::InvalidKeyRange);
    }
    if prop.insert_start > u64::MAX - (insert_count - 1) {
        return Err(ConfigError::InvalidKeyRange);
    }
    let lower = to_lowercase(prop.request_distribution.as_str());
    if lower == String::from_str("uniform") {
        Ok(UniformLongGenerator::new(prop.insert_start, prop.insert_start + (insert_count - 1)))
    } else {
        Err(ConfigError::UnsupportedRequestDistribution)
    }
}

/// One optional entry of the operation pool.
pub open spec fn opt_pair(w: u64, v: CoreOperation) -> Seq<WeightPair<CoreOperation>> {
    if w > 0 {
        seq![WeightPair { weight: w, value: v }]
    } else {
        Seq::<WeightPair<CoreOperation>>::empty()
    }
}

/// The weight an optional entry contributes: its own when it is in the
/// pool, nothing otherwise.
proof fn lemma_opt_pair_total(w: u64, v: CoreOperation)
    ensures
        total_from(opt_pair(w, v), 0) == if w > 0 {
            w as int
        } else {
            0int
        },
{
    if w > 0 {
        let s = opt_pair(w, v);
        assert(total_from(s, 1) == 0);
    }
}

/// The operation pool the configuration asks for: only the strictly
/// positive proportions, in the fixed order read, update, insert, scan,
/// read-modify-write.
pub open spec fn expected_operation_pairs(prop: Properties) -> Seq<WeightPair<CoreOperation>> {
    opt_pair(prop.read_proportion, CoreOperation::Read) + opt_pair(
        prop.update_proportion,
        CoreOperation::Update,
    ) + opt_pair(prop.insert_proportion, CoreOperation::Insert) + opt_pair(
        prop.scan_proportion,
        CoreOperation::Scan,
    ) + opt_pair(prop.read_modify_write_proportion, CoreOperation::ReadModifyWrite)
}

/// Every proportion is a fraction of one whole.
pub open spec fn proportions_valid(prop: Properties) -> bool {
    &&& prop.read_proportion <= PROPORTION_SCALE
    &&& prop.update_proportion <= PROPORTION_SCALE
    &&& prop.insert_proportion <= PROPORTION_SCALE
    &&& prop.scan_proportion <= PROPORTION_SCALE
    &&& prop.read_modify_write_proportion <= PROPORTION_SCALE
}

/// Whether an operation chooser can be built at all.
pub open spec fn operation_mix_ok(prop: Properties) -> bool {
    &&& proportions_valid(prop)
    &&& total_weight(expected_operation_pairs(prop)) > 0
}

/// Builds the operation chooser from the proportions.
pub fn create_operation_generator(prop: &Properties) -> (r: Result<
    DiscreteGenerator<CoreOperation>,
    ConfigError,
>)
    ensures
        !proportions_valid(*prop) ==> (r matches Err(e) && e == ConfigError::InvalidProportion),
        proportions_valid(*prop) && total_weight(expected_operation_pairs(*prop)) == 0
            ==> (r matches Err(e) && e == ConfigError::NoOperations),
        operation_mix_ok(*prop) ==> (r matches Ok(g) && g.values@ == expected_operation_pairs(
            *prop,
        ) && g.wf()),
        r is Ok <==> operation_mix_ok(*prop),
{
    if prop.read_proportion > PROPORTION_SCALE || prop.update_proportion > PROPORTION_SCALE
        || prop.insert_proportion > PROPORTION_SCALE || prop.scan_proportion > PROPORTION_SCALE
        || prop.read_modify_write_proportion > PROPORTION_SCALE {
        return Err(ConfigError::InvalidProportion);
    }
    let ghost e1 = opt_pair(prop.read_proportion, CoreOperation::Read);
    let ghost e2 = opt_pair(prop.update_proportion, CoreOperation::Update);
    let ghost e3 = opt_pair(prop.insert_proportion, CoreOperation::Insert);
    let ghost e4 = opt_pair(prop.scan_proportion, CoreOperation::Scan);
    let ghost e5 = opt_pair(prop.read_modify_write_proportion, CoreOperation::ReadModifyWrite);
    let mut pairs: Vec<WeightPair<CoreOperation>> = Vec::new();
    if prop.read_proportion > 0 {
        pairs.push(WeightPair::new(prop.read_proportion, CoreOperation::Read));
    }
    proof {
        assert(pairs@ =~= e1);
    }
    if prop.update_proportion > 0 {
        pairs.push(WeightPair::new(prop.update_proportion, CoreOperation::Update));
    }
    proof {
        assert(pairs@ =~= e1 + e2);
    }
    if prop.insert_proportion > 0 {
        pairs.push(WeightPair::new(prop.insert_proportion, CoreOperation::Insert));
    }
    proof {
        assert(pairs@ =~= e1 + e2 + e3);
    }
    if prop.scan_proportion > 0 {
        pairs.push(WeightPair::new(prop.scan_proportion, CoreOperation::Scan));
    }
    proof {
        assert(pairs@ =~= e1 + e2 + e3 + e4);
    }
    if prop.read_modify_write_proportion > 0 {
        pairs.push(
            WeightPair::new(prop.read_modify_write_proportion, CoreOperation::ReadModifyWrite),
        );
    }
    proof {
        assert(pairs@ =~= e1 + e2 + e3 + e4 + e5);
        lemma_total_from_concat(e1, e2, 0);
        lemma_total_from_concat(e1 + e2, e3, 0);
        lemma_total_from_concat(e1 + e2 + e3, e4, 0);
        lemma_total_from_concat(e1 + e2 + e3 + e4, e5, 0);
        lemma_opt_pair_total(prop.read_proportion, CoreOperation::Read);
        lemma_opt_pair_total(prop.update_proportion, CoreOperation::Update);
        lemma_opt_pair_total(prop.insert_proportion, CoreOperation::Insert);
        lemma_opt_pair_total(prop.scan_proportion, CoreOperation::Scan);
        lemma_opt_pair_total(prop.read_modify_write_proportion, CoreOperation::ReadModifyWrite);
        assert(total_weight(pairs@) <= 5 * PROPORTION_SCALE);
    }
    match DiscreteGenerator::new(pairs) {
        Ok(g) => Ok(g),
        Err(_) => Err(ConfigError::NoOperations),
    }
}

/// The whole configuration can be served.
pub open spec fn config_ok(prop: Properties) -> bool {
    &&& field_length_config_ok(prop)
    &&& key_range_ok(prop)
    &&& lower_of(prop.request_distribution@) == "uniform"@
    &&& operation_mix_ok(prop)
}

/// Whether the chooser can produce `op`: some draw inside its total
/// weight lands on a pair holding it.
pub open spec fn operation_in_support(g: DiscreteGenerator<CoreOperation>, op: CoreOperation) -> bool {
    exists|d: int| 0 <= d < g.sum && op == g.values@[pick_from(g.values@, 0, d)].value
}

/// A well-formed freshly synthesized row: the ten field names in order,
/// each value alphanumeric with a length from the field length
/// distribution's support.
pub open spec fn row_ok(flg: FieldLengthGenerator, row: Seq<(String, String)>) -> bool {
    &&& row.len() == 10
    &&& forall|i: int|
        0 <= i < 10 ==> {
            &&& (#[trigger] row[i]).0@ == field_name_spec(i)
            &&& flg.in_support(row[i].1@.len() as u64)
            &&& all_alnum(row[i].1@)
        }
}

/// The composed workload: all generator state a worker samples from.
pub struct CoreWorkload {
    pub rng: rand::rngs::SmallRng,
    pub table: String,
    pub field_count: u64,
    pub field_names: Vec<String>,
    pub field_length_generator: FieldLengthGenerator,
    pub read_all_fields: bool,
    pub write_all_fields: bool,
    pub data_integrity: bool,
    pub key_sequence: CounterGenerator,
    pub operation_chooser: DiscreteGenerator<CoreOperation>,
    pub key_chooser: UniformLongGenerator,
    pub transaction_insert_key_sequence: AcknowledgedCounterGenerator,
    pub ordered_inserts: bool,
    pub record_count: usize,
    pub zero_padding: usize,
    pub insertion_retry_limit: u64,
    pub insertion_retry_interval: u64,
}

/// Everything a single operation leaves alone: only the random state, the
/// key sequence and the acknowledged counter ever move.
pub open spec fn same_static_config(pre: CoreWorkload, post: CoreWorkload) -> bool {
    &&& post.table == pre.table
    &&& post.field_count == pre.field_count
    &&& post.field_names == pre.field_names
    &&& post.field_length_generator == pre.field_length_generator
    &&& post.read_all_fields == pre.read_all_fields
    &&& post.write_all_fields == pre.write_all_fields
    &&& post.data_integrity == pre.data_integrity
    &&& post.operation_chooser == pre.operation_chooser
    &&& post.key_chooser == pre.key_chooser
    &&& post.ordered_inserts == pre.ordered_inserts
    &&& post.record_count == pre.record_count
    &&& post.zero_padding == pre.zero_padding
    &&& post.insertion_retry_limit == pre.insertion_retry_limit
    &&& post.insertion_retry_interval == pre.insertion_retry_interval
}

impl CoreWorkload {
    /// The workload's invariant.
    pub open spec fn wf(&self) -> bool {
        &&& self.table@ == "usertable"@
        &&& self.field_count == 10
        &&& self.field_names@.len() == 10
        &&& forall|i: int| 0 <= i < 10 ==> (#[trigger] self.field_names@[i])@ == field_name_spec(i)
        &&& self.field_length_generator.wf()
        &&& self.operation_chooser.wf()
        &&& self.key_chooser.lower_bound <= self.key_chooser.upper_bound
        &&& self.transaction_insert_key_sequence.wf()
    }

    /// Builds the workload from a configuration, or says exactly why the
    /// configuration cannot be served.
    pub fn new(prop: &Properties) -> (r: Result<CoreWorkload, ConfigError>)
        ensures
            r is Ok <==> config_ok(*prop),
            r matches Ok(w) ==> {
                &&& w.wf()
                &&& w.key_sequence.counter == prop.insert_start
                &&& w.transaction_insert_key_sequence.counter.counter == 1
                &&& w.transaction_insert_key_sequence.limit == 0
                &&& forall|s: int|
                    0 <= s < WINDOW_SIZE ==> !w.transaction_insert_key_sequence.window@[s]
                &&& w.operation_chooser.values@ == expected_operation_pairs(*prop)
                &&& w.key_chooser.lower_bound == prop.insert_start
                &&& w.key_chooser.upper_bound == prop.insert_start + effective_insert_count(*prop)
                    - 1
                &&& (lower_of(prop.field_length_distribution@) == "constant"@ ==> (
                w.field_length_generator matches FieldLengthGenerator::Constant(c) && c.value
                    == prop.field_length))
                &&& (lower_of(prop.field_length_distribution@) == "uniform"@ ==> (
                w.field_length_generator matches FieldLengthGenerator::Uniform(u) && u.lower_bound
                    == 1 && u.upper_bound == prop.field_length))
                &&& (lower_of(prop.field_length_distribution@) == "zipfian"@
                    ==> w.field_length_generator == (FieldLengthGenerator::Zipfian {
                    lower_bound: 1,
                    upper_bound: prop.field_length,
                }))
                &&& w.read_all_fields && w.write_all_fields && w.data_integrity
                    && w.ordered_inserts
                &&& w.record_count == 1 && w.zero_padding == 1
                &&& w.insertion_retry_limit == 0 && w.insertion_retry_interval == 0
            },
    {
        let rng = fresh_rng();
        let mut field_names: Vec<String> = Vec::new();
        field_names.push("field0".to_owned());
        field_names.push("field1".to_owned());
        field_names.push("field2".to_owned());
        field_names.push("field3".to_owned());
        field_names.push("field4".to_owned());
        field_names.push("field5".to_owned());
        field_names.push("field6".to_owned());
        field_names.push("field7".to_owned());
        field_names.push("field8".to_owned());
        field_names.push("field9".to_owned());
        let field_length_generator = match get_field_length_generator(prop) {
            Ok(g) => g,
            Err(e) => {
                return Err(e);
            },
        };
        let key_sequence = CounterGenerator::new(prop.insert_start);
        let key_chooser = match get_key_chooser_generator(prop) {
            Ok(g) => g,
            Err(e) => {
                return Err(e);
            },
        };
        let operation_chooser = match create_operation_generator(prop) {
            Ok(g) => g,
            Err(e) => {
                return Err(e);
            },
        };
        let transaction_insert_key_sequence = AcknowledgedCounterGenerator::new(1);
        Ok(
            CoreWorkload {
                rng,
                table: "usertable".to_owned(),
                field_count: 10,
                field_names,
                field_length_generator,
                read_all_fields: true,
                write_all_fields: true,
                data_integrity: true,
                key_sequence,
                operation_chooser,
                key_chooser,
                transaction_insert_key_sequence,
                ordered_inserts: true,
                record_count: 1,
                zero_padding: 1,
                insertion_retry_limit: 0,
                insertion_retry_interval: 0,
            },
        )
    }

    /// Samples the ten field values for a fresh row: each field name in
    /// order, each value an alphanumeric string whose length comes from the
    /// field length distribution.
    pub fn build_row_fields(&mut self) -> (r: Vec<(String, String)>)
        requires
            old(self).wf(),
            old(self).field_length_generator.samples_internally(),
        ensures
            final(self).wf(),
            same_static_config(*old(self), *final(self)),
            final(self).key_sequence == old(self).key_sequence,
            final(self).transaction_insert_key_sequence == old(self).transaction_insert_key_sequence,
            row_ok(old(self).field_length_generator, r@),
    {
        let ghost pre = *old(self);
        let mut values: Vec<(String, String)> = Vec::new();
        let mut i: usize = 0;
        while i < 10
            invariant
                0 <= i <= 10,
                self.wf(),
                same_static_config(pre, *self),
                self.key_sequence == pre.key_sequence,
                self.transaction_insert_key_sequence == pre.transaction_insert_key_sequence,
                self.field_length_generator == pre.field_length_generator,
                self.field_length_generator.samples_internally(),
                values@.len() == i,
                forall|k: int|
                    0 <= k < i ==> {
                        &&& (#[trigger] values@[k]).0@ == field_name_spec(k)
                        &&& pre.field_length_generator.in_support(values@[k].1@.len() as u64)
                        &&& all_alnum(values@[k].1@)
                    },
            decreases 10 - i,
        {
            let name = self.field_names[i].clone();
            let len = self.field_length_generator.next_value(&mut self.rng);
            proof {
                // the sampled length is allocatable by the generator's invariant
                assert(len <= usize::MAX);
            }
            let value = sample_alphanumeric(&mut self.rng, len as usize);
            values.push((name, value));
            i = i + 1;
        }
        values
    }

    /// Draws the next load-phase key, scrambles it, and synthesizes the
    /// row: the storage key is exactly the decimal digits of the scrambled
    /// counter value.
    pub fn build_insert_row(&mut self) -> (r: (String, Vec<(String, String)>))
        requires
            old(self).wf(),
            old(self).field_length_generator.samples_internally(),
            old(self).key_sequence.counter < u64::MAX,
        ensures
            final(self).wf(),
            same_static_config(*old(self), *final(self)),
            final(self).transaction_insert_key_sequence == old(self).transaction_insert_key_sequence,
            final(self).key_sequence.counter == old(self).key_sequence.counter + 1,
            r.0@ == dec_rep(fnv1a64(old(self).key_sequence.counter) as nat),
            row_ok(old(self).field_length_generator, r.1@),
    {
        let raw = self.key_sequence.next_value(&mut self.rng);
        let hashed = fnvhash64(raw);
        let dbkey = u64_to_decimal(hashed);
        let values = self.build_row_fields();
        (dbkey, values)
    }

    /// Synthesizes the ten field values from lengths the driver sampled
    /// itself — the path a Zipfian length distribution takes, its
    /// floating-point draws handed in as plain values. Each length must
    /// lie in the configured distribution's support.
    pub fn build_row_fields_from(&mut self, lengths: &Vec<u64>) -> (r: Vec<(String, String)>)
        requires
            old(self).wf(),
            lengths@.len() == 10,
            forall|i: int|
                0 <= i < 10 ==> old(self).field_length_generator.in_support(
                    #[trigger] lengths@[i],
                ),
        ensures
            final(self).wf(),
            same_static_config(*old(self), *final(self)),
            final(self).key_sequence == old(self).key_sequence,
            final(self).transaction_insert_key_sequence == old(self).transaction_insert_key_sequence,
            row_ok(old(self).field_length_generator, r@),
            forall|i: int| 0 <= i < 10 ==> (#[trigger] r@[i]).1@.len() == lengths@[i],
    {
        let ghost pre = *old(self);
        let mut values: Vec<(String, String)> = Vec::new();
        let mut i: usize = 0;
        while i < 10
            invariant
                0 <= i <= 10,
                pre == *old(self),
                self.wf(),
                same_static_config(pre, *self),
                self.key_sequence == pre.key_sequence,
                self.transaction_insert_key_sequence == pre.transaction_insert_key_sequence,
                self.field_length_generator == pre.field_length_generator,
                lengths@.len() == 10,
                forall|k: int|
                    0 <= k < 10 ==> pre.field_length_generator.in_support(#[trigger] lengths@[k]),
                values@.len() == i,
                forall|k: int|
                    0 <= k < i ==> {
                        &&& (#[trigger] values@[k]).0@ == field_name_spec(k)
                        &&& pre.field_length_generator.in_support(values@[k].1@.len() as u64)
                        &&& all_alnum(values@[k].1@)
                        &&& values@[k].1@.len() == lengths@[k]
                    },
            decreases 10 - i,
        {
            let name = self.field_names[i].clone();
            let len = lengths[i];
            proof {
                // the given length is allocatable by the generator's invariant
                assert(len <= usize::MAX);
            }
            let value = sample_alphanumeric(&mut self.rng, len as usize);
            values.push((name, value));
            i = i + 1;
        }
        values
    }

    /// The load-phase insert row built from driver-sampled lengths: like
    /// [`CoreWorkload::build_insert_row`], for a length distribution whose
    /// draws come from outside.
    pub fn build_insert_row_from(&mut self, lengths: &Vec<u64>) -> (r: (
        String,
        Vec<(String, String)>,
    ))
        requires
            old(self).wf(),
            old(self).key_sequence.counter < u64::MAX,
            lengths@.len() == 10,
            forall|i: int|
                0 <= i < 10 ==> old(self).field_length_generator.in_support(
                    #[trigger] lengths@[i],
                ),
        ensures
            final(self).wf(),
            same_static_config(*old(self), *final(self)),
            final(self).transaction_insert_key_sequence == old(self).transaction_insert_key_sequence,
            final(self).key_sequence.counter == old(self).key_sequence.counter + 1,
            r.0@ == dec_rep(fnv1a64(old(self).key_sequence.counter) as nat),
            row_ok(old(self).field_length_generator, r.1@),
            forall|i: int| 0 <= i < 10 ==> (#[trigger] r.1@[i]).1@.len() == lengths@[i],
    {
        let raw = self.key_sequence.next_value(&mut self.rng);
        let hashed = fnvhash64(raw);
        let dbkey = u64_to_decimal(hashed);
        let values = self.build_row_fields_from(lengths);
        (dbkey, values)
    }

    /// Draws a read key from the configured key chooser.
    pub fn next_key_num(&mut self) -> (r: u64)
        requires
            old(self).wf(),
        ensures
            final(self).wf(),
            same_static_config(*old(self), *final(self)),
            final(self).key_sequence == old(self).key_sequence,
            final(self).transaction_insert_key_sequence == old(self).transaction_insert_key_sequence,
            old(self).key_chooser.lower_bound <= r <= old(self).key_chooser.upper_bound,
    {
        self.key_chooser.next_value(&mut self.rng)
    }

    /// One read transaction: chooses a key, scrambles it, and reads that
    /// row.
    pub fn do_transaction_read<T: DB>(&mut self, db: &mut T) -> (r: Result<(), WorkloadError>)
        requires
            old(self).wf(),
        ensures
            final(self).wf(),
            same_static_config(*old(self), *final(self)),
            final(self).key_sequence == old(self).key_sequence,
            final(self).transaction_insert_key_sequence == old(self).transaction_insert_key_sequence,
            r matches Err(e) ==> e is Storage,
    {
        let keynum = self.next_key_num();
        let dbkey = u64_to_decimal(fnvhash64(keynum));
        let mut result: Vec<(String, String)> = Vec::new();
        match db.read(self.table.as_str(), dbkey.as_str(), &mut result) {
            Ok(()) => Ok(()),
            Err(e) => Err(WorkloadError::Storage(e)),
        }
    }

    /// One insert transaction: assigns a fresh key from the acknowledged
    /// counter, inserts the row, and acknowledges the key once the insert
    /// has completed — so the read-side watermark only ever covers durably
    /// written keys.
    pub fn do_transaction_insert<T: DB>(&mut self, db: &mut T) -> (r: Result<(), WorkloadError>)
        requires
            old(self).wf(),
            old(self).field_length_generator.samples_internally(),
            old(self).transaction_insert_key_sequence.counter.counter < u64::MAX,
        ensures
            final(self).wf(),
            same_static_config(*old(self), *final(self)),
            final(self).key_sequence == old(self).key_sequence,
            final(self).transaction_insert_key_sequence.counter.counter == old(self).transaction_insert_key_sequence.counter.counter + 1,
            old(self).transaction_insert_key_sequence.limit <= final(self).transaction_insert_key_sequence.limit,
            r matches Err(e) ==> (e is Storage || e is WindowOverflow),
            // the key is acknowledged only after the insert has succeeded:
            // on any failure the window and the watermark are untouched
            r is Err ==> final(self).transaction_insert_key_sequence.window == old(self).transaction_insert_key_sequence.window && final(self).transaction_insert_key_sequence.limit == old(self).transaction_insert_key_sequence.limit,
    {
        let keynum = self.transaction_insert_key_sequence.next_value(&mut self.rng);
        let dbkey = u64_to_decimal(fnvhash64(keynum));
        let values = self.build_row_fields();
        match db.insert(self.table.as_str(), dbkey.as_str(), &values) {
            Ok(()) => {
                // the watermark needs a window of headroom below the top of
                // the key space; running out of it is unreachable in practice
                if self.transaction_insert_key_sequence.last_value() > u64::MAX - WINDOW_SIZE {
                    return Err(WorkloadError::WindowOverflow);
                }
                match self.transaction_insert_key_sequence.acknowledge(keynum) {
                    Ok(()) => Ok(()),
                    Err(_) => Err(WorkloadError::WindowOverflow),
                }
            },
            Err(e) => Err(WorkloadError::Storage(e)),
        }
    }
}

/// The storage call one run-phase transaction makes, decided before any
/// storage is touched: drawn from the operation chooser, with its keys and
/// row already synthesized. A driver performs the call and, for an insert,
/// hands the raw key back to `complete_transaction_insert` once the write
/// has succeeded.
pub enum TransactionAction {
    /// Read the row under this storage key.
    Read(String),
    /// Insert this row under this storage key; the first component is the
    /// raw assigned key to acknowledge after the insert completes.
    Insert(u64, String, Vec<(String, String)>),
    /// The drawn operation is a stub: nothing touches storage.
    Nothing,
}

impl CoreWorkload {
    /// Draws one transaction's operation and synthesizes everything it
    /// needs, without touching storage: the decision half of a run-phase
    /// step. An insert action assigns exactly one new key; every other
    /// action leaves the acknowledged counter alone.
    pub fn next_transaction_action(&mut self) -> (r: TransactionAction)
        requires
            old(self).wf(),
            old(self).transaction_insert_key_sequence.counter.counter < u64::MAX,
            old(self).field_length_generator.samples_internally() || !operation_in_support(
                old(self).operation_chooser,
                CoreOperation::Insert,
            ),
        ensures
            final(self).wf(),
            same_static_config(*old(self), *final(self)),
            final(self).key_sequence == old(self).key_sequence,
            match r {
                TransactionAction::Read(key) => {
                    &&& final(self).transaction_insert_key_sequence == old(self).transaction_insert_key_sequence
                    &&& exists|k: u64|
                        old(self).key_chooser.lower_bound <= k <= old(self).key_chooser.upper_bound && key@ == dec_rep(#[trigger] fnv1a64(k) as nat)
                },
                TransactionAction::Insert(raw, key, row) => {
                    &&& raw == old(self).transaction_insert_key_sequence.counter.counter
                    &&& final(self).transaction_insert_key_sequence.counter.counter == old(self).transaction_insert_key_sequence.counter.counter + 1
                    &&& final(self).transaction_insert_key_sequence.window == old(self).transaction_insert_key_sequence.window
                    &&& final(self).transaction_insert_key_sequence.limit == old(self).transaction_insert_key_sequence.limit
                    &&& key@ == dec_rep(fnv1a64(raw) as nat)
                    &&& row_ok(old(self).field_length_generator, row@)
                },
                TransactionAction::Nothing => final(self).transaction_insert_key_sequence == old(self).transaction_insert_key_sequence,
            },
            exists|op: CoreOperation|
                #[trigger] operation_in_support(old(self).operation_chooser, op) && (match op {
                    CoreOperation::Read => r is Read,
                    CoreOperation::Insert => r is Insert,
                    _ => r is Nothing,
                }),
    {
        let op = self.operation_chooser.next_value(&mut self.rng);
        proof {
            assert(operation_in_support(old(self).operation_chooser, op));
        }
        match op {
            CoreOperation::Read => {
                let keynum = self.next_key_num();
                TransactionAction::Read(u64_to_decimal(fnvhash64(keynum)))
            },
            CoreOperation::Insert => {
                proof {
                    // an insert was drawn, so inserts are in the mix's
                    // support, and the lengths must be internally samplable
                    assert(operation_in_support(old(self).operation_chooser, op));
                }
                let raw = self.transaction_insert_key_sequence.next_value(&mut self.rng);
                let key = u64_to_decimal(fnvhash64(raw));
                let row = self.build_row_fields();
                TransactionAction::Insert(raw, key, row)
            },
            _ => TransactionAction::Nothing,
        }
    }

    /// The completion half of an insert transaction: acknowledges the raw
    /// key once its insert has durably succeeded, advancing the read-side
    /// watermark. Fails exactly when the watermark lacks a window of
    /// headroom or the key's slot is still marked.
    pub fn complete_transaction_insert(&mut self, raw: u64) -> (r: Result<(), WorkloadError>)
        requires
            old(self).wf(),
        ensures
            final(self).wf(),
            same_static_config(*old(self), *final(self)),
            final(self).key_sequence == old(self).key_sequence,
            final(self).transaction_insert_key_sequence.counter == old(self).transaction_insert_key_sequence.counter,
            old(self).transaction_insert_key_sequence.limit <= final(self).transaction_insert_key_sequence.limit,
            r is Err <==> (old(self).transaction_insert_key_sequence.limit > u64::MAX
                - WINDOW_SIZE || old(self).transaction_insert_key_sequence.window@[slot_of(raw)]),
            r matches Err(e) ==> e is WindowOverflow,
            r is Err ==> final(self).transaction_insert_key_sequence == old(self).transaction_insert_key_sequence,
            r is Ok ==> ack_ok_post(
                old(self).transaction_insert_key_sequence,
                final(self).transaction_insert_key_sequence,
                raw,
            ),
    {
        // the watermark needs a window of headroom below the top of the
        // key space; running out of it is unreachable in practice
        if self.transaction_insert_key_sequence.last_value() > u64::MAX - WINDOW_SIZE {
            return Err(WorkloadError::WindowOverflow);
        }
        match self.transaction_insert_key_sequence.acknowledge(raw) {
            Ok(()) => Ok(()),
            Err(_) => Err(WorkloadError::WindowOverflow),
        }
    }
}

impl Workload for CoreWorkload {
    open spec fn insert_ready(&self) -> bool {
        &&& self.wf()
        &&& self.field_length_generator.samples_internally()
        &&& self.key_sequence.counter < u64::MAX
    }

    open spec fn insert_post(&self, post: Self, r: Result<(), WorkloadError>) -> bool {
        &&& post.wf()
        &&& same_static_config(*self, post)
        &&& post.transaction_insert_key_sequence == self.transaction_insert_key_sequence
        &&& post.key_sequence.counter == self.key_sequence.counter + 1
        &&& r matches Err(e) ==> e is Storage
    }

    open spec fn transaction_ready(&self) -> bool {
        &&& self.wf()
        &&& self.transaction_insert_key_sequence.counter.counter < u64::MAX
        &&& (self.field_length_generator.samples_internally() || !operation_in_support(
            self.operation_chooser,
            CoreOperation::Insert,
        ))
    }

    open spec fn transaction_post(&self, post: Self, r: Result<(), WorkloadError>) -> bool {
        &&& post.wf()
        &&& same_static_config(*self, post)
        &&& post.key_sequence == self.key_sequence
        &&& self.transaction_insert_key_sequence.limit
            <= post.transaction_insert_key_sequence.limit
        &&& self.transaction_insert_key_sequence.counter.counter
            <= post.transaction_insert_key_sequence.counter.counter
            <= self.transaction_insert_key_sequence.counter.counter + 1
        &&& r matches Err(e) ==> (e is Storage || e is WindowOverflow)
        // the state change is the one some operation of the configured mix
        // makes: an insert assigns exactly one new key, everything else
        // leaves the acknowledged counter alone
        &&& exists|op: CoreOperation|
            #[trigger] operation_in_support(self.operation_chooser, op) && (match op {
                CoreOperation::Insert => post.transaction_insert_key_sequence.counter.counter
                    == self.transaction_insert_key_sequence.counter.counter + 1,
                _ => post.transaction_insert_key_sequence
                    == self.transaction_insert_key_sequence,
            })
    }

    fn do_insert<T: DB>(&mut self, db: &mut T) -> (r: Result<(), WorkloadError>) {
        let row = self.build_insert_row();
        match db.insert(self.table.as_str(), row.0.as_str(), &row.1) {
            Ok(()) => Ok(()),
            Err(e) => Err(WorkloadError::Storage(e)),
        }
    }

    fn do_transaction<T: DB>(&mut self, db: &mut T) -> (r: Result<(), WorkloadError>) {
        let op = self.operation_chooser.next_value(&mut self.rng);
        proof {
            assert(operation_in_support(old(self).operation_chooser, op));
        }
        match op {
            CoreOperation::Read => self.do_transaction_read(db),
            CoreOperation::Insert => {
                proof {
                    // an insert was drawn, so inserts are in the mix's
                    // support, and the lengths must be internally samplable
                    assert(operation_in_support(old(self).operation_chooser, op));
                }
                self.do_transaction_insert(db)
            },
            // update, scan and read-modify-write are stubs: they draw no
            // keys and touch no storage
            _ => Ok(()),
        }
    }
}

} // verus!
