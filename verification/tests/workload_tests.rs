use std::collections::HashSet;
use ycsb_core::db::DbError;
use ycsb_core::db::DB;
use ycsb_core::load;
use ycsb_core::per_thread_operations;
use ycsb_core::properties::Properties;
use ycsb_core::report_runtime_line;
use ycsb_core::report_thread_count_line;
use ycsb_core::run;
use ycsb_core::thread_runner;
use ycsb_core::workload::core_workload::create_operation_generator;
use ycsb_core::workload::core_workload::fnvhash64;
use ycsb_core::workload::core_workload::get_field_length_generator;
use ycsb_core::workload::core_workload::get_key_chooser_generator;
use ycsb_core::workload::core_workload::FieldLengthGenerator;
use ycsb_core::workload::core_workload::TransactionAction;
use ycsb_core::workload::core_workload::ConfigError;
use ycsb_core::workload::core_workload::CoreOperation;
use ycsb_core::workload::CoreWorkload;
use ycsb_core::workload::Workload;
use ycsb_core::workload::WorkloadError;

/// A storage double that records every call.
struct MockDb {
    inserts: Vec<(String, String, Vec<(String, String)>)>,
    reads: Vec<(String, String)>,
    fail_inserts: bool,
}

impl MockDb {
    fn new() -> MockDb {
        MockDb { inserts: Vec::new(), reads: Vec::new(), fail_inserts: false }
    }
}

impl DB for MockDb {
    fn init(&mut self) -> Result<(), DbError> {
        Ok(())
    }

    fn insert(
        &mut self,
        table: &str,
        key: &str,
        values: &Vec<(String, String)>,
    ) -> Result<(), DbError> {
        if self.fail_inserts {
            return Err(DbError::new(String::from("mock failure")));
        }
        self.inserts.push((table.to_string(), key.to_string(), values.clone()));
        Ok(())
    }

    fn read(
        &mut self,
        table: &str,
        key: &str,
        _result: &mut Vec<(String, String)>,
    ) -> Result<(), DbError> {
        self.reads.push((table.to_string(), key.to_string()));
        Ok(())
    }
}

fn base_properties(operation_count: u64) -> Properties {
    let mut props = Properties::new(operation_count);
    props.record_count = 1000;
    props
}

#[test]
fn fnv_golden_values() {
    assert_eq!(fnvhash64(0), 0x4b2a24074bf69585);
    assert_eq!(fnvhash64(1), 0x90da991ad26d4aa4);
    assert_eq!(fnvhash64(2), 0xbfc939e03f092b47);
    assert_eq!(fnvhash64(3), 0x0579aef3c57fe066);
    assert_eq!(fnvhash64(10), 0x924591440b53824f);
    assert_eq!(fnvhash64(42), 0x485433b4da2a262f);
    assert_eq!(fnvhash64(999), 0x9bb79c61a0c8a775);
    assert_eq!(fnvhash64(1000000), 0x02165d7cb6451fe8);
    assert_eq!(fnvhash64(u64::MAX), 0x61add1f7252a6395);
}

#[test]
fn load_phase_synthesizes_exact_rows() {
    let mut props = base_properties(1000);
    props.field_length = 10;
    props.read_proportion = 0;
    let mut wl = CoreWorkload::new(&props).unwrap();
    let mut db = MockDb::new();
    load(&mut wl, &mut db, 1000).unwrap();
    assert_eq!(db.inserts.len(), 1000);
    let mut keys_seen: HashSet<String> = HashSet::new();
    for (i, (table, key, values)) in db.inserts.iter().enumerate() {
        assert_eq!(table, "usertable");
        assert_eq!(*key, format!("{}", fnvhash64(i as u64)));
        assert!(key.chars().all(|c| c.is_ascii_digit()));
        assert!(keys_seen.insert(key.clone()));
        assert_eq!(values.len(), 10);
        for (j, (name, value)) in values.iter().enumerate() {
            assert_eq!(*name, format!("field{}", j));
            assert_eq!(value.len(), 10);
            assert!(value.chars().all(|c| c.is_ascii_alphanumeric()));
        }
    }
}

#[test]
fn run_phase_reads_only_loaded_keys() {
    let mut props = base_properties(500);
    props.read_proportion = 1000000;
    props.update_proportion = 0;
    let mut wl = CoreWorkload::new(&props).unwrap();
    let mut db = MockDb::new();
    run(&mut wl, &mut db, 500).unwrap();
    assert_eq!(db.reads.len(), 500);
    assert_eq!(db.inserts.len(), 0);
    let expected: HashSet<String> = (0u64..1000).map(|k| format!("{}", fnvhash64(k))).collect();
    for (table, key) in db.reads.iter() {
        assert_eq!(table, "usertable");
        assert!(expected.contains(key));
    }
}

#[test]
fn operation_mix_covers_exactly_the_positive_proportions() {
    let mut props = base_properties(100);
    props.read_proportion = 500000;
    props.update_proportion = 500000;
    let mut chooser = create_operation_generator(&props).unwrap();
    let mut rng = <rand::rngs::SmallRng as rand::SeedableRng>::seed_from_u64(7);
    let mut reads: u64 = 0;
    let mut updates: u64 = 0;
    for _ in 0..1000 {
        match ycsb_core::generator::Generator::next_value(&mut chooser, &mut rng) {
            CoreOperation::Read => reads += 1,
            CoreOperation::Update => updates += 1,
            other => panic!("unexpected operation {:?}", other),
        }
    }
    assert!(reads > 0);
    assert!(updates > 0);
}

#[test]
fn driver_truncates_and_counts_operations() {
    let props = base_properties(100);
    let mut wl = CoreWorkload::new(&props).unwrap();
    let mut db = MockDb::new();
    let per_thread = per_thread_operations(100, 10);
    assert_eq!(per_thread, 10);
    for _ in 0..10 {
        thread_runner(&mut db, &mut wl, per_thread, "load").unwrap();
    }
    assert_eq!(db.inserts.len(), 100);
    assert_eq!(report_thread_count_line(10), "[OVERALL], ThreadCount, 10");
}

#[test]
fn driver_truncation_drops_remainder() {
    assert_eq!(per_thread_operations(100, 3), 33);
    assert_eq!(per_thread_operations(5, 10), 0);
}

#[test]
fn report_lines_are_exact() {
    assert_eq!(report_thread_count_line(200), "[OVERALL], ThreadCount, 200");
    assert_eq!(report_runtime_line(1234), "[OVERALL], RunTime(ms), 1234");
    assert_eq!(report_runtime_line(0), "[OVERALL], RunTime(ms), 0");
}

#[test]
fn invalid_command_is_refused() {
    let props = base_properties(10);
    let mut wl = CoreWorkload::new(&props).unwrap();
    let mut db = MockDb::new();
    let r = thread_runner(&mut db, &mut wl, 1, "fly");
    assert!(matches!(r, Err(WorkloadError::InvalidCommand)));
    assert!(thread_runner(&mut db, &mut wl, 1, "run").is_ok());
}

#[test]
fn storage_failure_stops_the_worker() {
    let props = base_properties(10);
    let mut wl = CoreWorkload::new(&props).unwrap();
    let mut db = MockDb::new();
    db.fail_inserts = true;
    let r = load(&mut wl, &mut db, 5);
    assert!(matches!(r, Err(WorkloadError::Storage(_))));
}

#[test]
fn transaction_inserts_advance_the_watermark() {
    let mut props = base_properties(100);
    props.read_proportion = 0;
    props.update_proportion = 0;
    props.insert_proportion = 1000000;
    let mut wl = CoreWorkload::new(&props).unwrap();
    let mut db = MockDb::new();
    run(&mut wl, &mut db, 100).unwrap();
    assert_eq!(db.inserts.len(), 100);
    assert_eq!(wl.transaction_insert_key_sequence.last_value(), 100);
}

#[test]
fn uniform_field_lengths_stay_in_range() {
    let mut props = base_properties(100);
    props.field_length_distribution = String::from("uniform");
    props.field_length = 10;
    let mut wl = CoreWorkload::new(&props).unwrap();
    let mut db = MockDb::new();
    load(&mut wl, &mut db, 50).unwrap();
    for (_, _, values) in db.inserts.iter() {
        for (_, value) in values.iter() {
            assert!(1 <= value.len());
            assert!(value.len() <= 10);
        }
    }
}

#[test]
fn distribution_names_are_case_insensitive() {
    let mut props = base_properties(100);
    props.field_length_distribution = String::from("CONSTANT");
    assert!(get_field_length_generator(&props).is_ok());
    props.field_length_distribution = String::from("Uniform");
    assert!(get_field_length_generator(&props).is_ok());
}

#[test]
fn config_errors_name_their_cause() {
    let mut props = base_properties(100);
    props.field_length_distribution = String::from("weird");
    assert_eq!(
        CoreWorkload::new(&props).err(),
        Some(ConfigError::UnknownFieldLengthDistribution)
    );

    let mut props = base_properties(100);
    props.field_length_distribution = String::from("zipfian");
    props.field_length = 0;
    assert_eq!(get_field_length_generator(&props).err(), Some(ConfigError::InvalidFieldLength));

    let mut props = base_properties(100);
    props.field_length_distribution = String::from("histogram");
    assert_eq!(
        get_field_length_generator(&props).err(),
        Some(ConfigError::UnsupportedFieldLengthDistribution)
    );

    let mut props = base_properties(100);
    props.field_length_distribution = String::from("uniform");
    props.field_length = 0;
    assert_eq!(get_field_length_generator(&props).err(), Some(ConfigError::InvalidFieldLength));

    let mut props = base_properties(100);
    props.record_count = 0;
    assert_eq!(CoreWorkload::new(&props).err(), Some(ConfigError::InvalidKeyRange));
    assert_eq!(get_key_chooser_generator(&props).err(), Some(ConfigError::InvalidKeyRange));

    let mut props = base_properties(100);
    props.request_distribution = String::from("latest");
    assert_eq!(CoreWorkload::new(&props).err(), Some(ConfigError::UnsupportedRequestDistribution));

    let mut props = base_properties(100);
    props.read_proportion = 2000000;
    assert_eq!(CoreWorkload::new(&props).err(), Some(ConfigError::InvalidProportion));

    let mut props = base_properties(100);
    props.read_proportion = 0;
    props.update_proportion = 0;
    assert_eq!(CoreWorkload::new(&props).err(), Some(ConfigError::NoOperations));
}

#[test]
fn unknown_database_name_is_refused() {
    let e = ycsb_core::db::create_db("postgres").err().unwrap();
    assert_eq!(e.message, "postgres is an invalid database name");
    assert!(ycsb_core::db::create_db("").is_err());
}

#[test]
fn transaction_actions_split_decision_from_storage() {
    let mut props = base_properties(100);
    props.read_proportion = 0;
    props.update_proportion = 0;
    props.insert_proportion = 1000000;
    let mut wl = CoreWorkload::new(&props).unwrap();
    let expected: HashSet<String> = (0u64..1000).map(|k| format!("{}", fnvhash64(k))).collect();
    for round in 0..20u64 {
        match wl.next_transaction_action() {
            TransactionAction::Insert(raw, key, values) => {
                assert_eq!(raw, round + 1);
                assert_eq!(key, format!("{}", fnvhash64(raw)));
                assert_eq!(values.len(), 10);
                // the watermark moves only once the insert is completed
                assert_eq!(wl.transaction_insert_key_sequence.last_value(), round);
                wl.complete_transaction_insert(raw).unwrap();
                assert_eq!(wl.transaction_insert_key_sequence.last_value(), round + 1);
            }
            _ => panic!("an insert-only mix must decide on inserts"),
        }
    }

    let mut props = base_properties(100);
    props.read_proportion = 1000000;
    props.update_proportion = 0;
    let mut wl = CoreWorkload::new(&props).unwrap();
    for _ in 0..20 {
        match wl.next_transaction_action() {
            TransactionAction::Read(key) => assert!(expected.contains(&key)),
            _ => panic!("a read-only mix must decide on reads"),
        }
    }
}

#[test]
fn property_defaults_match_the_schema() {
    let props = Properties::new(7);
    assert_eq!(props.operation_count, 7);
    assert_eq!(props.insert_start, 0);
    assert_eq!(props.insert_count, 0);
    assert_eq!(props.record_count, 0);
    assert_eq!(props.thread_count, 200);
    assert_eq!(props.max_execution_time, None);
    assert_eq!(props.warmup_time, None);
    assert_eq!(props.field_length_distribution, "constant");
    assert_eq!(props.field_length, 100);
    assert_eq!(props.request_distribution, "uniform");
    assert_eq!(props.read_proportion, 950000);
    assert_eq!(props.update_proportion, 950000);
    assert_eq!(props.insert_proportion, 0);
    assert_eq!(props.scan_proportion, 0);
    assert_eq!(props.read_modify_write_proportion, 0);
}

#[test]
fn zipfian_lengths_come_from_the_driver() {
    let mut props = base_properties(100);
    props.field_length_distribution = String::from("zipfian");
    props.field_length = 25;
    // the configuration is served; only the length draws come from outside
    let mut wl = CoreWorkload::new(&props).unwrap();
    assert!(matches!(
        wl.field_length_generator,
        FieldLengthGenerator::Zipfian { lower_bound: 1, upper_bound: 25 }
    ));
    let lengths: Vec<u64> = vec![1, 25, 3, 7, 1, 1, 2, 14, 25, 9];
    let (key, values) = wl.build_insert_row_from(&lengths);
    assert_eq!(key, format!("{}", fnvhash64(0)));
    assert_eq!(values.len(), 10);
    for (i, (name, value)) in values.iter().enumerate() {
        assert_eq!(*name, format!("field{}", i));
        assert_eq!(value.len() as u64, lengths[i]);
        assert!(value.chars().all(|c| c.is_ascii_alphanumeric()));
    }
    // a read-only run phase needs no lengths at all
    let mut db = MockDb::new();
    props.read_proportion = 1000000;
    props.update_proportion = 0;
    let mut wl = CoreWorkload::new(&props).unwrap();
    run(&mut wl, &mut db, 50).unwrap();
    assert_eq!(db.reads.len(), 50);
}

#[test]
fn key_chooser_covers_the_configured_range() {
    let mut props = base_properties(100);
    props.insert_start = 5;
    props.insert_count = 10;
    let chooser = get_key_chooser_generator(&props).unwrap();
    assert_eq!(chooser.lower_bound, 5);
    assert_eq!(chooser.upper_bound, 14);
}
