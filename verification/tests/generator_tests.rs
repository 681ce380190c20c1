use rand::rngs::SmallRng;
use rand::SeedableRng;
use std::collections::HashMap;
use ycsb_core::generator::AcknowledgedCounterGenerator;
use ycsb_core::generator::ConstantGenerator;
use ycsb_core::generator::CounterGenerator;
use ycsb_core::generator::DiscreteGenerator;
use ycsb_core::generator::Generator;
use ycsb_core::generator::GeneratorImpl;
use ycsb_core::generator::NumberGenerator;
use ycsb_core::generator::UniformLongGenerator;
use ycsb_core::generator::WeightPair;

#[test]
fn test_counter() {
    let mut generator = AcknowledgedCounterGenerator::new(1);
    let mut rng = SmallRng::from_entropy();
    assert_eq!(generator.next_value(&mut rng), 1);
    assert_eq!(generator.last_value(), 0);
    assert_eq!(generator.next_value(&mut rng), 2);
    assert_eq!(generator.last_value(), 0);
    generator.acknowledge(1).unwrap();
    assert_eq!(generator.last_value(), 1);
    generator.acknowledge(2).unwrap();
    assert_eq!(generator.last_value(), 2);
    generator.acknowledge(1).unwrap();
    assert_eq!(generator.last_value(), 2);
}

#[test]
fn test_discrete_generator() {
    let weight_pairs = vec![WeightPair::new(300000, "test"), WeightPair::new(700000, "b")];
    let mut generator = DiscreteGenerator::new(weight_pairs).unwrap();
    let mut result: HashMap<&str, u64> = HashMap::new();
    let mut rng = SmallRng::from_entropy();
    for _i in 0..10000 {
        let val = generator.next_value(&mut rng);
        let count = result.entry(val).or_insert(0);
        *count += 1;
    }
    println!("{:?}", result);
}

#[test]
fn counter_yields_consecutive_range() {
    let mut counter = CounterGenerator::new(7);
    let mut rng = SmallRng::from_entropy();
    let mut seen: Vec<u64> = Vec::new();
    for _ in 0..100 {
        seen.push(counter.next_value(&mut rng));
    }
    let expected: Vec<u64> = (7..107).collect();
    assert_eq!(seen, expected);
}

#[test]
fn constant_generator_repeats_its_value() {
    let mut generator = ConstantGenerator::new(42u64);
    let mut rng = SmallRng::from_entropy();
    for _ in 0..10 {
        assert_eq!(generator.next_value(&mut rng), 42);
    }
}

#[test]
fn uniform_generator_stays_inclusive() {
    let mut generator = UniformLongGenerator::new(3, 9);
    let mut rng = SmallRng::from_entropy();
    let mut low_seen = false;
    let mut high_seen = false;
    for _ in 0..10000 {
        let v = generator.next_value(&mut rng);
        assert!(v >= 3);
        assert!(v <= 9);
        if v == 3 {
            low_seen = true;
        }
        if v == 9 {
            high_seen = true;
        }
    }
    assert!(low_seen);
    assert!(high_seen);
}

#[test]
fn uniform_generator_mean_is_midpoint() {
    let generator = UniformLongGenerator::new(1, 100);
    assert_eq!(generator.mean(), 50);
}

#[test]
fn discrete_generator_rejects_empty_pool() {
    let pairs: Vec<WeightPair<&str>> = vec![];
    assert!(DiscreteGenerator::new(pairs).is_err());
    let zeroes = vec![WeightPair::new(0, "a"), WeightPair::new(0, "b")];
    assert!(DiscreteGenerator::new(zeroes).is_err());
}

#[test]
fn discrete_pick_walks_the_buckets_in_order() {
    let pairs = vec![
        WeightPair::new(2, "a"),
        WeightPair::new(0, "never"),
        WeightPair::new(3, "b"),
    ];
    let generator = DiscreteGenerator::new(pairs).unwrap();
    assert_eq!(generator.pick(0), "a");
    assert_eq!(generator.pick(1), "a");
    assert_eq!(generator.pick(2), "b");
    assert_eq!(generator.pick(3), "b");
    assert_eq!(generator.pick(4), "b");
}

#[test]
fn discrete_frequencies_match_weights() {
    let pairs = vec![WeightPair::new(300000, "a"), WeightPair::new(700000, "b")];
    let mut generator = DiscreteGenerator::new(pairs).unwrap();
    let mut rng = SmallRng::seed_from_u64(42);
    let total: u64 = 100000;
    let mut a_count: u64 = 0;
    let mut b_count: u64 = 0;
    for _ in 0..total {
        match generator.next_value(&mut rng) {
            "a" => a_count += 1,
            "b" => b_count += 1,
            _ => unreachable!(),
        }
    }
    assert_eq!(a_count + b_count, total);
    let a_share = a_count as f64 / total as f64;
    let b_share = b_count as f64 / total as f64;
    assert!((a_share - 0.3).abs() < 0.03, "share of a was {}", a_share);
    assert!((b_share - 0.7).abs() < 0.03, "share of b was {}", b_share);
}

#[test]
fn generator_impl_caches_last_value() {
    let mut wrapped = GeneratorImpl::new(CounterGenerator::new(3));
    let mut rng = SmallRng::from_entropy();
    assert_eq!(wrapped.next_value(&mut rng), 3);
    assert_eq!(wrapped.last_value(), 3);
    assert_eq!(wrapped.next_value(&mut rng), 4);
    assert_eq!(wrapped.last_value(), 4);
    assert_eq!(wrapped.next_string(&mut rng), "5");
    assert_eq!(wrapped.last_string(), "5");
}

#[test]
fn watermark_never_decreases() {
    let mut generator = AcknowledgedCounterGenerator::new(1);
    let mut rng = SmallRng::from_entropy();
    for _ in 0..8 {
        generator.next_value(&mut rng);
    }
    let mut previous = generator.last_value();
    for key in [3u64, 1, 2, 7, 5, 4, 6, 8] {
        generator.acknowledge(key).unwrap();
        let now = generator.last_value();
        assert!(now >= previous);
        previous = now;
    }
}

#[test]
fn full_acknowledgement_reaches_highest_assigned() {
    let mut generator = AcknowledgedCounterGenerator::new(1);
    let mut rng = SmallRng::from_entropy();
    let mut assigned: Vec<u64> = Vec::new();
    for _ in 0..50 {
        assigned.push(generator.next_value(&mut rng));
    }
    // acknowledge in a scrambled order
    assigned.reverse();
    for key in assigned {
        generator.acknowledge(key).unwrap();
    }
    assert_eq!(generator.last_value(), 50);
}

#[test]
fn double_acknowledge_without_advance_is_refused() {
    let mut generator = AcknowledgedCounterGenerator::new(1);
    let mut rng = SmallRng::from_entropy();
    for _ in 0..10 {
        generator.next_value(&mut rng);
    }
    // key 1 is still unacknowledged, so the watermark cannot pass key 5:
    // its slot stays marked and a second acknowledgement must be refused
    generator.acknowledge(5).unwrap();
    assert_eq!(generator.last_value(), 0);
    assert!(generator.acknowledge(5).is_err());
    assert_eq!(generator.last_value(), 0);
}
