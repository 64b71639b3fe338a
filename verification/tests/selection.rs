// End-to-end tests of the weighted selector: the float prefix sums and the
// seed fraction are formed here, exactly as a host does, and every decision
// is taken by the library.

use lottery_core::seed::seed_digest;
use lottery_core::select::select_with_target;
use lottery_core::select::total_if_positive;

fn cumulative_bits(weights: &[f64]) -> Vec<u64> {
    let mut cums: Vec<u64> = Vec::with_capacity(weights.len());
    let mut acc: f64 = 0.0;
    for &w in weights {
        acc += w;
        cums.push(acc.to_bits());
    }
    cums
}

fn run_selection(weights: &[f64], now_ms: u64, draw: f64) -> usize {
    let cums = cumulative_bits(weights);
    match total_if_positive(&cums) {
        None => 0,
        Some(total_bits) => {
            let digest = seed_digest(now_ms, draw.to_bits());
            let fraction = digest as f64 / u64::MAX as f64;
            let target = fraction * f64::from_bits(total_bits);
            select_with_target(&cums, target.to_bits())
        }
    }
}

struct Lcg(u64);

impl Lcg {
    fn next_unit(&mut self) -> f64 {
        self.0 = self
            .0
            .wrapping_mul(6364136223846793005)
            .wrapping_add(1442695040888963407);
        (self.0 >> 11) as f64 / (1u64 << 53) as f64
    }
}

#[test]
fn test_lottery_algorithm() {
    let probabilities = vec![1.0, 2.0, 3.0, 4.0];
    let mut counts = vec![0usize; probabilities.len()];
    let total_tests = 100000;

    let mut lcg = Lcg(0x5eed);
    for k in 0..total_tests {
        let now_ms = 1_700_000_000_000u64 + k as u64;
        let result = run_selection(&probabilities, now_ms, lcg.next_unit());
        counts[result] += 1;
    }

    let total_prob: f64 = probabilities.iter().sum();
    for (i, &prob) in probabilities.iter().enumerate() {
        let expected_ratio = prob / total_prob;
        let actual_ratio = counts[i] as f64 / total_tests as f64;
        assert!((actual_ratio - expected_ratio).abs() < 0.02);
    }
}

#[test]
fn test_edge_cases() {
    assert_eq!(run_selection(&[], 7, 0.25), 0);

    assert_eq!(run_selection(&[1.0], 7, 0.25), 0);

    assert_eq!(run_selection(&[0.0, 0.0, 1.0], 7, 0.25), 2);
}

#[test]
fn single_element_for_every_seed() {
    let mut lcg = Lcg(11);
    for k in 0..2000u64 {
        assert_eq!(run_selection(&[1.0], k, lcg.next_unit()), 0);
        assert_eq!(run_selection(&[0.125], k * 31 + 5, lcg.next_unit()), 0);
    }
}

#[test]
fn all_zero_with_one_positive() {
    let mut lcg = Lcg(23);
    for k in 0..2000u64 {
        assert_eq!(run_selection(&[0.0, 0.0, 1.0], k, lcg.next_unit()), 2);
    }
}

#[test]
fn result_always_in_range() {
    let weights = [0.5, 0.0, 2.5, 1e-3, 100.0];
    let mut lcg = Lcg(37);
    for k in 0..5000u64 {
        let i = run_selection(&weights, k, lcg.next_unit());
        assert!(i < weights.len());
    }
}

#[test]
fn fallback_for_every_seed() {
    let mut lcg = Lcg(41);
    for k in 0..2000u64 {
        let draw = lcg.next_unit();
        assert_eq!(run_selection(&[], k, draw), 0);
        assert_eq!(run_selection(&[0.0, 0.0, 0.0], k, draw), 0);
        assert_eq!(run_selection(&[-1.0, -2.0], k, draw), 0);
        assert_eq!(run_selection(&[1.0, -3.0, 1.0], k, draw), 0);
    }
}

#[test]
fn non_finite_entries_give_in_range_results() {
    let nan = f64::NAN;
    let inf = f64::INFINITY;
    let cases: [&[f64]; 6] = [
        &[nan, 1.0],
        &[1.0, nan, 2.0],
        &[inf, 1.0],
        &[1.0, inf],
        &[-inf, 1.0],
        &[nan, nan, nan],
    ];
    let mut lcg = Lcg(43);
    for weights in cases.iter() {
        for k in 0..200u64 {
            let i = run_selection(weights, k, lcg.next_unit());
            assert!(i < weights.len());
        }
    }
}

#[test]
fn scan_picks_first_sum_reaching_target() {
    // weights 2, 1, 1 -> cumulative sums 2, 3, 4
    let cums = cumulative_bits(&[2.0, 1.0, 1.0]);
    assert_eq!(select_with_target(&cums, 0.0f64.to_bits()), 0);
    assert_eq!(select_with_target(&cums, 1.5f64.to_bits()), 0);
    assert_eq!(select_with_target(&cums, 2.4f64.to_bits()), 1);
    assert_eq!(select_with_target(&cums, 3.0f64.to_bits()), 1);
    assert_eq!(select_with_target(&cums, 3.5f64.to_bits()), 2);
    assert_eq!(select_with_target(&cums, 4.0f64.to_bits()), 2);
    // a target past the total, or NaN, falls back to the last index
    assert_eq!(select_with_target(&cums, 5.0f64.to_bits()), 2);
    assert_eq!(select_with_target(&cums, f64::NAN.to_bits()), 2);
}

#[test]
fn fallback_ignores_target() {
    let empty: Vec<u64> = Vec::new();
    assert_eq!(select_with_target(&empty, 0.5f64.to_bits()), 0);
    let negative = cumulative_bits(&[-1.0, -2.0]);
    assert_eq!(select_with_target(&negative, 0.5f64.to_bits()), 0);
    assert_eq!(select_with_target(&negative, f64::NAN.to_bits()), 0);
    let zero = cumulative_bits(&[0.0, 0.0]);
    assert_eq!(select_with_target(&zero, 0.5f64.to_bits()), 0);
}

#[test]
fn total_reported_only_when_positive() {
    assert_eq!(total_if_positive(&Vec::new()), None);
    assert_eq!(total_if_positive(&cumulative_bits(&[0.0, 0.0])), None);
    assert_eq!(total_if_positive(&cumulative_bits(&[-1.0, 0.5])), None);
    assert_eq!(
        total_if_positive(&cumulative_bits(&[1.0, 2.0])),
        Some(3.0f64.to_bits())
    );
    // a NaN total is not at or below zero: the scan decides
    let with_nan = cumulative_bits(&[f64::NAN, 1.0]);
    assert!(total_if_positive(&with_nan).is_some());
}

#[test]
fn seed_digest_depends_on_both_words() {
    // deterministic across calls
    assert_eq!(seed_digest(12345, 67890), seed_digest(12345, 67890));
    // not an echo of either word
    for k in 0..64u64 {
        assert_ne!(seed_digest(k, 0), k);
        assert_ne!(seed_digest(0, k), k);
    }
    // sensitive to each word separately
    for k in 1..64u64 {
        assert_ne!(seed_digest(k, 7), seed_digest(0, 7));
        assert_ne!(seed_digest(7, k), seed_digest(7, 0));
    }
}
