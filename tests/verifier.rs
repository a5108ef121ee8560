use sidefuzz::dudect::{evaluate, DudeCT, DudeResult, SampleStats};
use sidefuzz::util::p_value_from_t_value;

fn series(counts: &[u64]) -> SampleStats {
    let mut s = SampleStats::new();
    for c in counts {
        s = s.add(*c).unwrap();
    }
    s
}

#[test]
fn p_value_edges() {
    assert_eq!(p_value_from_t_value(0), 10000);
    // 10.0 is not strictly above the first breakpoint.
    assert_eq!(p_value_from_t_value(10_000_000), 1);
    assert_eq!(p_value_from_t_value(10_000_001), 0);
    assert_eq!(p_value_from_t_value(4_500_000), 1);
    assert_eq!(p_value_from_t_value(2_000_000), 500);
    assert_eq!(p_value_from_t_value(1_960_000), 1000);
    assert_eq!(p_value_from_t_value(674_000), 6000);
    assert_eq!(p_value_from_t_value(674_001), 5000);
    assert_eq!(p_value_from_t_value(1), 10000);
}

#[test]
fn p_value_is_monotone() {
    let mut last = p_value_from_t_value(0);
    let mut t: u64 = 0;
    while t <= 12_000_000 {
        let p = p_value_from_t_value(t);
        assert!(p <= last);
        last = p;
        t += 997;
    }
}

#[test]
fn sample_stats_sums() {
    let s = series(&[3, 4, 5]);
    assert_eq!(s.count, 3);
    assert_eq!(s.sum, 12);
    assert_eq!(s.sum_sq, 50);
}

#[test]
fn sample_stats_overflow_is_reported() {
    let s = SampleStats { count: 1, sum: u128::MAX, sum_sq: 0 };
    assert!(s.add(1).is_none());
}

#[test]
fn welch_t_exact_values() {
    // Means 2 and 5, sample variances 1 and 1, n = 3:
    // t^2 = 9 / (1/3 + 1/3) = 13.5 = num / den.
    let s1 = series(&[1, 2, 3]);
    let s2 = series(&[4, 5, 6]);
    let (t, verdict) = evaluate(&s1, &s2, 4500, 674, 100).unwrap();
    assert_eq!(t.num, 9 * 9 * 2);
    assert_eq!(t.den, (3 * 14 - 36) + (3 * 77 - 225));
    assert_eq!(t.num as f64 / t.den as f64, 13.5);
    // 13.5 < 4.5^2 = 20.25: not accepted; too few samples to give up.
    assert_eq!(verdict, DudeResult::Progress);
}

#[test]
fn welch_t_accepts_at_threshold() {
    let s1 = series(&[1, 2, 3]);
    let s2 = series(&[4, 5, 6]);
    // sqrt(13.5) = 3.674...: accepted at a threshold of 3.6.
    let (_, verdict) = evaluate(&s1, &s2, 3600, 674, 100).unwrap();
    assert_eq!(verdict, DudeResult::Accept);
}

#[test]
fn identical_series_are_rejected_after_enough_samples() {
    let s = series(&[7, 9, 7, 9, 8]);
    let (t, verdict) = evaluate(&s, &s, 4500, 674, 4).unwrap();
    assert_eq!(t.num, 0);
    assert_eq!(verdict, DudeResult::Reject);
    let (_, verdict) = evaluate(&s, &s, 4500, 674, 5).unwrap();
    assert_eq!(verdict, DudeResult::Progress);
}

#[test]
fn constant_series_zero_over_zero_is_rejected() {
    let s = series(&[5, 5, 5]);
    let (t, verdict) = evaluate(&s, &s, 4500, 674, 1).unwrap();
    assert_eq!((t.num, t.den), (0, 0));
    assert_eq!(verdict, DudeResult::Reject);
}

#[test]
fn constant_distinct_series_are_accepted() {
    let s1 = series(&[5, 5]);
    let s2 = series(&[6, 6]);
    let (t, verdict) = evaluate(&s1, &s2, 4500, 674, 1_000_000).unwrap();
    assert_eq!(t.den, 0);
    assert!(t.num > 0);
    assert_eq!(verdict, DudeResult::Accept);
}

#[test]
fn evaluate_reports_overflow() {
    let big = SampleStats { count: 2, sum: 1u128 << 63, sum_sq: 1u128 << 127 };
    assert!(evaluate(&big, &big, 4500, 674, 1).is_none());
}

#[test]
fn verifier_rejects_wrong_sizes() {
    let module = sidefuzz::wasm::WasmModule::new(common_constant()).unwrap();
    let r = DudeCT::new(4500, 674, 100, vec![0; 3], vec![0; 4], module);
    assert!(matches!(r, Err(sidefuzz::errors::SideFuzzError::InputsDifferentSizes)));
}

#[test]
fn verifier_rejects_identical_inputs_on_constant_module() {
    let module = sidefuzz::wasm::WasmModule::new(common_constant()).unwrap();
    let mut dudect = DudeCT::new(4500, 674, 2_000, vec![1, 2, 3, 4], vec![1, 2, 3, 4], module).unwrap();
    let mut verdict = DudeResult::Progress;
    for _ in 0..10 {
        let (_, v) = dudect.sample(500).unwrap();
        verdict = v;
        if verdict != DudeResult::Progress {
            break;
        }
    }
    assert_eq!(verdict, DudeResult::Reject);
    assert!(dudect.len() <= 2 * (2_000 + 500));
}

#[test]
fn verifier_accepts_variable_time_pair() {
    let module = sidefuzz::wasm::WasmModule::new(common_variable()).unwrap();
    let mut dudect =
        DudeCT::new(4500, 674, 100_000, vec![0, 0, 0, 0], vec![0xff, 0xff, 0xff, 0xff], module).unwrap();
    let (t, verdict) = dudect.sample(100).unwrap();
    assert_eq!(verdict, DudeResult::Accept);
    assert_eq!(t.den, 0);
    assert_eq!(dudect.len(), 200);
}

fn common_constant() -> Vec<u8> {
    br#"(module
  (memory (export "memory") 1)
  (global $len (mut i32) (i32.const 0))
  (func (export "input_pointer") (result i32) (i32.const 1024))
  (func (export "input_len") (result i32) (global.get $len))
  (func (export "fuzz")
    (if (i32.eqz (global.get $len))
      (then (global.set $len (i32.const 4)) (unreachable)))
    (drop (i32.load8_u (i32.const 1024)))))"#
        .to_vec()
}

fn common_variable() -> Vec<u8> {
    br#"(module
  (memory (export "memory") 1)
  (global $len (mut i32) (i32.const 0))
  (func (export "input_pointer") (result i32) (i32.const 1024))
  (func (export "input_len") (result i32) (global.get $len))
  (func (export "fuzz") (local $i i32)
    (if (i32.eqz (global.get $len))
      (then (global.set $len (i32.const 4)) (unreachable)))
    (local.set $i (i32.load8_u (i32.const 1024)))
    (block $done
      (loop $again
        (br_if $done (i32.eqz (local.get $i)))
        (local.set $i (i32.sub (local.get $i) (i32.const 1)))
        (br $again)))))"#
        .to_vec()
}
