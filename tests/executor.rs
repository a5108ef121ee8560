use sidefuzz::check::Check;
use sidefuzz::dudect::{round_verdict, DudeResult, WelchT};
use sidefuzz::wasm::{check_memory_export, fuel_result, fuzz_result, handshake_value, needs_rebuild, prime_decision, ExportKind, FUEL_BUDGET, PRIME_ATTEMPTS};
use sidefuzz::count::Count;
use sidefuzz::errors::SideFuzzError;
use sidefuzz::fuzz::{Fuzz, FuzzState, WINDOW_LEN};
use sidefuzz::util::{InputPair, ScoredInputPair, NEG_INFINITY_SCORE};
use sidefuzz::wasm::{check_input_len, fuel_consumed, WasmModule};

fn guest(len: i32, body: &str) -> Vec<u8> {
    format!(
        r#"(module
  (memory (export "memory") 1)
  (global $len (mut i32) (i32.const 0))
  (func (export "input_pointer") (result i32) (i32.const 1024))
  (func (export "input_len") (result i32) (global.get $len))
  (func (export "fuzz") (local $i i32)
    (if (i32.eqz (global.get $len))
      (then (global.set $len (i32.const {len})) (unreachable)))
    {body}))"#
    )
    .into_bytes()
}

fn constant_module() -> Vec<u8> {
    guest(4, "(drop (i32.load8_u (i32.const 1024)))")
}

fn variable_module() -> Vec<u8> {
    guest(
        4,
        "(local.set $i (i32.load8_u (i32.const 1024)))
    (block $done
      (loop $again
        (br_if $done (i32.eqz (local.get $i)))
        (local.set $i (i32.sub (local.get $i) (i32.const 1)))
        (br $again)))",
    )
}

// Traps on an out-of-bounds access where the first input byte is 0xff.
fn trapping_module() -> Vec<u8> {
    guest(
        4,
        "(if (i32.eq (i32.load8_u (i32.const 1024)) (i32.const 255))
      (then (drop (i32.load (i32.const 1000000)))))",
    )
}

#[test]
fn handshake_reads_input_length() {
    let module = WasmModule::new(constant_module()).unwrap();
    assert_eq!(module.fuzz_len(), 4);
    assert_eq!(module.bytes(), constant_module());
}

#[test]
fn count_is_deterministic_and_constant() {
    let mut module = WasmModule::new(constant_module()).unwrap();
    let a = module.count_instructions(&[1, 2, 3, 4]).unwrap();
    let b = module.count_instructions(&[1, 2, 3, 4]).unwrap();
    let c = module.count_instructions(&[9, 9, 9, 9]).unwrap();
    assert!(a > 0);
    assert_eq!(a, b);
    assert_eq!(a, c);
}

#[test]
fn count_grows_with_work() {
    let mut module = WasmModule::new(variable_module()).unwrap();
    let none = module.count_instructions(&[0, 0, 0, 0]).unwrap();
    let ten = module.count_instructions(&[10, 0, 0, 0]).unwrap();
    let twenty = module.count_instructions(&[20, 0, 0, 0]).unwrap();
    assert!(ten > none);
    assert_eq!(twenty - ten, ten - none);
}

#[test]
fn executor_recovers_after_out_of_bounds_trap() {
    let mut module = WasmModule::new(trapping_module()).unwrap();
    let before = module.count_instructions(&[1, 0, 0, 0]).unwrap();
    let trapped = module.count_instructions(&[0xff, 0, 0, 0]);
    assert!(matches!(trapped, Err(SideFuzzError::WasmError(_))));
    let after = module.count_instructions(&[1, 0, 0, 0]).unwrap();
    assert_eq!(before, after);
    assert_eq!(module.fuzz_len(), 4);
}

#[test]
fn clone_is_independent() {
    let mut module = WasmModule::new(variable_module()).unwrap();
    let mut copy = module.try_clone().unwrap();
    assert_eq!(copy.bytes(), module.bytes());
    let a = module.count_instructions(&[3, 0, 0, 0]).unwrap();
    let b = copy.count_instructions(&[3, 0, 0, 0]).unwrap();
    assert_eq!(a, b);
}

#[test]
fn too_long_input_is_refused() {
    let r = WasmModule::new(guest(2000, "(nop)"));
    assert!(matches!(r, Err(SideFuzzError::FuzzLenTooLong(2000))));
}

#[test]
fn largest_input_is_accepted() {
    let module = WasmModule::new(guest(1024, "(nop)")).unwrap();
    assert_eq!(module.fuzz_len(), 1024);
}

#[test]
fn module_without_memory_is_refused() {
    let wat = br#"(module (func (export "fuzz")))"#.to_vec();
    assert!(matches!(WasmModule::new(wat), Err(SideFuzzError::WasmModuleNoMemory)));
}

#[test]
fn module_without_input_pointer_is_refused() {
    let wat = br#"(module (memory (export "memory") 1) (func (export "fuzz")))"#.to_vec();
    assert!(matches!(WasmModule::new(wat), Err(SideFuzzError::WasmModuleNoInputPointer)));
}

#[test]
fn malformed_module_is_refused() {
    assert!(matches!(WasmModule::new(b"not wasm".to_vec()), Err(SideFuzzError::WasmError(_))));
}

#[test]
fn input_len_checks() {
    assert!(matches!(check_input_len(0), Ok(0)));
    assert!(matches!(check_input_len(1024), Ok(1024)));
    assert!(matches!(check_input_len(1025), Err(SideFuzzError::FuzzLenTooLong(1025))));
    assert!(matches!(check_input_len(-1), Err(SideFuzzError::WasmModuleBadInpuLen)));
}

#[test]
fn fuel_consumed_values() {
    assert_eq!(fuel_consumed(100, 58), 42);
    assert_eq!(fuel_consumed(100, 100), 0);
    assert_eq!(fuel_consumed(100, 101), 0);
}

#[test]
fn generate_scores_difference() {
    let mut module = WasmModule::new(variable_module()).unwrap();
    let low = module.count_instructions(&[1, 0, 0, 0]).unwrap();
    let high = module.count_instructions(&[9, 0, 0, 0]).unwrap();
    let s = ScoredInputPair::generate(&mut module, vec![1, 0, 0, 0], vec![9, 0, 0, 0], false);
    assert_eq!(s.highest, high);
    assert_eq!(s.lowest, low);
    assert_eq!(s.score, (high - low) as i128);
    assert_eq!(s.pair.first, vec![1, 0, 0, 0]);
}

#[test]
fn generate_marks_trap() {
    let mut module = WasmModule::new(trapping_module()).unwrap();
    let s = ScoredInputPair::generate(&mut module, vec![0xff, 0, 0, 0], vec![1, 0, 0, 0], false);
    assert_eq!(s.score, NEG_INFINITY_SCORE);
}

#[test]
fn from_counts_orders_counts() {
    let pair = InputPair { first: vec![1], second: vec![2], is_str: false };
    let s = ScoredInputPair::from_counts(10, 25, pair);
    assert_eq!((s.score, s.highest, s.lowest), (15, 25, 10));
    let pair = InputPair { first: vec![1], second: vec![2], is_str: false };
    let s = ScoredInputPair::from_counts(7, 7, pair);
    assert_eq!((s.score, s.highest, s.lowest), (0, 7, 7));
}

#[test]
fn check_different_sizes() {
    let module = WasmModule::new(constant_module()).unwrap();
    let r = Check::new(module, vec![0; 4], vec![0; 3]);
    assert!(matches!(r, Err(SideFuzzError::InputsDifferentSizes)));
}

#[test]
fn check_wrong_size() {
    let module = WasmModule::new(constant_module()).unwrap();
    let r = Check::new(module, vec![0; 3], vec![0; 3]);
    assert!(matches!(r, Err(SideFuzzError::InputsWrongSize(4))));
}

#[test]
fn check_start_scores_pair() {
    let module = WasmModule::new(variable_module()).unwrap();
    let mut check = Check::new(module, vec![0, 0, 0, 0], vec![5, 0, 0, 0]).unwrap();
    let (scored, mut dudect) = check.start().unwrap();
    assert!(scored.score > 0);
    assert_eq!(scored.score, (scored.highest - scored.lowest) as i128);
    let (_, verdict) = dudect.sample(10).unwrap();
    assert_eq!(verdict, DudeResult::Accept);
}

#[test]
fn count_command() {
    let module = WasmModule::new(constant_module()).unwrap();
    assert!(matches!(
        Count::new(module, vec![0; 5]),
        Err(SideFuzzError::InputsWrongSize(4))
    ));
    let mut module = WasmModule::new(constant_module()).unwrap();
    let expected = module.count_instructions(&[1, 1, 1, 1]).unwrap();
    let mut count = Count::new(module, vec![1, 1, 1, 1]).unwrap();
    assert_eq!(count.count().unwrap(), expected);
}

fn scored(score: i128) -> ScoredInputPair {
    ScoredInputPair {
        score,
        highest: 0,
        lowest: 0,
        pair: InputPair { first: vec![score as u8], second: vec![0], is_str: false },
    }
}

#[test]
fn fuzz_state_waits_for_a_settled_window() {
    let mut state = FuzzState::new();
    assert_eq!(state.best().score, 0);
    for round in 0..WINDOW_LEN {
        let verify = state.observe(scored(7));
        assert_eq!(state.best().score, 7);
        assert_eq!(verify, round == WINDOW_LEN - 1);
    }
    // A lower generation best keeps the best but unsettles the window.
    assert!(!state.observe(scored(3)));
    assert_eq!(state.best().score, 7);
    state.reject();
    assert_eq!(state.best().score, 0);
}

#[test]
fn fuzz_state_never_verifies_zero_scores() {
    let mut state = FuzzState::new();
    for _ in 0..(3 * WINDOW_LEN) {
        assert!(!state.observe(scored(0)));
    }
}

#[test]
fn fuzz_verifier_for_candidate() {
    let fuzz = Fuzz::new(WasmModule::new(variable_module()).unwrap());
    let candidate = InputPair { first: vec![0; 4], second: vec![0xff; 4], is_str: false };
    let mut dudect = fuzz.verifier_for(&candidate).unwrap();
    let (_, verdict) = dudect.sample(10).unwrap();
    assert_eq!(verdict, DudeResult::Accept);
    let wrong = InputPair { first: vec![0; 3], second: vec![0; 3], is_str: false };
    assert!(matches!(fuzz.verifier_for(&wrong), Err(SideFuzzError::InputsDifferentSizes)));
}

#[test]
fn evolve_round_returns_best_of_population() {
    let mut optimizer = sidefuzz::optimizer::Optimizer::new(
        2,
        |first: &Vec<u8>, second: &Vec<u8>| ScoredInputPair {
            score: first[0] as i128 + second[1] as i128,
            highest: 0,
            lowest: 0,
            pair: InputPair { first: first.clone(), second: second.clone(), is_str: false },
        },
        false,
    );
    let best = sidefuzz::fuzz::evolve_round(&mut optimizer);
    let top = optimizer.scored_population()[0].score;
    assert_eq!(best.score, top);
    assert_eq!(best.score, best.pair.first[0] as i128 + best.pair.second[1] as i128);
}

#[test]
fn fuzz_state_conclude() {
    let mut state = FuzzState::new();
    state.observe(scored(9));
    assert!(state.conclude(DudeResult::Accept));
    assert_eq!(state.best().score, 9);
    assert!(!state.conclude(DudeResult::Reject));
    let best = state.best();
    assert_eq!((best.score, best.highest, best.lowest), (0, 0, 0));
    assert!(best.pair.first.is_empty() && best.pair.second.is_empty());
}

#[test]
fn round_verdicts() {
    let t = WelchT { num: 1, den: 1 };
    assert_eq!(round_verdict(&Ok((t, DudeResult::Progress))), None);
    assert_eq!(round_verdict(&Ok((t, DudeResult::Accept))), Some(DudeResult::Accept));
    assert_eq!(round_verdict(&Ok((t, DudeResult::Reject))), Some(DudeResult::Reject));
    assert_eq!(round_verdict(&Err(SideFuzzError::StatisticsOverflow)), Some(DudeResult::Reject));
}

#[test]
fn prime_decisions() {
    assert!(matches!(prime_decision(Ok(5), 0), Some(Ok(()))));
    assert!(prime_decision(Err(SideFuzzError::WasmModuleNoFuzz), 0).is_none());
    assert!(prime_decision(Err(SideFuzzError::WasmModuleNoFuzz), PRIME_ATTEMPTS - 2).is_none());
    assert!(matches!(
        prime_decision(Err(SideFuzzError::WasmModuleNoFuzz), PRIME_ATTEMPTS - 1),
        Some(Err(SideFuzzError::WasmModuleNoFuzz))
    ));
}

#[test]
fn handshake_values() {
    let missing = || SideFuzzError::WasmModuleNoInputLen;
    let bad = || SideFuzzError::WasmModuleBadInpuLen;
    assert!(matches!(handshake_value(ExportKind::Missing, None, missing(), bad()), Err(SideFuzzError::WasmModuleNoInputLen)));
    assert!(matches!(handshake_value(ExportKind::Memory, None, missing(), bad()), Err(SideFuzzError::WasmModuleBadInpuLen)));
    assert!(matches!(handshake_value(ExportKind::Function, None, missing(), bad()), Err(SideFuzzError::WasmModuleBadInpuLen)));
    assert!(matches!(handshake_value(ExportKind::Function, Some(Ok(7)), missing(), bad()), Ok(7)));
    assert!(matches!(
        handshake_value(ExportKind::Function, Some(Err(wasmi::Error::new("trap"))), missing(), bad()),
        Err(SideFuzzError::WasmError(_))
    ));
}

#[test]
fn export_and_run_results() {
    assert!(check_memory_export(ExportKind::Memory).is_ok());
    assert!(matches!(check_memory_export(ExportKind::Missing), Err(SideFuzzError::WasmModuleNoMemory)));
    assert!(matches!(check_memory_export(ExportKind::Function), Err(SideFuzzError::WasmModuleBadMemory)));
    assert!(matches!(fuzz_result(None), Err(SideFuzzError::WasmModuleNoFuzz)));
    assert!(fuzz_result(Some(Ok(()))).is_ok());
    assert!(matches!(fuel_result(Ok(FUEL_BUDGET - 12)), Ok(12)));
    let trap: Result<u64, SideFuzzError> = Err(SideFuzzError::WasmError(wasmi::Error::new("trap")));
    assert!(needs_rebuild(&trap, true));
    assert!(!needs_rebuild(&trap, false));
    assert!(!needs_rebuild(&Ok(3), true));
}

#[test]
fn module_with_bad_memory_export_is_refused() {
    let wat = br#"(module (func (export "memory")))"#.to_vec();
    assert!(matches!(WasmModule::new(wat), Err(SideFuzzError::WasmModuleBadMemory)));
}
