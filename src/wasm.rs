// The wasm executor: runs a target's `fuzz` export on an input and counts the
// instructions it executes, measured as the fuel that wasmi charges.

use crate::errors::SideFuzzError;
use crate::rng::random_bytes;
use vstd::prelude::*;

verus! {

/// The largest input length a target may ask for, in bytes.
pub const MAX_INPUT_LEN: u32 = 1024;

/// The fuel that each invocation starts with.
pub const FUEL_BUDGET: u64 = 0xffff_ffff_ffff_ffff;

/// How many runs are tried, at most, to prime an instance.
pub const PRIME_ATTEMPTS: usize = 100;

/// A live instance of a module together with the store that owns it. Its
/// parts are never handed out, so every engine call made through it pairs
/// the instance with its own store.
#[verifier::external_body]
struct Runtime {
    store: wasmi::Store<()>,
    instance: wasmi::Instance,
}

/// What an instance exports under a name.
pub enum ExportKind {
    Missing,
    Memory,
    Function,
    Other,
}

/// Relies on wasmi's `Config::consume_fuel`, `Engine::new`, `Module::new`,
/// `Store::new` and `Linker::instantiate_and_start`: a fresh store with fuel
/// metering and an instance of the module in it, with no imports.
#[verifier::external_body]
fn instantiate(bytes: &Vec<u8>) -> (r: Result<Runtime, wasmi::Error>) {
    let mut config = wasmi::Config::default();
    config.consume_fuel(true);
    let engine = wasmi::Engine::new(&config);
    let module = wasmi::Module::new(&engine, bytes)?;
    let mut store = wasmi::Store::new(&engine, ());
    let linker = wasmi::Linker::<()>::new(&engine);
    let instance = linker.instantiate_and_start(&mut store, &module)?;
    Ok(Runtime { store, instance })
}

/// Relies on wasmi's `Instance::get_export`, on the instance's own store:
/// the kind of the export of that name.
#[verifier::external_body]
fn export_kind(rt: &Runtime, name: &str) -> (r: ExportKind) {
    match rt.instance.get_export(&rt.store, name) {
        None => ExportKind::Missing,
        Some(wasmi::Extern::Memory(_)) => ExportKind::Memory,
        Some(wasmi::Extern::Func(_)) => ExportKind::Function,
        Some(_) => ExportKind::Other,
    }
}

/// Relies on wasmi's `Instance::get_memory` and `Memory::write`, on the
/// instance's own store: `None` where there is no `memory` export, else the
/// outcome of copying `data` to it at `offset` (an error where that is out
/// of bounds).
#[verifier::external_body]
fn write_memory(rt: &mut Runtime, offset: usize, data: &[u8]) -> (r: Option<Result<(), wasmi::errors::MemoryError>>) {
    let memory = rt.instance.get_memory(&rt.store, "memory")?;
    Some(memory.write(&mut rt.store, offset, data))
}

/// Relies on wasmi's `Store::set_fuel`, which fails only where fuel metering
/// is off.
#[verifier::external_body]
fn set_fuel(rt: &mut Runtime, fuel: u64) -> (r: Result<(), wasmi::Error>) {
    rt.store.set_fuel(fuel)
}

/// Relies on wasmi's `Store::get_fuel`: the fuel that is left.
#[verifier::external_body]
fn get_fuel(rt: &Runtime) -> (r: Result<u64, wasmi::Error>) {
    rt.store.get_fuel()
}

/// Relies on wasmi's `Instance::get_func`, `Func::typed` and
/// `TypedFunc::call`, on the instance's own store: `None` where no exported
/// function of that name takes nothing and returns nothing, else the outcome
/// of calling it.
#[verifier::external_body]
fn call_unit(rt: &mut Runtime, name: &str) -> (r: Option<Result<(), wasmi::Error>>) {
    let func = rt.instance.get_func(&rt.store, name)?;
    match func.typed::<(), ()>(&rt.store) {
        Ok(f) => Some(f.call(&mut rt.store, ())),
        Err(_) => None,
    }
}

/// Relies on wasmi's `Instance::get_func`, `Func::typed` and
/// `TypedFunc::call`, on the instance's own store: `None` where no exported
/// function of that name takes nothing and returns an `i32`, else the
/// outcome of calling it.
#[verifier::external_body]
fn call_i32(rt: &mut Runtime, name: &str) -> (r: Option<Result<i32, wasmi::Error>>) {
    let func = rt.instance.get_func(&rt.store, name)?;
    match func.typed::<(), i32>(&rt.store) {
        Ok(f) => Some(f.call(&mut rt.store, ())),
        Err(_) => None,
    }
}

/// Relies on wasmi's `Error::as_trap_code`: whether the error is a trap on
/// an out-of-bounds memory access.
#[verifier::external_body]
fn is_memory_out_of_bounds(e: &wasmi::Error) -> (r: bool) {
    e.as_trap_code() == Some(wasmi::TrapCode::MemoryOutOfBounds)
}

/// Instructions executed, given the fuel an invocation started with and the
/// fuel left after it.
pub fn fuel_consumed(budget: u64, remaining: u64) -> (r: u64)
    ensures
        remaining <= budget ==> r == budget - remaining,
        remaining > budget ==> r == 0,
{
    if remaining <= budget {
        budget - remaining
    } else {
        0
    }
}

/// Checks the input length that a target declared.
pub fn check_input_len(raw: i32) -> (r: Result<u32, SideFuzzError>)
    ensures
        0 <= raw <= MAX_INPUT_LEN ==> r == Ok::<u32, SideFuzzError>(raw as u32),
        raw > MAX_INPUT_LEN ==> (r matches Err(SideFuzzError::FuzzLenTooLong(n)) && n == raw as u32),
        raw < 0 ==> r matches Err(SideFuzzError::WasmModuleBadInpuLen),
{
    if raw < 0 {
        Err(SideFuzzError::WasmModuleBadInpuLen)
    } else if raw > MAX_INPUT_LEN as i32 {
        Err(SideFuzzError::FuzzLenTooLong(raw as u32))
    } else {
        Ok(raw as u32)
    }
}

/// The module's `memory` export must be a memory.
pub fn check_memory_export(kind: ExportKind) -> (r: Result<(), SideFuzzError>)
    ensures
        kind is Memory ==> r is Ok,
        kind is Missing ==> r matches Err(SideFuzzError::WasmModuleNoMemory),
        (kind is Function || kind is Other) ==> r matches Err(SideFuzzError::WasmModuleBadMemory),
{
    match kind {
        ExportKind::Memory => Ok(()),
        ExportKind::Missing => Err(SideFuzzError::WasmModuleNoMemory),
        _ => Err(SideFuzzError::WasmModuleBadMemory),
    }
}

/// The error for a write of the input to the guest's memory.
pub fn write_result(w: Option<Result<(), wasmi::errors::MemoryError>>) -> (r: Result<(), SideFuzzError>)
    ensures
        w is None ==> r matches Err(SideFuzzError::WasmModuleNoMemory),
        w matches Some(Ok(_)) ==> r is Ok,
        w matches Some(Err(e)) ==> (r matches Err(SideFuzzError::MemorySetError(f)) && f == e),
{
    match w {
        None => Err(SideFuzzError::WasmModuleNoMemory),
        Some(Ok(())) => Ok(()),
        Some(Err(e)) => Err(SideFuzzError::MemorySetError(e)),
    }
}

/// The error for a call of `fuzz`.
pub fn fuzz_result(c: Option<Result<(), wasmi::Error>>) -> (r: Result<(), SideFuzzError>)
    ensures
        c is None ==> r matches Err(SideFuzzError::WasmModuleNoFuzz),
        c matches Some(Ok(_)) ==> r is Ok,
        c matches Some(Err(e)) ==> (r matches Err(SideFuzzError::WasmError(f)) && f == e),
{
    match c {
        None => Err(SideFuzzError::WasmModuleNoFuzz),
        Some(Ok(())) => Ok(()),
        Some(Err(e)) => Err(SideFuzzError::WasmError(e)),
    }
}

/// The instruction count from the fuel left after a run, or the engine's
/// error.
pub fn fuel_result(f: Result<u64, wasmi::Error>) -> (r: Result<u64, SideFuzzError>)
    ensures
        f matches Ok(rem) ==> r == Ok::<u64, SideFuzzError>(
            if rem <= FUEL_BUDGET { (FUEL_BUDGET - rem) as u64 } else { 0 },
        ),
        f matches Err(e) ==> (r matches Err(SideFuzzError::WasmError(g)) && g == e),
{
    match f {
        Ok(rem) => Ok(fuel_consumed(FUEL_BUDGET, rem)),
        Err(e) => Err(SideFuzzError::WasmError(e)),
    }
}

/// The value of an `i32` export of the handshake, from the kind of the
/// export and the outcome of calling it (made only on a function):
/// `missing` where it is absent, `bad_type` where it is not a function
/// taking nothing and returning an `i32`.
pub fn handshake_value(
    kind: ExportKind,
    call: Option<Result<i32, wasmi::Error>>,
    missing: SideFuzzError,
    bad_type: SideFuzzError,
) -> (r: Result<i32, SideFuzzError>)
    ensures
        kind is Missing ==> r == Err::<i32, SideFuzzError>(missing),
        (kind is Memory || kind is Other) ==> r == Err::<i32, SideFuzzError>(bad_type),
        kind is Function ==> {
            &&& call is None ==> r == Err::<i32, SideFuzzError>(bad_type)
            &&& call matches Some(Ok(v)) ==> r == Ok::<i32, SideFuzzError>(v)
            &&& call matches Some(Err(e)) ==> (r matches Err(SideFuzzError::WasmError(f)) && f == e)
        },
{
    match kind {
        ExportKind::Missing => Err(missing),
        ExportKind::Function => match call {
            None => Err(bad_type),
            Some(Ok(v)) => Ok(v),
            Some(Err(e)) => Err(SideFuzzError::WasmError(e)),
        },
        _ => Err(bad_type),
    }
}

/// The retry rule of priming, after a run whose outcome is `result`, with
/// `failed_before` failed runs before it: stop with `Ok` after a run that
/// did not fail, stop with the run's error once `PRIME_ATTEMPTS` runs
/// failed, else run again (`None`).
pub fn prime_decision(result: Result<u64, SideFuzzError>, failed_before: usize) -> (r: Option<Result<(), SideFuzzError>>)
    ensures
        result is Ok ==> r == Some(Ok::<(), SideFuzzError>(())),
        result matches Err(e) ==> (failed_before + 1 >= PRIME_ATTEMPTS ==> r == Some(Err::<(), SideFuzzError>(e))),
        result is Err ==> (failed_before + 1 < PRIME_ATTEMPTS ==> r is None),
{
    match result {
        Ok(_) => Some(Ok(())),
        Err(e) => if failed_before >= PRIME_ATTEMPTS - 1 { Some(Err(e)) } else { None },
    }
}

/// Whether an instance must be rebuilt after a run: the run trapped
/// (`WasmError`) and the trap was an out-of-bounds memory access.
pub fn needs_rebuild(result: &Result<u64, SideFuzzError>, out_of_bounds: bool) -> (r: bool)
    ensures
        r == (result matches Err(SideFuzzError::WasmError(_)) && out_of_bounds),
{
    match result {
        Err(SideFuzzError::WasmError(_)) => out_of_bounds,
        _ => false,
    }
}

/// The errors that a run of `fuzz` can end with.
pub open spec fn is_run_error(e: SideFuzzError) -> bool {
    e is WasmError || e is MemorySetError || e is WasmModuleNoMemory || e is WasmModuleNoFuzz
}

/// The errors of loading a module.
pub open spec fn is_load_error(e: SideFuzzError) -> bool {
    ||| is_run_error(e)
    ||| e is WasmModuleBadMemory
    ||| e is WasmModuleNoInputPointer
    ||| e is WasmModuleNoInputLen
    ||| e is WasmModuleBadInputPointer
    ||| e is WasmModuleBadInpuLen
    ||| e is FuzzLenTooLong
}

/// Instantiates the module and checks its memory export.
fn start_runtime(bytes: &Vec<u8>) -> (r: Result<Runtime, SideFuzzError>)
    ensures
        r matches Err(e) ==> is_load_error(e),
{
    let rt = match instantiate(bytes) {
        Ok(v) => v,
        Err(e) => return Err(SideFuzzError::WasmError(e)),
    };
    check_memory_export(export_kind(&rt, "memory"))?;
    Ok(rt)
}

/// Writes the input at `ptr`, runs `fuzz` on a full tank of fuel and returns
/// the fuel it burned.
fn run_fuzz(rt: &mut Runtime, ptr: u32, input: &[u8]) -> (r: Result<u64, SideFuzzError>)
    ensures
        r matches Err(e) ==> is_run_error(e),
{
    write_result(write_memory(rt, ptr as usize, input))?;
    if let Err(e) = set_fuel(rt, FUEL_BUDGET) {
        return Err(SideFuzzError::WasmError(e));
    }
    fuzz_result(call_unit(rt, "fuzz"))?;
    fuel_result(get_fuel(rt))
}

/// Calls an `i32` export of the handshake.
fn call_i32_export(rt: &mut Runtime, name: &str, missing: SideFuzzError, bad_type: SideFuzzError) -> (r: Result<i32, SideFuzzError>)
    ensures
        r matches Err(e) ==> (e == missing || e == bad_type || e is WasmError),
{
    let kind = export_kind(rt, name);
    let call = match kind {
        ExportKind::Function => call_i32(rt, name),
        _ => None,
    };
    handshake_value(kind, call, missing, bad_type)
}

/// The input-buffer handshake: a first `fuzz` call with an empty input (the
/// guest traps on purpose after recording its input length), then
/// `input_pointer` and `input_len`. Returns the pointer and the length.
fn handshake(rt: &mut Runtime) -> (r: Result<(u32, u32), SideFuzzError>)
    ensures
        r matches Ok((p, n)) ==> n <= MAX_INPUT_LEN,
        r matches Err(e) ==> is_load_error(e),
{
    let empty: Vec<u8> = Vec::new();
    let _ = run_fuzz(rt, 0, empty.as_slice());
    let ptr = call_i32_export(
        rt,
        "input_pointer",
        SideFuzzError::WasmModuleNoInputPointer,
        SideFuzzError::WasmModuleBadInputPointer,
    )?;
    let raw_len = call_i32_export(
        rt,
        "input_len",
        SideFuzzError::WasmModuleNoInputLen,
        SideFuzzError::WasmModuleBadInpuLen,
    )?;
    let len = check_input_len(raw_len)?;
    Ok((ptr as u32, len))
}

/// Runs `fuzz` on random inputs of `len` bytes by `prime_decision`.
fn prime(rt: &mut Runtime, ptr: u32, len: u32) -> (r: Result<(), SideFuzzError>)
    ensures
        r matches Err(e) ==> is_run_error(e),
{
    let mut failed: usize = 0;
    loop
        invariant
            failed < PRIME_ATTEMPTS,
        decreases PRIME_ATTEMPTS - failed,
    {
        let input = random_bytes(len as usize);
        let result = run_fuzz(rt, ptr, input.as_slice());
        match prime_decision(result, failed) {
            Some(done) => return done,
            None => failed = failed + 1,
        }
    }
}

/// A fresh, primed instance of the module, with the pointer and length of
/// its input buffer.
fn boot(bytes: &Vec<u8>) -> (r: Result<(Runtime, u32, u32), SideFuzzError>)
    ensures
        r matches Ok((rt, p, n)) ==> n <= MAX_INPUT_LEN,
        r matches Err(e) ==> is_load_error(e),
{
    let mut rt = start_runtime(bytes)?;
    let (ptr, len) = handshake(&mut rt)?;
    prime(&mut rt, ptr, len)?;
    Ok((rt, ptr, len))
}

/// A loaded fuzzing target.
pub struct WasmModule {
    module: Vec<u8>,
    runtime: Runtime,
    fuzz_ptr: u32,
    fuzz_len: u32,
    rebuilds: Ghost<nat>,
}

impl WasmModule {
    /// The module's bytes.
    pub closed spec fn bytes_spec(&self) -> Seq<u8> {
        self.module@
    }

    /// The input length that the target declared.
    pub closed spec fn fuzz_len_spec(&self) -> nat {
        self.fuzz_len as nat
    }

    /// Where the input buffer starts in the guest's memory.
    pub closed spec fn fuzz_ptr_spec(&self) -> nat {
        self.fuzz_ptr as nat
    }

    /// How many times the instance was replaced by a fresh one.
    pub closed spec fn rebuilds_spec(&self) -> nat {
        self.rebuilds@
    }

    /// The declared input length is at most `MAX_INPUT_LEN`.
    pub closed spec fn wf(&self) -> bool {
        self.fuzz_len <= MAX_INPUT_LEN
    }

    /// Loads a module from its bytes (binary or text format): instantiates
    /// it, checks its memory export, performs the input-buffer handshake, and
    /// primes the guest with random inputs until one run does not fail, at
    /// most `PRIME_ATTEMPTS` times.
    pub fn new(module: Vec<u8>) -> (r: Result<Self, SideFuzzError>)
        ensures
            r matches Ok(m) ==> m.wf() && m.bytes_spec() == module@ && m.fuzz_len_spec() <= MAX_INPUT_LEN
                && m.rebuilds_spec() == 0,
            r matches Err(e) ==> is_load_error(e),
    {
        let (runtime, fuzz_ptr, fuzz_len) = boot(&module)?;
        Ok(WasmModule { module, runtime, fuzz_ptr, fuzz_len, rebuilds: Ghost(0) })
    }

    /// The input length that the target declared.
    pub fn fuzz_len(&self) -> (r: usize)
        ensures
            r == self.fuzz_len_spec(),
    {
        self.fuzz_len as usize
    }

    /// A copy of the module's bytes.
    pub fn bytes(&self) -> (r: Vec<u8>)
        ensures
            r@ == self.bytes_spec(),
    {
        self.module.clone()
    }

    /// Runs `fuzz` on the input and returns the number of instructions it
    /// executed. A failed write of the input is `MemorySetError`, a trap of
    /// the guest `WasmError`. Where the trap is an out-of-bounds memory
    /// access (see `needs_rebuild`), the instance is replaced by a fresh,
    /// primed one made from the stored bytes before the error is returned.
    pub fn count_instructions(&mut self, input: &[u8]) -> (r: Result<u64, SideFuzzError>)
        requires
            old(self).wf(),
        ensures
            final(self).wf(),
            final(self).bytes_spec() == old(self).bytes_spec(),
            final(self).fuzz_len_spec() == old(self).fuzz_len_spec(),
            final(self).fuzz_ptr_spec() == old(self).fuzz_ptr_spec(),
            r matches Ok(c) ==> c <= FUEL_BUDGET,
            r matches Err(e) ==> is_run_error(e),
            final(self).rebuilds_spec() == old(self).rebuilds_spec()
                || (final(self).rebuilds_spec() == old(self).rebuilds_spec() + 1
                    && r matches Err(SideFuzzError::WasmError(_))),
    {
        let result = run_fuzz(&mut self.runtime, self.fuzz_ptr, input);
        let out_of_bounds = match &result {
            Err(SideFuzzError::WasmError(e)) => is_memory_out_of_bounds(e),
            _ => false,
        };
        if needs_rebuild(&result, out_of_bounds) {
            self.rebuild();
        }
        result
    }

    /// Replaces the instance by a fresh, primed one; keeps the old one where
    /// that fails.
    fn rebuild(&mut self)
        ensures
            final(self).bytes_spec() == old(self).bytes_spec(),
            final(self).fuzz_len == old(self).fuzz_len,
            final(self).fuzz_ptr == old(self).fuzz_ptr,
            final(self).rebuilds_spec() == old(self).rebuilds_spec()
                || final(self).rebuilds_spec() == old(self).rebuilds_spec() + 1,
    {
        if let Ok((runtime, _, _)) = boot(&self.module) {
            self.runtime = runtime;
            self.rebuilds = Ghost(self.rebuilds@ + 1);
        }
    }

    /// Primes the guest: runs `fuzz` on random inputs of the declared length,
    /// by the rule of `prime_decision` (at most `PRIME_ATTEMPTS` runs; `Ok`
    /// after the first run that does not fail, else the last run's error).
    pub fn prime_lazy_statics(&mut self) -> (r: Result<(), SideFuzzError>)
        requires
            old(self).wf(),
        ensures
            final(self).wf(),
            final(self).bytes_spec() == old(self).bytes_spec(),
            final(self).fuzz_len_spec() == old(self).fuzz_len_spec(),
            final(self).fuzz_ptr_spec() == old(self).fuzz_ptr_spec(),
            r matches Err(e) ==> is_run_error(e),
    {
        let mut failed: usize = 0;
        loop
            invariant
                failed < PRIME_ATTEMPTS,
                self.wf(),
                self.bytes_spec() == old(self).bytes_spec(),
                self.fuzz_len_spec() == old(self).fuzz_len_spec(),
                self.fuzz_ptr_spec() == old(self).fuzz_ptr_spec(),
            decreases PRIME_ATTEMPTS - failed,
        {
            let input = random_bytes(self.fuzz_len as usize);
            let result = self.count_instructions(input.as_slice());
            match prime_decision(result, failed) {
                Some(done) => return done,
                None => failed = failed + 1,
            }
        }
    }

    /// An independent executor for the same module: a fresh instance made
    /// from the stored bytes, never sharing memory with this one. Where the
    /// fresh instance declares another input length, that is
    /// `WasmModuleBadInpuLen`.
    pub fn try_clone(&self) -> (r: Result<WasmModule, SideFuzzError>)
        ensures
            r matches Ok(m) ==> m.wf() && m.bytes_spec() == self.bytes_spec()
                && m.fuzz_len_spec() == self.fuzz_len_spec(),
            r matches Err(e) ==> is_load_error(e),
    {
        let m = WasmModule::new(self.module.clone())?;
        if m.fuzz_len != self.fuzz_len {
            return Err(SideFuzzError::WasmModuleBadInpuLen);
        }
        Ok(m)
    }
}

} // verus!
