// The errors of the library.

use vstd::prelude::*;

verus! {

#[verifier::external_type_specification]
#[verifier::external_body]
pub struct ExWasmiError(wasmi::Error);

#[verifier::external_type_specification]
#[verifier::external_body]
pub struct ExMemoryError(wasmi::errors::MemoryError);

/// Everything that can go wrong in the library.
#[derive(Debug)]
pub enum SideFuzzError {
    /// The first input and the second input are not the same size.
    InputsDifferentSizes,
    /// The input does not have the length that the target wants (given).
    InputsWrongSize(usize),
    /// The wasm engine reported an error, most often a trap of the guest.
    WasmError(wasmi::Error),
    /// The module has no `memory` export.
    WasmModuleNoMemory,
    /// The module's `memory` export is not a memory.
    WasmModuleBadMemory,
    /// The module has no `input_pointer` export.
    WasmModuleNoInputPointer,
    /// The module has no `input_len` export.
    WasmModuleNoInputLen,
    /// The module has no `fuzz` function export taking and returning nothing.
    WasmModuleNoFuzz,
    /// `input_pointer` does not take nothing and return an `i32`.
    WasmModuleBadInputPointer,
    /// `input_len` does not take nothing and return an `i32`, or returned a
    /// negative length.
    WasmModuleBadInpuLen,
    /// The input could not be written to the guest's memory.
    MemorySetError(wasmi::errors::MemoryError),
    /// The requested input length (given) is over 1024 bytes.
    FuzzLenTooLong(u32),
    /// The running sums of the statistics no longer fit in 128 bits.
    StatisticsOverflow,
}

} // verus!
