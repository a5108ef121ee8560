// The count command: the instruction count of one input.

use crate::errors::SideFuzzError;
use crate::wasm::WasmModule;
use vstd::prelude::*;

verus! {

/// The count command on a module and an input.
pub struct Count {
    module: WasmModule,
    input: Vec<u8>,
}

impl Count {
    /// The input.
    pub closed spec fn input_spec(&self) -> Seq<u8> {
        self.input@
    }

    /// The module.
    pub closed spec fn module_spec(&self) -> WasmModule {
        self.module
    }

    /// The count command, where the input has the module's input length.
    pub fn new(module: WasmModule, input: Vec<u8>) -> (r: Result<Self, SideFuzzError>)
        ensures
            input@.len() != module.fuzz_len_spec() ==> (r matches Err(SideFuzzError::InputsWrongSize(n))
                && n == module.fuzz_len_spec()),
            input@.len() == module.fuzz_len_spec() ==> (r matches Ok(c) && c.input_spec() == input@
                && c.module_spec() == module),
    {
        if input.len() != module.fuzz_len() {
            return Err(SideFuzzError::InputsWrongSize(module.fuzz_len()));
        }
        Ok(Count { module, input })
    }

    /// The number of instructions that the target executes on the input.
    pub fn count(&mut self) -> (r: Result<u64, SideFuzzError>)
        requires
            old(self).module_spec().wf(),
        ensures
            final(self).module_spec().wf(),
            final(self).input_spec() == old(self).input_spec(),
    {
        self.module.count_instructions(self.input.as_slice())
    }
}

} // verus!
