// The check command: verifies a given pair of inputs, with no evolution.

use crate::dudect::DudeCT;
use crate::errors::SideFuzzError;
use crate::fuzz::{GIVE_UP_MIN_SAMPLES, T_GIVE_UP_MILLI, T_SUCCESS_MILLI};
use crate::util::{score_consistent, InputPair, ScoredInputPair};
use crate::wasm::WasmModule;
use vstd::prelude::*;

verus! {

/// The check command on a module and two inputs.
pub struct Check {
    module: WasmModule,
    input: InputPair,
}

impl Check {
    /// The two inputs.
    pub closed spec fn inputs_spec(&self) -> (Seq<u8>, Seq<u8>) {
        (self.input.first@, self.input.second@)
    }

    /// The module.
    pub closed spec fn module_spec(&self) -> WasmModule {
        self.module
    }

    /// The check command, where both inputs have the module's input length.
    pub fn new(module: WasmModule, first: Vec<u8>, second: Vec<u8>) -> (r: Result<Self, SideFuzzError>)
        ensures
            first@.len() != second@.len() ==> r matches Err(SideFuzzError::InputsDifferentSizes),
            first@.len() == second@.len() && first@.len() != module.fuzz_len_spec() ==> (r matches Err(
                SideFuzzError::InputsWrongSize(n),
            ) && n == module.fuzz_len_spec()),
            first@.len() == second@.len() && first@.len() == module.fuzz_len_spec() ==> (r matches Ok(c)
                && c.inputs_spec() == (first@, second@) && c.module_spec() == module),
    {
        if first.len() != second.len() {
            return Err(SideFuzzError::InputsDifferentSizes);
        }
        if first.len() != module.fuzz_len() {
            return Err(SideFuzzError::InputsWrongSize(module.fuzz_len()));
        }
        Ok(Check { module, input: InputPair { first, second, is_str: false } })
    }

    /// Scores the pair once, and makes a verifier for it on a fresh instance
    /// of the module, with the same thresholds as the fuzz command.
    pub fn start(&mut self) -> (r: Result<(ScoredInputPair, DudeCT), SideFuzzError>)
        requires
            old(self).module_spec().wf(),
        ensures
            final(self).inputs_spec() == old(self).inputs_spec(),
            final(self).module_spec().wf(),
            r matches Ok((s, d)) ==> {
                &&& score_consistent(s)
                &&& (s.pair.first@, s.pair.second@) == old(self).inputs_spec()
                &&& d.wf()
                &&& d.first_stats_spec().count == 0
                &&& d.inputs_spec() == old(self).inputs_spec()
                &&& d.t_threshold_spec() == T_SUCCESS_MILLI
                &&& d.t_fail_spec() == T_GIVE_UP_MILLI
                &&& d.fail_min_samples_spec() == GIVE_UP_MIN_SAMPLES
            },
    {
        let scored = ScoredInputPair::generate(
            &mut self.module,
            self.input.first.clone(),
            self.input.second.clone(),
            false,
        );
        let module = self.module.try_clone()?;
        let dudect = DudeCT::new(
            T_SUCCESS_MILLI,
            T_GIVE_UP_MILLI,
            GIVE_UP_MIN_SAMPLES,
            self.input.first.clone(),
            self.input.second.clone(),
            module,
        )?;
        Ok((scored, dudect))
    }
}

} // verus!
