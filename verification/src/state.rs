//! The state of a fuzzing session that the runs and their feedback share.

use crate::error::LookupError;
use crate::outcome::{HTTPExitKind, HTTPExitKindView};
use std::collections::HashMap;
use vstd::prelude::*;

verus! {

broadcast use vstd::std_specs::hash::group_hash_axioms;

/// The state a driver keeps for a session: how many runs it has started, and
/// the record of each run under the index of that run.
///
/// The index of a run is the value of the counter once the run has raised
/// it, so that runs of a session whose driver leaves the counter alone have
/// indices 1, 2, 3 and so on, none of them twice.
pub struct DriverState {
    executions: u64,
    named_metadata: HashMap<u64, HTTPExitKind>,
}

impl DriverState {
    /// The number of runs started so far, which is the index of the last.
    pub closed spec fn spec_executions(&self) -> u64 {
        self.executions
    }

    /// The content of the record kept under each index that has one.
    pub closed spec fn records(&self) -> Map<u64, HTTPExitKindView> {
        self.named_metadata@.map_values(|record: HTTPExitKind| record@)
    }

    /// The state of a session in which nothing has run yet.
    pub fn new() -> (state: Self)
        ensures
            state.executions() == 0,
            state.records() == Map::<u64, HTTPExitKindView>::empty(),
    {
        Self { executions: 0, named_metadata: HashMap::new() }
    }

    /// The number of runs started so far.
    #[verifier::when_used_as_spec(spec_executions)]
    pub fn executions(&self) -> (executions: u64)
        ensures
            executions == self.executions(),
    {
        self.executions
    }

    /// Sets the number of runs started so far. The records stay.
    pub fn set_executions(&mut self, executions: u64)
        ensures
            final(self).executions() == executions,
            final(self).records() == old(self).records(),
    {
        self.executions = executions;
    }

    /// Keeps `record` under `index`, in place of what was kept there.
    pub fn add_named_metadata(&mut self, index: u64, record: HTTPExitKind)
        ensures
            final(self).executions() == old(self).executions(),
            final(self).records() == old(self).records().insert(index, record@),
    {
        self.named_metadata.insert(index, record);
    }

    /// The record kept under `index`, or `MissingRecord` where there is
    /// none.
    pub fn named_metadata(&self, index: u64) -> (found: Result<&HTTPExitKind, LookupError>)
        ensures
            match found {
                Ok(record) => self.records().contains_key(index) && record@
                    == self.records()[index],
                Err(e) => !self.records().contains_key(index) && e == LookupError::MissingRecord,
            },
    {
        match self.named_metadata.get(&index) {
            Some(record) => Ok(record),
            None => Err(LookupError::MissingRecord),
        }
    }
}

} // verus!
