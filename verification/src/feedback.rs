//! The feedback that judges a run by the status it was answered with.

use crate::classify::code_listed;
use crate::error::LookupError;
use crate::outcome::HTTPExitKindView;
use crate::state::DriverState;
use std::borrow::Cow;
use vstd::prelude::*;

verus! {

/// What a feedback that looks for the statuses `codes` makes of the run with
/// the index `index`: whether the status recorded for that run is among
/// them, or `MissingRecord` where no run was recorded under that index.
pub open spec fn judged(codes: Seq<u16>, records: Map<u64, HTTPExitKindView>, index: u64) -> Result<
    bool,
    LookupError,
> {
    if records.contains_key(index) {
        Ok(codes.contains(records[index].response_code))
    } else {
        Err(LookupError::MissingRecord)
    }
}

/// A feedback that finds a run interesting when the target answered it with
/// one of a fixed list of statuses.
pub struct HTTPCodeFeedback {
    name: Cow<'static, str>,
    codes: Vec<u16>,
}

impl HTTPCodeFeedback {
    /// The name the feedback goes by.
    pub closed spec fn name_text(&self) -> Seq<char> {
        self.name@
    }

    /// The statuses the feedback looks for.
    pub closed spec fn codes(&self) -> Seq<u16> {
        self.codes@
    }

    /// A feedback named `name` that looks for the statuses in `codes`.
    pub fn new(name: &str, codes: Vec<u16>) -> (feedback: Self)
        ensures
            feedback.name_text() == name@,
            feedback.codes() == codes@,
    {
        HTTPCodeFeedback { name: Cow::Owned(name.to_owned()), codes }
    }

    /// The name the feedback goes by. It never changes.
    pub fn name(&self) -> (name: &Cow<'static, str>)
        ensures
            name@ == self.name_text(),
    {
        &self.name
    }

    /// Judges the last run of `state`: whether the status recorded for it is
    /// one the feedback looks for. Where that run has left no record the
    /// answer is `MissingRecord`, never `false`.
    pub fn is_interesting(&self, state: &DriverState) -> (verdict: Result<bool, LookupError>)
        ensures
            verdict == judged(self.codes(), state.records(), state.executions()),
    {
        match state.named_metadata(state.executions()) {
            Ok(http_info) => Ok(code_listed(&self.codes, http_info.response_code)),
            Err(e) => Err(e),
        }
    }
}

} // verus!
