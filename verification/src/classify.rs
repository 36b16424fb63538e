//! The policy that turns what a probe brought back into a verdict.

use crate::outcome::{response_view, RawResult, RawResultView};
use libafl::executors::ExitKind;
use vstd::prelude::*;

verus! {

/// A policy that maps what a probe brought back to the verdict of the run.
///
/// A policy is a function: the verdict depends on the policy and on the
/// content of the response alone, so it can be consulted from any thread
/// and at any time with the same answer.
pub trait EKLogic {
    /// The verdict this policy reaches on `response`.
    spec fn exitkind_of(&self, response: Option<RawResultView>) -> ExitKind;

    /// This function takes in a response and maps it to an `ExitKind`.
    fn define_exitkind(&self, response: &Option<RawResult>) -> (exitkind: ExitKind)
        ensures
            exitkind == self.exitkind_of(response_view(*response)),
    ;
}

/// The verdict of a policy that reports a crash on the statuses `codes`:
/// `Crash` where there is a response whose status is among them, `Ok` on
/// every other response and where there is none.
pub open spec fn status_verdict(codes: Seq<u16>, response: Option<RawResultView>) -> ExitKind {
    match response {
        Some(r) => if codes.contains(r.response_code) {
            ExitKind::Crash
        } else {
            ExitKind::Ok
        },
        None => ExitKind::Ok,
    }
}

/// Whether `code` is one of `codes`.
pub fn code_listed(codes: &Vec<u16>, code: u16) -> (listed: bool)
    ensures
        listed == codes@.contains(code),
{
    let mut i: usize = 0;
    while i < codes.len()
        invariant
            i <= codes.len(),
            forall|j: int| 0 <= j < i ==> codes@[j] != code,
        decreases codes.len() - i,
    {
        if codes[i] == code {
            return true;
        }
        i += 1;
    }
    false
}

/// A policy that reports a crash when the target answers with one of a
/// fixed list of statuses.
pub struct StatusLogic {
    status_of_interest: Vec<u16>,
}

impl StatusLogic {
    /// The statuses this policy reports a crash on.
    pub closed spec fn codes(&self) -> Seq<u16> {
        self.status_of_interest@
    }

    /// A policy that reports a crash on the statuses in `inp`.
    pub fn new(inp: Vec<u16>) -> (logic: Self)
        ensures
            logic.codes() == inp@,
    {
        Self { status_of_interest: inp }
    }
}

impl EKLogic for StatusLogic {
    open spec fn exitkind_of(&self, response: Option<RawResultView>) -> ExitKind {
        status_verdict(self.codes(), response)
    }

    fn define_exitkind(&self, response: &Option<RawResult>) -> (exitkind: ExitKind) {
        if let Some(r) = response {
            if code_listed(&self.status_of_interest, r.response_code) {
                return ExitKind::Crash;
            }
        }
        ExitKind::Ok
    }
}

} // verus!
