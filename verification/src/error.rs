//! The failures the components report.

use std::fmt::{Debug, Display};
use std::hash::Hash;
use vstd::prelude::*;
use vstd::string::*;

verus! {

/// `libafl_bolts::Error` (also reachable as `libafl::Error`), the failure an
/// observer hook reports. Nothing is known of what it holds: it is carried
/// from the hook to the caller as it came.
#[verifier::external_type_specification]
#[verifier::external_body]
pub struct ExHookError(libafl_bolts::Error);

/// A failure of a component to make sense of its input.
#[derive(Debug, Clone, Copy, PartialEq, Eq, Structural)]
pub enum ComponentError {
    ParseError,
}

impl ComponentError {
    /// The text this failure is reported with.
    pub fn to_string(&self) -> (text: String)
        ensures
            text@ == "parse-error"@,
    {
        match self {
            ComponentError::ParseError => String::from_str("parse-error"),
        }
    }
}

/// The failures of a keyed store.
#[derive(Debug)]
pub enum HashMapStateError<U> where U: Eq + Hash {
    /// This error is used when adding an entry, it returns the key that was input to indicate
    /// which key was already present
    KeyAlreadyPresent(U),
    /// This error happens when something happens that makes it so that the program can't access
    /// the mutex lock. This should be uncommon
    CouldNotAcquireMap,
    /// This error happens when remove an entry. If a key is not present, then it can't be removed
    /// therefore this error
    KeyNotPresent,
}

impl<U> HashMapStateError<U> where U: Eq + Hash + Display {
    /// The text this failure is reported with: the name of the variant,
    /// followed for `KeyAlreadyPresent` by the key in round brackets, in the
    /// form its `Display` gives it.
    pub fn to_string(&self) -> (text: String)
        ensures
            match *self {
                HashMapStateError::KeyAlreadyPresent(k) => exists|key_text: String|
                    to_string_from_display_ensures::<U>(&k, key_text) && text@
                        == "KeyAlreadyPresent("@ + key_text@ + ")"@,
                HashMapStateError::CouldNotAcquireMap => text@ == "CouldNotAcquireMap"@,
                HashMapStateError::KeyNotPresent => text@ == "KeyNotPresent"@,
            },
    {
        match self {
            HashMapStateError::KeyAlreadyPresent(k) => {
                let key_text = k.to_string();
                let text = String::from_str("KeyAlreadyPresent(").concat(key_text.as_str()).concat(
                    ")",
                );
                assert(to_string_from_display_ensures::<U>(k, key_text) && text@
                    == "KeyAlreadyPresent("@ + key_text@ + ")"@);
                text
            },
            HashMapStateError::CouldNotAcquireMap => String::from_str("CouldNotAcquireMap"),
            HashMapStateError::KeyNotPresent => String::from_str("KeyNotPresent"),
        }
    }
}

/// The failure of a feedback to find what it judges by.
#[derive(Debug, Clone, Copy, PartialEq, Eq, Structural)]
pub enum LookupError {
    /// No run has been recorded under the current execution index: the
    /// feedback was consulted before the run it is to judge.
    MissingRecord,
}

/// The failures of one run, each naming the step that failed.
#[derive(Debug)]
pub enum ExecError {
    /// A hook failed before the target was probed.
    PreExec(libafl_bolts::Error),
    /// The store did not take the result of the probe.
    Store(HashMapStateError<u64>),
    /// A hook failed after the run was recorded.
    PostExec(libafl_bolts::Error),
}

} // verus!
