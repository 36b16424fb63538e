//! Execution and classification core of an HTTP fuzzing harness adapter.
//!
//! One run probes the target once, classifies what came back, keeps the raw
//! result in a keyed store and leaves a record of the run for the feedback
//! that later judges whether the input is worth keeping.

pub mod classify;
pub mod error;
pub mod executor;
pub mod feedback;
pub mod outcome;
pub mod shared;
pub mod state;
pub mod store;

pub use classify::{EKLogic, StatusLogic};
pub use error::{ComponentError, ExecError, HashMapStateError, LookupError};
pub use executor::{HTTPExecutor, Observers};
pub use feedback::HTTPCodeFeedback;
pub use outcome::{HTTPExitKind, HTTPExitKindView, HTTPVerb, RawResult, RawResultView};
pub use shared::SharedHashMapState;
pub use state::DriverState;
pub use store::{HasHashMap, HashMapState};
