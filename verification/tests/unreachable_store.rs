use http_executor::{
    DriverState, ExecError, HTTPExecutor, HasHashMap, HashMapStateError, LookupError, RawResult,
    StatusLogic,
};

/// A store behind a lock that cannot be had.
struct LockedOut;

impl HasHashMap<u64, Box<Option<RawResult>>> for LockedOut {
    fn new() -> Self {
        LockedOut
    }

    fn add_entry(
        &mut self,
        _key: u64,
        _value: Box<Option<RawResult>>,
    ) -> Result<(), HashMapStateError<u64>> {
        Err(HashMapStateError::CouldNotAcquireMap)
    }

    fn remove_entry(
        &mut self,
        _key: u64,
    ) -> Result<(u64, Box<Option<RawResult>>), HashMapStateError<u64>> {
        Err(HashMapStateError::CouldNotAcquireMap)
    }
}

#[test]
fn run_on_a_store_that_cannot_be_reached_fails_and_records_nothing() {
    let harness = |_input: &Vec<u8>| None::<RawResult>;
    let mut executor =
        HTTPExecutor::new(harness, (), StatusLogic::new(vec![404]), LockedOut::new());
    let mut state = DriverState::new();
    let ended = executor.run_target(&mut state, &vec![]);
    assert!(matches!(
        ended,
        Err(ExecError::Store(HashMapStateError::CouldNotAcquireMap))
    ));
    assert_eq!(state.executions(), 1);
    assert!(matches!(state.named_metadata(1), Err(LookupError::MissingRecord)));
    assert!(matches!(
        executor.run_map_mut().remove_entry(1),
        Err(HashMapStateError::CouldNotAcquireMap)
    ));
}
