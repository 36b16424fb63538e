//! The executor: one probe of the target per run, recorded in full before
//! the run returns.

use crate::classify::EKLogic;
use crate::error::{ExecError, HashMapStateError};
use crate::outcome::{response_view, run_record, HTTPExitKind, HTTPExitKindView, RawResult};
use crate::state::DriverState;
use crate::store::{
    answers_add, entries_after, entry_added, entry_removed, lemma_distinct_keys_fill_store,
    HasHashMap,
};
use libafl::executors::ExitKind;
use vstd::prelude::*;

verus! {

/// The hooks that watch a run: one set of calls before the target is probed
/// and one after the run is recorded. A failure of either ends the run.
pub trait Observers<I> {
    /// Whether these hooks are known never to fail. Hooks of which nothing
    /// is known are not.
    open spec fn never_fail(&self) -> bool {
        false
    }

    /// Called with the input before the target is probed.
    fn pre_exec_all(&mut self, state: &DriverState, input: &I) -> (done: Result<
        (),
        libafl_bolts::Error,
    >)
        ensures
            old(self).never_fail() ==> done is Ok && final(self).never_fail(),
    ;

    /// Called with the input and the verdict after the run is recorded.
    fn post_exec_all(&mut self, state: &DriverState, input: &I, exit_kind: &ExitKind) -> (done:
        Result<(), libafl_bolts::Error>)
        ensures
            old(self).never_fail() ==> done is Ok && final(self).never_fail(),
    ;
}

/// No hooks: nothing is called and nothing fails.
impl<I> Observers<I> for () {
    open spec fn never_fail(&self) -> bool {
        true
    }

    fn pre_exec_all(&mut self, state: &DriverState, input: &I) -> (done: Result<
        (),
        libafl_bolts::Error,
    >) {
        Ok(())
    }

    fn post_exec_all(&mut self, state: &DriverState, input: &I, exit_kind: &ExitKind) -> (done:
        Result<(), libafl_bolts::Error>) {
        Ok(())
    }
}

/// What recording a probe makes of the records and what it answers, where
/// the store gave the answer `added` when it was asked to take what the
/// probe brought back: only where the store took it is the record of the run
/// kept under `index`, in place of any that was there, and the verdict is
/// the answer. Else the failure of the store is the answer.
pub open spec fn noted(
    verdict: ExitKind,
    records: Map<u64, HTTPExitKindView>,
    index: u64,
    raw: Option<RawResult>,
    added: Result<(), HashMapStateError<u64>>,
) -> (Map<u64, HTTPExitKindView>, Result<ExitKind, ExecError>) {
    match added {
        Ok(_) => (records.insert(index, run_record(response_view(raw), verdict)), Ok(verdict)),
        Err(e) => (records, Err(ExecError::Store(e))),
    }
}

/// The answer of the store that lies behind the end `ended` of a run: the
/// failure of the store where the run ended with one, and else that the
/// store took what it was given.
pub open spec fn store_answer(ended: Result<ExitKind, ExecError>) -> Result<
    (),
    HashMapStateError<u64>,
> {
    match ended {
        Err(ExecError::Store(e)) => Err(e),
        _ => Ok(()),
    }
}

/// What recording a probe makes of an exclusive store and of the records,
/// and what it answers, in a session whose last run has the index `index`:
/// the store is asked to take `raw` under `index`, as [`entry_added`] says,
/// and the rest is as [`noted`] says of its answer.
pub open spec fn recorded(
    verdict: ExitKind,
    entries: Map<u64, Box<Option<RawResult>>>,
    available: bool,
    records: Map<u64, HTTPExitKindView>,
    index: u64,
    raw: Option<RawResult>,
) -> (Map<u64, Box<Option<RawResult>>>, Map<u64, HTTPExitKindView>, Result<ExitKind, ExecError>) {
    let added = entry_added(entries, available, index, Box::new(raw));
    let after = noted(verdict, records, index, raw, added.1);
    (added.0, after.0, after.1)
}

/// Whether a run may end with `ended` where recording its probe answered
/// `answer`: it ends with that answer, or, where the probe was recorded, with
/// the failure of a hook that was called afterwards.
pub open spec fn ends_with(
    answer: Result<ExitKind, ExecError>,
    ended: Result<ExitKind, ExecError>,
) -> bool {
    ended == answer || (answer is Ok && ended matches Err(ExecError::PostExec(_)))
}

/// Whether a run that got past the first hooks and whose probe brought back
/// `raw` may have left the records as `records_after` and the store, if it
/// is exclusive, with `entries_after`, and have ended with `ended`. The
/// store gave an answer that it may give, the records are as [`noted`] says
/// of that answer, and the run ended as [`ends_with`] allows. Of an
/// exclusive store the answer and the entries are those that [`recorded`]
/// gives.
pub open spec fn ran_with(
    verdict: ExitKind,
    exclusive: bool,
    entries: Map<u64, Box<Option<RawResult>>>,
    available: bool,
    records: Map<u64, HTTPExitKindView>,
    index: u64,
    raw: Option<RawResult>,
    entries_after: Map<u64, Box<Option<RawResult>>>,
    records_after: Map<u64, HTTPExitKindView>,
    ended: Result<ExitKind, ExecError>,
) -> bool {
    let after = noted(verdict, records, index, raw, store_answer(ended));
    let exact = recorded(verdict, entries, available, records, index, raw);
    &&& answers_add(index, store_answer(ended))
    &&& records_after == after.0
    &&& ends_with(after.1, ended)
    &&& exclusive ==> entries_after == exact.0 && records_after == exact.1 && ends_with(
        exact.2,
        ended,
    )
}

/// The indices of the first `n` runs of a session whose driver leaves the
/// counter alone: 1, 2 and so on up to `n`.
pub open spec fn run_indices(n: nat) -> Seq<u64> {
    Seq::new(n, |i: int| (i + 1) as u64)
}

/// What the probes of a session brought back, each as the store keeps it.
pub open spec fn kept(raws: Seq<Option<RawResult>>) -> Seq<Box<Option<RawResult>>> {
    Seq::new(raws.len(), |i: int| Box::new(raws[i]))
}

/// The entries of the store and the records of a session after one run for
/// each of `raws`, in which run `i` has the index `i + 1` and its probe
/// brought back `raws[i]`. The session starts with an empty store that can
/// be reached, without records, and `logic` decides the verdicts.
pub open spec fn session_after<EKL: EKLogic>(logic: EKL, raws: Seq<Option<RawResult>>) -> (
    Map<u64, Box<Option<RawResult>>>,
    Map<u64, HTTPExitKindView>,
)
    decreases raws.len(),
{
    if raws.len() == 0 {
        (Map::empty(), Map::empty())
    } else {
        let before = session_after(logic, raws.drop_last());
        let after = recorded(
            logic.exitkind_of(response_view(raws.last())),
            before.0,
            true,
            before.1,
            raws.len() as u64,
            raws.last(),
        );
        (after.0, after.1)
    }
}

/// In a session whose driver leaves the counter alone every run is
/// recorded: after `n` runs the store holds exactly `n` entries, under the
/// indices 1 to `n`, and the records are kept under the same indices. Run
/// `i + 1` was not refused by the store, its entry holds what its probe
/// brought back, and its record is the record of that probe with the verdict
/// of the policy. Each entry can be removed once, and a second removal of it
/// answers `KeyNotPresent`.
pub proof fn lemma_runs_fill_store<EKL: EKLogic>(logic: EKL, raws: Seq<Option<RawResult>>)
    requires
        raws.len() <= u64::MAX,
    ensures
        session_after(logic, raws).0 == entries_after(
            Map::<u64, Box<Option<RawResult>>>::empty(),
            run_indices(raws.len()),
            kept(raws),
        ),
        session_after(logic, raws).0.dom().finite(),
        session_after(logic, raws).0.len() == raws.len(),
        session_after(logic, raws).1.dom() == session_after(logic, raws).0.dom(),
        forall|k: u64| #[trigger]
            session_after(logic, raws).0.contains_key(k) <==> 1 <= k <= raws.len(),
        forall|i: int|
            #![trigger raws[i]]
            0 <= i < raws.len() ==> {
                let index = (i + 1) as u64;
                let verdict = logic.exitkind_of(response_view(raws[i]));
                let before = session_after(logic, raws.take(i));
                let after = session_after(logic, raws);
                let once = entry_removed(after.0, true, index);
                &&& recorded(verdict, before.0, true, before.1, index, raws[i]).2 == Ok::<
                    ExitKind,
                    ExecError,
                >(verdict)
                &&& after.0[index] == Box::new(raws[i])
                &&& after.1[index] == run_record(response_view(raws[i]), verdict)
                &&& once.1 == Ok::<(u64, Box<Option<RawResult>>), HashMapStateError<u64>>(
                    (index, Box::new(raws[i])),
                )
                &&& entry_removed(once.0, true, index).1 == Err::<
                    (u64, Box<Option<RawResult>>),
                    HashMapStateError<u64>,
                >(HashMapStateError::KeyNotPresent)
            },
    decreases raws.len(),
{
    let n = raws.len();
    let after = session_after(logic, raws);
    if n > 0 {
        let front = raws.drop_last();
        lemma_runs_fill_store(logic, front);
        assert(run_indices(n).drop_last() =~= run_indices((n - 1) as nat));
        assert(kept(raws).drop_last() =~= kept(front));
        assert forall|i: int| #![trigger raws[i]] 0 <= i < n implies {
            let index = (i + 1) as u64;
            let verdict = logic.exitkind_of(response_view(raws[i]));
            let prefix = session_after(logic, raws.take(i));
            let once = entry_removed(after.0, true, index);
            &&& recorded(verdict, prefix.0, true, prefix.1, index, raws[i]).2 == Ok::<
                ExitKind,
                ExecError,
            >(verdict)
            &&& after.0[index] == Box::new(raws[i])
            &&& after.1[index] == run_record(response_view(raws[i]), verdict)
            &&& once.1 == Ok::<(u64, Box<Option<RawResult>>), HashMapStateError<u64>>(
                (index, Box::new(raws[i])),
            )
            &&& entry_removed(once.0, true, index).1 == Err::<
                (u64, Box<Option<RawResult>>),
                HashMapStateError<u64>,
            >(HashMapStateError::KeyNotPresent)
        } by {
            if i < n - 1 {
                assert(front[i] == raws[i]);
                assert(front.take(i) =~= raws.take(i));
            } else {
                assert(raws.take(i) =~= front);
            }
        }
    }
    lemma_distinct_keys_fill_store(run_indices(n), kept(raws));
}

/// A probe that is recorded under an index under which one was recorded
/// before is refused with `KeyAlreadyPresent` and changes nothing: the store
/// keeps what the first probe brought back and the record of the first run
/// stays, where the first was taken.
pub proof fn lemma_reused_index_refused(
    first_verdict: ExitKind,
    second_verdict: ExitKind,
    entries: Map<u64, Box<Option<RawResult>>>,
    records: Map<u64, HTTPExitKindView>,
    index: u64,
    first: Option<RawResult>,
    second: Option<RawResult>,
)
    ensures
        ({
            let once = recorded(first_verdict, entries, true, records, index, first);
            let twice = recorded(second_verdict, once.0, true, once.1, index, second);
            &&& twice.2 == Err::<ExitKind, ExecError>(
                ExecError::Store(HashMapStateError::KeyAlreadyPresent(index)),
            )
            &&& twice.0 == once.0
            &&& twice.1 == once.1
            &&& once.2 is Ok ==> twice.0[index] == Box::new(first) && twice.1[index] == run_record(
                response_view(first),
                first_verdict,
            )
        }),
{
}

/// An executor that probes a target over HTTP: it calls the harness once per
/// run, has a policy decide the verdict, keeps what the harness brought back
/// in a store under the index of the run, and leaves a record of the run in
/// the state of the session.
pub struct HTTPExecutor<H, OT, EKL, HM> {
    harness_fn: H,
    observers: OT,
    eklogic: EKL,
    run_map: HM,
}

impl<H, OT, EKL, HM> HTTPExecutor<H, OT, EKL, HM> where
    EKL: EKLogic,
    HM: HasHashMap<u64, Box<Option<RawResult>>>,
 {
    /// The harness that probes the target.
    pub closed spec fn harness(&self) -> H {
        self.harness_fn
    }

    /// The hooks that watch the runs.
    pub closed spec fn hooks(&self) -> OT {
        self.observers
    }

    /// The policy that decides the verdicts.
    pub closed spec fn eklogic(&self) -> EKL {
        self.eklogic
    }

    /// The store that keeps what the probes brought back.
    pub closed spec fn store(&self) -> HM {
        self.run_map
    }

    /// An executor made of its four parts.
    pub fn new(harness: H, observers: OT, eklogic: EKL, hash_state: HM) -> (executor: Self)
        ensures
            executor.harness() == harness,
            executor.hooks() == observers,
            executor.eklogic() == eklogic,
            executor.store() == hash_state,
    {
        Self { harness_fn: harness, observers, eklogic, run_map: hash_state }
    }

    /// Takes the executor apart again.
    pub fn into_parts(self) -> (parts: (H, OT, EKL, HM))
        ensures
            parts == (self.harness(), self.hooks(), self.eklogic(), self.store()),
    {
        (self.harness_fn, self.observers, self.eklogic, self.run_map)
    }

    /// The hooks that watch the runs.
    pub fn observers(&self) -> (observers: &OT)
        ensures
            *observers == self.hooks(),
    {
        &self.observers
    }

    /// The hooks that watch the runs, to change them. The other parts stay.
    pub fn observers_mut(&mut self) -> (observers: &mut OT)
        ensures
            *observers == old(self).hooks(),
            final(self).hooks() == *final(observers),
            final(self).harness() == old(self).harness(),
            final(self).eklogic() == old(self).eklogic(),
            final(self).store() == old(self).store(),
    {
        &mut self.observers
    }

    /// The store that keeps what the probes brought back.
    pub fn run_map(&self) -> (run_map: &HM)
        ensures
            *run_map == self.store(),
    {
        &self.run_map
    }

    /// The store that keeps what the probes brought back, to take results
    /// out of it. The other parts stay.
    pub fn run_map_mut(&mut self) -> (run_map: &mut HM)
        ensures
            *run_map == old(self).store(),
            final(self).store() == *final(run_map),
            final(self).harness() == old(self).harness(),
            final(self).eklogic() == old(self).eklogic(),
            final(self).hooks() == old(self).hooks(),
    {
        &mut self.run_map
    }

    /// Records what the probe of the last run of `state` brought back: has
    /// the policy decide the verdict, hands `raw` to the store under the
    /// index of that run and, where the store took it, keeps the record of
    /// the run in `state`. Where the store did not take it, which an
    /// exclusive store never does under an index it holds, nothing changes
    /// and the failure of the store is the answer.
    pub fn record_run(&mut self, state: &mut DriverState, raw: Option<RawResult>) -> (done: Result<
        ExitKind,
        ExecError,
    >)
        requires
            HM::keys_lawful(),
        ensures
            answers_add(old(state).executions(), store_answer(done)),
            (final(state).records(), done) == noted(
                old(self).eklogic().exitkind_of(response_view(raw)),
                old(state).records(),
                old(state).executions(),
                raw,
                store_answer(done),
            ),
            HM::exclusive() ==> {
                &&& (final(self).store().entries(), final(state).records(), done) == recorded(
                    old(self).eklogic().exitkind_of(response_view(raw)),
                    old(self).store().entries(),
                    old(self).store().available(),
                    old(state).records(),
                    old(state).executions(),
                    raw,
                )
                &&& final(self).store().available() == old(self).store().available()
            },
            final(state).executions() == old(state).executions(),
            final(self).harness() == old(self).harness(),
            final(self).hooks() == old(self).hooks(),
            final(self).eklogic() == old(self).eklogic(),
    {
        let ek = self.eklogic.define_exitkind(&raw);
        let record = HTTPExitKind::from_response(&raw, ek);
        let index = state.executions();
        match self.run_map.add_entry(index, Box::new(raw)) {
            Ok(_) => {
                state.add_named_metadata(index, record);
                Ok(ek)
            },
            Err(e) => Err(ExecError::Store(e)),
        }
    }

    /// Runs the target once on `input`.
    ///
    /// The steps, each of which ends the run where it fails: the counter of
    /// `state` is raised by one, and its new value is the index of this run;
    /// the hooks are called; the harness is called on `input`; what it
    /// brought back is recorded as [`HTTPExecutor::record_run`] says; the
    /// hooks are called with the verdict; the verdict is the answer. What
    /// was recorded stays recorded where a hook fails afterwards.
    pub fn run_target<I>(&mut self, state: &mut DriverState, input: &I) -> (ended: Result<
        ExitKind,
        ExecError,
    >) where H: Fn(&I) -> Option<RawResult>, OT: Observers<I>
        requires
            HM::keys_lawful(),
            old(state).executions() < u64::MAX,
            call_requires(old(self).harness(), (input,)),
        ensures
            final(state).executions() == old(state).executions() + 1,
            final(self).harness() == old(self).harness(),
            final(self).eklogic() == old(self).eklogic(),
            HM::exclusive() ==> final(self).store().available() == old(self).store().available(),
            old(self).hooks().never_fail() ==> final(self).hooks().never_fail() && !(ended matches Err(
                ExecError::PreExec(_),
            )) && !(ended matches Err(ExecError::PostExec(_))),
            match ended {
                Err(ExecError::PreExec(_)) => {
                    &&& final(state).records() == old(state).records()
                    &&& HM::exclusive() ==> final(self).store().entries() == old(
                        self,
                    ).store().entries()
                },
                _ => exists|raw: Option<RawResult>|
                    {
                        &&& call_ensures(old(self).harness(), (input,), raw)
                        &&& #[trigger] ran_with(
                            old(self).eklogic().exitkind_of(response_view(raw)),
                            HM::exclusive(),
                            old(self).store().entries(),
                            old(self).store().available(),
                            old(state).records(),
                            final(state).executions(),
                            raw,
                            final(self).store().entries(),
                            final(state).records(),
                            ended,
                        )
                    },
            },
    {
        state.set_executions(state.executions() + 1);
        match self.observers.pre_exec_all(state, input) {
            Ok(_) => {},
            Err(e) => {
                return Err(ExecError::PreExec(e));
            },
        }
        let ret: Option<RawResult> = (self.harness_fn)(input);
        let ghost raw = ret;
        let ghost verdict = old(self).eklogic().exitkind_of(response_view(raw));
        assert(call_ensures(old(self).harness(), (input,), raw));
        let done = self.record_run(state, ret);
        let ek = match done {
            Ok(ek) => ek,
            Err(e) => {
                assert(ran_with(
                    verdict,
                    HM::exclusive(),
                    old(self).store().entries(),
                    old(self).store().available(),
                    old(state).records(),
                    state.executions(),
                    raw,
                    self.store().entries(),
                    state.records(),
                    done,
                ));
                return Err(e);
            },
        };
        let posted = self.observers.post_exec_all(state, input, &ek);
        let ended = match posted {
            Ok(_) => Ok(ek),
            Err(e) => Err(ExecError::PostExec(e)),
        };
        assert(ran_with(
            verdict,
            HM::exclusive(),
            old(self).store().entries(),
            old(self).store().available(),
            old(state).records(),
            state.executions(),
            raw,
            self.store().entries(),
            state.records(),
            ended,
        ));
        ended
    }
}

} // verus!
