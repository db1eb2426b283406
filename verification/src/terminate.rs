//! Stopping a tracked process, step by step.
//!
//! The entry leaves the registry first, so that a second stop of the same
//! handle finds nothing. Only then is the process ended, by force, and
//! reaped. The caller performs each step outside any lock on the registry
//! and reports how it went; the answer for the caller of the whole operation
//! is `true` once a process was found and could be ended, whatever the
//! reaping brought, and `false` when the handle named nothing.

use vstd::prelude::*;
use crate::error::{ProcessError, ProcessErrorView};
use crate::event::ProcessHandle;
use crate::launch::{SpawnOutcome, launch_error, registry_after_launch};
use crate::registry::well_numbered;
use crate::registry::ProcessRegistry;

verus! {

/// How a stop ended. `answer` goes to the caller; `note`, if there is one,
/// goes to the log and nowhere else.
#[derive(Debug, PartialEq, Eq)]
pub struct StopReport {
    pub answer: Result<bool, ProcessError>,
    pub note: Option<ProcessError>,
}

/// What a [`StopReport`] holds, with its errors by their views.
pub struct StopReportView {
    pub answer: Result<bool, ProcessErrorView>,
    pub note: Option<ProcessErrorView>,
}

impl View for StopReport {
    type V = StopReportView;

    open spec fn view(&self) -> StopReportView {
        StopReportView {
            answer: match self.answer {
                Ok(stopped) => Ok(stopped),
                Err(error) => Err(error@),
            },
            note: match self.note {
                Some(error) => Some(error@),
                None => None,
            },
        }
    }
}

/// The first step of a stop, after the removal from the registry.
#[derive(Debug, PartialEq, Eq)]
pub enum StopStart<P> {
    /// A process was found. It is to be ended by force, and the outcome
    /// reported with [`after_kill`].
    Kill { process: P },
    /// The handle named nothing: the stop is over.
    Done { report: StopReport },
}

/// The step of a stop that follows the attempt to end the process.
#[derive(Debug, PartialEq, Eq)]
pub enum StopNext {
    /// The process was told to end. It is to be waited for, and the outcome
    /// reported with [`after_reap`].
    Reap,
    /// The process could not be ended: the stop is over.
    Done { report: StopReport },
}

/// Why a step of the operating system failed, if it did.
pub open spec fn failure_of(outcome: Result<(), String>) -> Option<Seq<char>> {
    match outcome {
        Ok(_) => None,
        Err(reason) => Some(reason@),
    }
}

/// The report of a stop whose handle named nothing: the answer `false`,
/// which is no failure, and a note of it.
pub open spec fn not_found_report(handle: ProcessHandle) -> StopReportView {
    StopReportView { answer: Ok(false), note: Some(ProcessErrorView::ProcessNotFound { handle }) }
}

/// The report of a stop whose process the operating system refused to end.
pub open spec fn kill_failed_report(reason: Seq<char>) -> StopReportView {
    StopReportView { answer: Err(ProcessErrorView::KillFailed { reason }), note: None }
}

/// The report of a stop whose process was ended: the answer `true`, with a
/// note when the reaping failed.
pub open spec fn stopped_report(reap_failure: Option<Seq<char>>) -> StopReportView {
    StopReportView {
        answer: Ok(true),
        note: match reap_failure {
            None => None,
            Some(reason) => Some(ProcessErrorView::WaitFailed { reason }),
        },
    }
}

/// The report of a whole stop, from what each of its steps met: whether the
/// handle named a process, why ending it failed, and why reaping it failed.
/// A later step is taken only where the earlier ones went well.
pub open spec fn stop_report(
    handle: ProcessHandle,
    found: bool,
    kill_failure: Option<Seq<char>>,
    reap_failure: Option<Seq<char>>,
) -> StopReportView {
    if !found {
        not_found_report(handle)
    } else {
        match kill_failure {
            Some(reason) => kill_failed_report(reason),
            None => stopped_report(reap_failure),
        }
    }
}

/// Begins to stop the process under `handle`: takes it out of the registry
/// and hands it over to be ended, or reports that nothing was there.
pub fn begin_stop<P>(registry: &mut ProcessRegistry<P>, handle: ProcessHandle) -> (start: StopStart<
    P,
>)
    ensures
        final(registry)@ == old(registry)@.remove(handle),
        final(registry).next_handle() == old(registry).next_handle(),
        well_numbered(final(registry)@, final(registry).next_handle()),
        !final(registry)@.contains_key(handle),
        match start {
            StopStart::Kill { process } => old(registry)@.contains_key(handle) && process == old(
                registry,
            )@[handle],
            StopStart::Done { report } => !old(registry)@.contains_key(handle) && report@
                == not_found_report(handle),
        },
{
    match registry.remove(handle) {
        Some(process) => StopStart::Kill { process },
        None => StopStart::Done {
            report: StopReport {
                answer: Ok(false),
                note: Some(ProcessError::ProcessNotFound { handle }),
            },
        },
    }
}

/// Takes the outcome of ending the process by force.
pub fn after_kill(outcome: Result<(), String>) -> (next: StopNext)
    ensures
        match next {
            StopNext::Reap => failure_of(outcome) is None,
            StopNext::Done { report } => failure_of(outcome) matches Some(reason) && report@
                == kill_failed_report(reason),
        },
{
    match outcome {
        Ok(_) => StopNext::Reap,
        Err(reason) => StopNext::Done {
            report: StopReport { answer: Err(ProcessError::KillFailed { reason }), note: None },
        },
    }
}

/// Takes the outcome of waiting for the process to exit.
pub fn after_reap(outcome: Result<(), String>) -> (report: StopReport)
    ensures
        report@ == stopped_report(failure_of(outcome)),
{
    match outcome {
        Ok(_) => StopReport { answer: Ok(true), note: None },
        Err(reason) => StopReport {
            answer: Ok(true),
            note: Some(ProcessError::WaitFailed { reason }),
        },
    }
}

/// A stop answers `true` exactly when the handle named a process and that
/// process could be ended, `false` exactly when the handle named nothing,
/// and fails exactly when the process was found and could not be ended.
/// What the reaping brings changes none of this.
pub proof fn lemma_stop_answer(
    handle: ProcessHandle,
    found: bool,
    kill_failure: Option<Seq<char>>,
    reap_failure: Option<Seq<char>>,
)
    ensures
        ({
            let answer = stop_report(handle, found, kill_failure, reap_failure).answer;
            &&& answer == Ok::<bool, ProcessErrorView>(true) <==> found && kill_failure is None
            &&& answer == Ok::<bool, ProcessErrorView>(false) <==> !found
            &&& answer is Err <==> found && kill_failure is Some
            &&& answer == stop_report(handle, found, kill_failure, None).answer
        }),
{
}

/// Stopping a process that is in the registry, and that the operating system
/// lets end, answers `true`; afterwards the handle names nothing, so that a
/// second stop of it answers `false` and changes nothing.
pub proof fn lemma_stop_of_registered<P>(
    before: Map<ProcessHandle, P>,
    handle: ProcessHandle,
    reap_failure: Option<Seq<char>>,
)
    requires
        before.contains_key(handle),
    ensures
        ({
            let after = before.remove(handle);
            &&& stop_report(handle, before.contains_key(handle), None, reap_failure).answer == Ok::<
                bool,
                ProcessErrorView,
            >(true)
            &&& !after.contains_key(handle)
            &&& stop_report(handle, after.contains_key(handle), None, reap_failure)
                == not_found_report(handle)
            &&& after.remove(handle) == after
        }),
{
    assert(before.remove(handle).remove(handle) =~= before.remove(handle));
}

/// A stop of the handle that a launch has brought finds the process of that
/// launch and no other: if the operating system lets the process end, the
/// stop answers `true`, and afterwards the handle names nothing.
pub proof fn lemma_stop_after_launch<P, C>(
    before: Map<ProcessHandle, P>,
    next: ProcessHandle,
    outcome: SpawnOutcome<P, C>,
    reap_failure: Option<Seq<char>>,
)
    requires
        well_numbered(before, next),
        launch_error(outcome, next) is None,
    ensures
        ({
            let registered = registry_after_launch(before, next, outcome);
            let handle = next;
            &&& outcome matches SpawnOutcome::Started { process, .. }
            &&& registered.contains_key(handle)
            &&& registered[handle] == process
            &&& stop_report(handle, registered.contains_key(handle), None, reap_failure).answer
                == Ok::<bool, ProcessErrorView>(true)
            &&& !registered.remove(handle).contains_key(handle)
            &&& registered.remove(handle) == before
        }),
{
    assert(registry_after_launch(before, next, outcome).remove(next) =~= before);
}

/// Stopping a handle that names nothing answers `false`, fails in no way,
/// and leaves the registry as it was.
pub proof fn lemma_stop_of_unknown<P>(
    before: Map<ProcessHandle, P>,
    handle: ProcessHandle,
    kill_failure: Option<Seq<char>>,
    reap_failure: Option<Seq<char>>,
)
    requires
        !before.contains_key(handle),
    ensures
        stop_report(handle, before.contains_key(handle), kill_failure, reap_failure).answer == Ok::<
            bool,
            ProcessErrorView,
        >(false),
        before.remove(handle) == before,
{
    assert(before.remove(handle) =~= before);
}

/// Two stops of different handles do not get in each other's way: each finds
/// its process whether it comes first or second, and the registry ends up
/// the same in either order.
pub proof fn lemma_stops_of_distinct_handles_commute<P>(
    before: Map<ProcessHandle, P>,
    one: ProcessHandle,
    other: ProcessHandle,
)
    requires
        one != other,
    ensures
        before.remove(other).contains_key(one) == before.contains_key(one),
        before.remove(one).contains_key(other) == before.contains_key(other),
        before.contains_key(one) ==> before.remove(other)[one] == before[one],
        before.contains_key(other) ==> before.remove(one)[other] == before[other],
        before.remove(one).remove(other) == before.remove(other).remove(one),
{
    assert(before.remove(one).remove(other) =~= before.remove(other).remove(one));
}

} // verus!
