//! Launching: what becomes of a process that the operating system was asked
//! to start.
//!
//! The caller starts the process with both output channels piped, takes the
//! two pipes from it, and reports how that went. The decision made here is
//! either to track the process, under a handle that the registry mints for
//! it, and to pair each pipe with the reader that will drain it, or to
//! reject the launch with the reason. Tracking comes before reading: once
//! the caller learns a handle, the registry knows it.

use vstd::prelude::*;
use crate::error::{ProcessError, ProcessErrorView};
use crate::event::{ProcessHandle, StreamKind};
use crate::reader::{StreamReader, StreamReaderView};
use crate::registry::{HANDLE_LIMIT, ProcessRegistry, well_numbered};

verus! {

/// How the attempt to start a process went. `P` is the resource that stands
/// for a live process, `C` the reading end of one of its output channels.
#[derive(Debug)]
pub enum SpawnOutcome<P, C> {
    /// The operating system could not create the process.
    Failed { reason: String },
    /// The process runs. `process` stands for it after its pipes were taken,
    /// and is all that ending and reaping it will need; `stdout` and
    /// `stderr` are those pipes, as far as they were there to take.
    Started { stdout: Option<C>, stderr: Option<C>, process: P },
}

/// One output channel of a tracked process, with the reader that is to drain it.
#[derive(Debug)]
pub struct Channel<C> {
    pub pipe: C,
    pub reader: StreamReader,
}

/// What is to be done about a spawn outcome.
#[derive(Debug)]
pub enum LaunchDecision<P, C> {
    /// The process is in the registry under `handle`, which named no process
    /// before. The caller starts draining the two channels and returns the
    /// handle.
    Track { handle: ProcessHandle, stdout: Channel<C>, stderr: Channel<C> },
    /// The launch has failed with `error`. `orphan` is the process, when one
    /// was started: it is in no registry, and the caller has to end it.
    Reject { error: ProcessError, orphan: Option<P> },
}

/// Why a spawn outcome cannot lead to a tracked process, if it cannot, in a
/// registry whose next handle is `next`. A missing standard output pipe is
/// reported before a missing diagnostic pipe, and both before the want of a
/// handle.
pub open spec fn launch_error<P, C>(outcome: SpawnOutcome<P, C>, next: ProcessHandle) -> Option<
    ProcessErrorView,
> {
    match outcome {
        SpawnOutcome::Failed { reason } => Some(ProcessErrorView::SpawnFailed { reason: reason@ }),
        SpawnOutcome::Started { stdout, stderr, .. } => {
            if stdout is None {
                Some(ProcessErrorView::PipeCaptureFailed { stream: StreamKind::Stdout })
            } else if stderr is None {
                Some(ProcessErrorView::PipeCaptureFailed { stream: StreamKind::Stderr })
            } else if next >= HANDLE_LIMIT {
                Some(ProcessErrorView::HandlesExhausted)
            } else {
                None
            }
        },
    }
}

/// The process that a spawn outcome brought, if any.
pub open spec fn started_process<P, C>(outcome: SpawnOutcome<P, C>) -> Option<P> {
    match outcome {
        SpawnOutcome::Failed { .. } => None,
        SpawnOutcome::Started { process, .. } => Some(process),
    }
}

/// The entries of the registry after the decision on a spawn outcome: with
/// the process under the next handle when it is tracked, unchanged when it
/// is rejected.
pub open spec fn registry_after_launch<P, C>(
    before: Map<ProcessHandle, P>,
    next: ProcessHandle,
    outcome: SpawnOutcome<P, C>,
) -> Map<ProcessHandle, P> {
    match outcome {
        SpawnOutcome::Started { process, .. } if launch_error(outcome, next) is None => before.insert(
            next,
            process,
        ),
        _ => before,
    }
}

/// The next handle of the registry after the decision on a spawn outcome:
/// one further when the process is tracked, unchanged when it is rejected.
pub open spec fn next_after_launch<P, C>(
    next: ProcessHandle,
    outcome: SpawnOutcome<P, C>,
) -> ProcessHandle {
    if launch_error(outcome, next) is None {
        (next + 1) as ProcessHandle
    } else {
        next
    }
}

/// A reader at the start of a channel.
pub open spec fn fresh_reader(process_id: ProcessHandle, stream: StreamKind) -> StreamReaderView {
    StreamReaderView { process_id, stream, pending: Seq::empty() }
}

/// Decides on a spawn outcome, and tracks the process if it can be tracked.
pub fn track_spawned<P, C>(registry: &mut ProcessRegistry<P>, outcome: SpawnOutcome<P, C>) -> (decision:
    LaunchDecision<P, C>)
    ensures
        well_numbered(old(registry)@, old(registry).next_handle()),
        well_numbered(final(registry)@, final(registry).next_handle()),
        final(registry)@ == registry_after_launch(
            old(registry)@,
            old(registry).next_handle(),
            outcome,
        ),
        final(registry).next_handle() == next_after_launch(old(registry).next_handle(), outcome),
        match launch_error(outcome, old(registry).next_handle()) {
            Some(e) => {
                &&& decision matches LaunchDecision::Reject { error, orphan }
                &&& error@ == e
                &&& orphan == started_process(outcome)
            },
            None => {
                &&& decision matches LaunchDecision::Track { handle, stdout, stderr }
                &&& outcome matches SpawnOutcome::Started {
                    process,
                    stdout: piped_stdout,
                    stderr: piped_stderr,
                }
                &&& handle == old(registry).next_handle()
                &&& !old(registry)@.contains_key(handle)
                &&& final(registry)@ == old(registry)@.insert(handle, process)
                &&& final(registry)@.contains_key(handle)
                &&& piped_stdout == Some(stdout.pipe)
                &&& piped_stderr == Some(stderr.pipe)
                &&& stdout.reader@ == fresh_reader(handle, StreamKind::Stdout)
                &&& stderr.reader@ == fresh_reader(handle, StreamKind::Stderr)
            },
        },
{
    proof {
        use_type_invariant(&*registry);
    }
    match outcome {
        SpawnOutcome::Failed { reason } => LaunchDecision::Reject {
            error: ProcessError::SpawnFailed { reason },
            orphan: None,
        },
        SpawnOutcome::Started { stdout, stderr, process } => {
            let stdout_pipe = match stdout {
                Some(pipe) => pipe,
                None => {
                    return LaunchDecision::Reject {
                        error: ProcessError::PipeCaptureFailed { stream: StreamKind::Stdout },
                        orphan: Some(process),
                    };
                },
            };
            let stderr_pipe = match stderr {
                Some(pipe) => pipe,
                None => {
                    return LaunchDecision::Reject {
                        error: ProcessError::PipeCaptureFailed { stream: StreamKind::Stderr },
                        orphan: Some(process),
                    };
                },
            };
            match registry.register(process) {
                Err(process) => LaunchDecision::Reject {
                    error: ProcessError::HandlesExhausted,
                    orphan: Some(process),
                },
                Ok(handle) => LaunchDecision::Track {
                    handle,
                    stdout: Channel {
                        pipe: stdout_pipe,
                        reader: StreamReader::new(handle, StreamKind::Stdout),
                    },
                    stderr: Channel {
                        pipe: stderr_pipe,
                        reader: StreamReader::new(handle, StreamKind::Stderr),
                    },
                },
            }
        },
    }
}

/// A process that started with both pipes, while a handle is left, is in the
/// registry as soon as the decision is made, under a handle that named
/// nothing before. Every other entry is as it was, and the next launch will
/// get a later handle.
pub proof fn lemma_launched_process_is_registered<P, C>(
    before: Map<ProcessHandle, P>,
    next: ProcessHandle,
    outcome: SpawnOutcome<P, C>,
)
    requires
        well_numbered(before, next),
        launch_error(outcome, next) is None,
    ensures
        ({
            let after = registry_after_launch(before, next, outcome);
            let handle = next;
            &&& outcome matches SpawnOutcome::Started { process, .. }
            &&& !before.contains_key(handle)
            &&& after.contains_key(handle)
            &&& after[handle] == process
            &&& after.remove(handle) == before
            &&& forall|other: ProcessHandle|
                other != handle ==> after.contains_key(other) == before.contains_key(other)
            &&& next_after_launch(next, outcome) == handle + 1
            &&& well_numbered(after, next_after_launch(next, outcome))
        }),
{
    let after = registry_after_launch(before, next, outcome);
    assert(after.remove(next) =~= before);
}

/// A rejected launch leaves the registry as it was, and uses up no handle.
pub proof fn lemma_rejected_launch_changes_nothing<P, C>(
    before: Map<ProcessHandle, P>,
    next: ProcessHandle,
    outcome: SpawnOutcome<P, C>,
)
    requires
        launch_error(outcome, next) is Some,
    ensures
        registry_after_launch(before, next, outcome) == before,
        next_after_launch(next, outcome) == next,
{
}

/// Two launches never get the same handle, whatever is stopped between
/// them: the second handle is beyond the first, so that a handle keeps
/// naming the process it was given to, or nothing.
pub proof fn lemma_handles_are_never_reused<P, C>(
    next: ProcessHandle,
    first: SpawnOutcome<P, C>,
    later_next: ProcessHandle,
    second: SpawnOutcome<P, C>,
)
    requires
        launch_error(first, next) is None,
        next_after_launch(next, first) <= later_next,
        launch_error(second, later_next) is None,
    ensures
        next < later_next,
        later_next < next_after_launch(later_next, second),
{
}

} // verus!
