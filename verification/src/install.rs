//! The install flow as a state machine.
//!
//! Downloading and installing an update is outside work: the host runtime
//! checks the remote endpoint, streams the package and installs it. What this
//! module holds is every decision of that flow: which action follows which
//! updater event in which state. A driver performs each action (start the
//! check, start the download, emit a notification, restart the process) and
//! hands the next event back. The flow runs
//! `Idle -> Checking -> Downloading -> Installed -> Restarting`, leaves at
//! `Idle` again when no update exists, and drops into `Failed` with the
//! updater's error when any step fails.

use vstd::prelude::*;

verus! {

/// What one progress notification carries: the size of the chunk just
/// downloaded and the total size, where the server announced one.
#[derive(Debug, Clone, Copy, PartialEq)]
pub struct DownloadProgress {
    pub chunk_length: usize,
    pub content_length: Option<u64>,
}

/// Where the install flow stands. `Downloading` tracks how many bytes came in
/// so far; the counter is internal and never reported.
#[derive(Debug, PartialEq)]
pub enum InstallState {
    Idle,
    Checking,
    Downloading { downloaded: u64 },
    Installed,
    Restarting,
    Failed { error: String },
}

/// What the driver observed: the UI asked for an install, the updater's check
/// or install step finished or failed, a download chunk arrived, or the
/// download ran to its end.
#[derive(Debug, PartialEq)]
pub enum InstallEvent {
    InstallRequested,
    CheckSucceeded { update_found: bool },
    CheckFailed { error: String },
    ChunkReceived { chunk_length: usize, content_length: Option<u64> },
    DownloadFinished,
    InstallSucceeded,
    InstallFailed { error: String },
}

/// What the driver must do next: run the updater's check or its
/// download-and-install step, emit a notification, restart the process, or
/// report the operation's result to the caller.
#[derive(Debug, PartialEq)]
pub enum InstallAction {
    BeginCheck,
    BeginDownload,
    EmitProgress { progress: DownloadProgress },
    EmitComplete,
    Restart,
    ReportUpToDate,
    ReportError { error: String },
}

/// The byte counter grows by the chunk's size, saturating at the top of its
/// range rather than wrapping.
pub open spec fn add_chunk(downloaded: u64, chunk_length: usize) -> u64 {
    if downloaded + chunk_length > u64::MAX {
        u64::MAX
    } else {
        (downloaded + chunk_length) as u64
    }
}

/// One transition of the install flow: the state after the event, and the
/// action the event calls for, if any. An event that has no meaning in the
/// current state changes nothing and asks for nothing; `Restarting` and
/// `Failed` absorb every event.
pub open spec fn spec_step(s: InstallState, e: InstallEvent) -> (InstallState, Option<
    InstallAction,
>) {
    match (s, e) {
        (InstallState::Idle, InstallEvent::InstallRequested) => (
            InstallState::Checking,
            Some(InstallAction::BeginCheck),
        ),
        (InstallState::Checking, InstallEvent::CheckSucceeded { update_found }) => if update_found {
            (InstallState::Downloading { downloaded: 0 }, Some(InstallAction::BeginDownload))
        } else {
            (InstallState::Idle, Some(InstallAction::ReportUpToDate))
        },
        (InstallState::Checking, InstallEvent::CheckFailed { error }) => (
            InstallState::Failed { error },
            Some(InstallAction::ReportError { error }),
        ),
        (
            InstallState::Downloading { downloaded },
            InstallEvent::ChunkReceived { chunk_length, content_length },
        ) => (
            InstallState::Downloading { downloaded: add_chunk(downloaded, chunk_length) },
            Some(
                InstallAction::EmitProgress {
                    progress: DownloadProgress { chunk_length, content_length },
                },
            ),
        ),
        (InstallState::Downloading { .. }, InstallEvent::DownloadFinished) => (
            InstallState::Installed,
            Some(InstallAction::EmitComplete),
        ),
        (InstallState::Downloading { .. }, InstallEvent::InstallFailed { error }) => (
            InstallState::Failed { error },
            Some(InstallAction::ReportError { error }),
        ),
        (InstallState::Installed, InstallEvent::InstallSucceeded) => (
            InstallState::Restarting,
            Some(InstallAction::Restart),
        ),
        (InstallState::Installed, InstallEvent::InstallFailed { error }) => (
            InstallState::Failed { error },
            Some(InstallAction::ReportError { error }),
        ),
        (other, _) => (other, None),
    }
}

/// Performs one transition of the install flow, exactly as `spec_step` says.
pub fn step(s: InstallState, e: InstallEvent) -> (r: (InstallState, Option<InstallAction>))
    ensures
        r == spec_step(s, e),
{
    match (s, e) {
        (InstallState::Idle, InstallEvent::InstallRequested) => (
            InstallState::Checking,
            Some(InstallAction::BeginCheck),
        ),
        (InstallState::Checking, InstallEvent::CheckSucceeded { update_found }) => if update_found {
            (InstallState::Downloading { downloaded: 0 }, Some(InstallAction::BeginDownload))
        } else {
            (InstallState::Idle, Some(InstallAction::ReportUpToDate))
        },
        (InstallState::Checking, InstallEvent::CheckFailed { error }) => {
            let reported = error.clone();
            (InstallState::Failed { error }, Some(InstallAction::ReportError { error: reported }))
        },
        (
            InstallState::Downloading { downloaded },
            InstallEvent::ChunkReceived { chunk_length, content_length },
        ) => {
            let grown: u64 = if chunk_length as u64 <= u64::MAX - downloaded {
                downloaded + chunk_length as u64
            } else {
                u64::MAX
            };
            (
                InstallState::Downloading { downloaded: grown },
                Some(
                    InstallAction::EmitProgress {
                        progress: DownloadProgress { chunk_length, content_length },
                    },
                ),
            )
        },
        (InstallState::Downloading { .. }, InstallEvent::DownloadFinished) => (
            InstallState::Installed,
            Some(InstallAction::EmitComplete),
        ),
        (InstallState::Downloading { .. }, InstallEvent::InstallFailed { error }) => {
            let reported = error.clone();
            (InstallState::Failed { error }, Some(InstallAction::ReportError { error: reported }))
        },
        (InstallState::Installed, InstallEvent::InstallSucceeded) => (
            InstallState::Restarting,
            Some(InstallAction::Restart),
        ),
        (InstallState::Installed, InstallEvent::InstallFailed { error }) => {
            let reported = error.clone();
            (InstallState::Failed { error }, Some(InstallAction::ReportError { error: reported }))
        },
        (other, _) => (other, None),
    }
}

/// The state the flow is in after reacting to `events`, starting from `Idle`.
pub open spec fn run_state(events: Seq<InstallEvent>) -> InstallState
    decreases events.len(),
{
    if events.len() == 0 {
        InstallState::Idle
    } else {
        spec_step(run_state(events.drop_last()), events.last()).0
    }
}

/// The actions the flow asks for while reacting to `events`, in order.
pub open spec fn run_actions(events: Seq<InstallEvent>) -> Seq<InstallAction>
    decreases events.len(),
{
    if events.len() == 0 {
        Seq::<InstallAction>::empty()
    } else {
        match spec_step(run_state(events.drop_last()), events.last()).1 {
            Some(a) => run_actions(events.drop_last()).push(a),
            None => run_actions(events.drop_last()),
        }
    }
}

/// How many completion notifications a run of actions asks for.
pub open spec fn count_complete(acts: Seq<InstallAction>) -> nat
    decreases acts.len(),
{
    if acts.len() == 0 {
        0
    } else {
        count_complete(acts.drop_last()) + (if acts.last() is EmitComplete {
            1nat
        } else {
            0nat
        })
    }
}

/// How many restart requests a run of actions asks for.
pub open spec fn count_restart(acts: Seq<InstallAction>) -> nat
    decreases acts.len(),
{
    if acts.len() == 0 {
        0
    } else {
        count_restart(acts.drop_last()) + (if acts.last() is Restart {
            1nat
        } else {
            0nat
        })
    }
}

proof fn lemma_count_complete_push(acts: Seq<InstallAction>, a: InstallAction)
    ensures
        count_complete(acts.push(a)) == count_complete(acts) + (if a is EmitComplete {
            1nat
        } else {
            0nat
        }),
{
    assert(acts.push(a).drop_last() =~= acts);
    assert(acts.push(a).last() == a);
}

proof fn lemma_count_restart_push(acts: Seq<InstallAction>, a: InstallAction)
    ensures
        count_restart(acts.push(a)) == count_restart(acts) + (if a is Restart {
            1nat
        } else {
            0nat
        }),
{
    assert(acts.push(a).drop_last() =~= acts);
    assert(acts.push(a).last() == a);
}

/// What holds of every run: notifications are tied to where the flow stands.
/// Until the download has finished, no completion notification and no restart
/// was asked for; from `Installed` on, exactly one completion notification is
/// out; a restart was requested exactly when the flow reached `Restarting`,
/// and then a completion notification preceded it; a failed flow ends on the
/// report of its error and never requested a restart.
pub open spec fn flow_inv(s: InstallState, acts: Seq<InstallAction>) -> bool {
    &&& (s is Idle || s is Checking || s is Downloading) ==> count_complete(acts) == 0
        && count_restart(acts) == 0
    &&& s is Installed ==> count_complete(acts) == 1 && count_restart(acts) == 0 && (exists|
        i: int,
    |
        0 <= i < acts.len() && acts[i] is EmitComplete)
    &&& s is Restarting ==> count_complete(acts) == 1 && count_restart(acts) == 1 && acts.len()
        > 0 && acts.last() is Restart && (exists|i: int, j: int|
        0 <= i < j < acts.len() && acts[i] is EmitComplete && acts[j] is Restart)
    &&& s matches InstallState::Failed { error } ==> (count_restart(acts) == 0 && acts.len() > 0
        && acts.last() == (InstallAction::ReportError { error }))
}

/// Every run of the install flow, from `Idle`, satisfies `flow_inv`.
pub proof fn lemma_flow_inv(events: Seq<InstallEvent>)
    ensures
        flow_inv(run_state(events), run_actions(events)),
    decreases events.len(),
{
    if events.len() > 0 {
        let prev = events.drop_last();
        let e = events.last();
        lemma_flow_inv(prev);
        let s0 = run_state(prev);
        let acts0 = run_actions(prev);
        match spec_step(s0, e).1 {
            Some(a) => {
                lemma_count_complete_push(acts0, a);
                lemma_count_restart_push(acts0, a);
                assert(run_actions(events) == acts0.push(a));
                if s0 is Installed && spec_step(s0, e).0 is Restarting {
                    let i = choose|i: int| 0 <= i < acts0.len() && acts0[i] is EmitComplete;
                    assert(acts0.push(a)[i] is EmitComplete);
                    assert(acts0.push(a)[acts0.len() as int] is Restart);
                }
                if s0 is Downloading && spec_step(s0, e).0 is Installed {
                    assert(acts0.push(a)[acts0.len() as int] is EmitComplete);
                }
            },
            None => {},
        }
    }
}

/// One completion notification per successful install, before the restart:
/// a run that reached `Restarting` asked for exactly one completion
/// notification and exactly one restart, and the completion notification
/// stands before the restart request.
pub proof fn lemma_completion_once_before_restart(events: Seq<InstallEvent>)
    requires
        run_state(events) is Restarting,
    ensures
        count_complete(run_actions(events)) == 1,
        count_restart(run_actions(events)) == 1,
        run_actions(events).len() > 0 && run_actions(events).last() is Restart,
        exists|i: int, j: int|
            0 <= i < j < run_actions(events).len() && run_actions(events)[i] is EmitComplete
                && run_actions(events)[j] is Restart,
{
    lemma_flow_inv(events);
}

/// The progress notifications a run of actions asks for, in order.
pub open spec fn progress_reported(acts: Seq<InstallAction>) -> Seq<DownloadProgress>
    decreases acts.len(),
{
    if acts.len() == 0 {
        Seq::<DownloadProgress>::empty()
    } else {
        match acts.last() {
            InstallAction::EmitProgress { progress } => progress_reported(acts.drop_last()).push(
                progress,
            ),
            _ => progress_reported(acts.drop_last()),
        }
    }
}

/// The chunks the download delivered, in order: every chunk event that
/// arrived while the flow was downloading, with its chunk and content length.
pub open spec fn chunks_received(events: Seq<InstallEvent>) -> Seq<DownloadProgress>
    decreases events.len(),
{
    if events.len() == 0 {
        Seq::<DownloadProgress>::empty()
    } else {
        match events.last() {
            InstallEvent::ChunkReceived { chunk_length, content_length } => if run_state(
                events.drop_last(),
            ) is Downloading {
                chunks_received(events.drop_last()).push(
                    DownloadProgress { chunk_length, content_length },
                )
            } else {
                chunks_received(events.drop_last())
            },
            _ => chunks_received(events.drop_last()),
        }
    }
}

proof fn lemma_progress_reported_push(acts: Seq<InstallAction>, a: InstallAction)
    ensures
        progress_reported(acts.push(a)) == (match a {
            InstallAction::EmitProgress { progress } => progress_reported(acts).push(progress),
            _ => progress_reported(acts),
        }),
{
    assert(acts.push(a).drop_last() =~= acts);
    assert(acts.push(a).last() == a);
}

/// Each chunk is reported exactly once, with its lengths, in order: the
/// progress notifications of a run are, one for one, the chunks the download
/// delivered.
pub proof fn lemma_each_chunk_reported_once(events: Seq<InstallEvent>)
    ensures
        progress_reported(run_actions(events)) == chunks_received(events),
    decreases events.len(),
{
    if events.len() > 0 {
        let prev = events.drop_last();
        lemma_each_chunk_reported_once(prev);
        match spec_step(run_state(prev), events.last()).1 {
            Some(a) => {
                lemma_progress_reported_push(run_actions(prev), a);
            },
            None => {},
        }
    }
}

/// No failure is swallowed: a run that ended in `Failed` asked, as its last
/// action, for exactly the error in that state to be reported — and never for
/// a restart.
pub proof fn lemma_failure_reported_last(events: Seq<InstallEvent>, error: String)
    requires
        run_state(events) == (InstallState::Failed { error }),
    ensures
        run_actions(events).len() > 0,
        run_actions(events).last() == (InstallAction::ReportError { error }),
        count_restart(run_actions(events)) == 0,
{
    lemma_flow_inv(events);
}

/// An updater failure is passed on verbatim: a check failure while checking,
/// or an install failure while downloading or installing, moves the flow to
/// `Failed` with that error and reports that very error, unchanged.
pub proof fn lemma_error_reported_verbatim(s: InstallState, e: InstallEvent)
    requires
        (s is Checking && e is CheckFailed) || ((s is Downloading || s is Installed)
            && e is InstallFailed),
    ensures
        e matches InstallEvent::CheckFailed { error } ==> spec_step(s, e) == (
            InstallState::Failed { error },
            Some(InstallAction::ReportError { error }),
        ),
        e matches InstallEvent::InstallFailed { error } ==> spec_step(s, e) == (
            InstallState::Failed { error },
            Some(InstallAction::ReportError { error }),
        ),
{
}

/// Copies an event; the copy equals the original.
pub fn clone_event(e: &InstallEvent) -> (r: InstallEvent)
    ensures
        r == *e,
{
    match e {
        InstallEvent::InstallRequested => InstallEvent::InstallRequested,
        InstallEvent::CheckSucceeded { update_found } => InstallEvent::CheckSucceeded {
            update_found: *update_found,
        },
        InstallEvent::CheckFailed { error } => InstallEvent::CheckFailed { error: error.clone() },
        InstallEvent::ChunkReceived { chunk_length, content_length } => InstallEvent::ChunkReceived {
            chunk_length: *chunk_length,
            content_length: *content_length,
        },
        InstallEvent::DownloadFinished => InstallEvent::DownloadFinished,
        InstallEvent::InstallSucceeded => InstallEvent::InstallSucceeded,
        InstallEvent::InstallFailed { error } => InstallEvent::InstallFailed {
            error: error.clone(),
        },
    }
}

/// Runs the whole install flow over the events the driver observed, from
/// `Idle`: the final state and every action the flow asked for, in order.
pub fn install_update(events: &Vec<InstallEvent>) -> (r: (InstallState, Vec<InstallAction>))
    ensures
        r.0 == run_state(events@),
        r.1@ == run_actions(events@),
{
    let mut state = InstallState::Idle;
    let mut actions: Vec<InstallAction> = Vec::new();
    let mut i: usize = 0;
    while i < events.len()
        invariant
            0 <= i <= events@.len(),
            state == run_state(events@.take(i as int)),
            actions@ == run_actions(events@.take(i as int)),
        decreases events@.len() - i,
    {
        let e = clone_event(&events[i]);
        proof {
            assert(events@.take(i + 1).drop_last() =~= events@.take(i as int));
            assert(events@.take(i + 1).last() == events@[i as int]);
        }
        let (next, action) = step(state, e);
        state = next;
        if let Some(a) = action {
            actions.push(a);
        }
        i += 1;
    }
    proof {
        assert(events@.take(events@.len() as int) =~= events@);
    }
    (state, actions)
}

} // verus!
