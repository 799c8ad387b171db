//! What holds of every connection to the hub, whatever happens.
use crate::queue::job::{BuildCredentials, BuildManifest};
use crate::worker::messages::{HubMessage, OutgoingView};
use crate::worker::session::{
    cancels, worker_next, CommandView, JobView, SocketEvent, StateView, WorkerEvent,
};
use crate::worker::update::UpdateOutcome;
use crate::ws::messages::ServerMessage;
use vstd::prelude::*;

verus! {

// ---------------------------------------------------------------------------
// Every job is answered
// ---------------------------------------------------------------------------

/// Something that happened, and how long the build in hand had taken by then.
pub struct Happening {
    pub event: WorkerEvent,
    pub nanos: u64,
}

/// Where a connection stands, and whether the build in hand is cancelled, after
/// a series of happenings.
pub open spec fn after(happened: Seq<Happening>) -> (StateView, bool)
    decreases happened.len(),
{
    if happened.len() == 0 {
        (StateView::Idle, false)
    } else {
        let (state, cancelled) = after(happened.drop_last());
        let next = worker_next(state, cancelled, happened.last().event, happened.last().nanos);
        (next.state, next.cancelled)
    }
}

/// The jobs that a list of messages calls over, in order.
pub open spec fn completed_in(sent: Seq<OutgoingView>) -> Seq<Seq<char>>
    decreases sent.len(),
{
    if sent.len() == 0 {
        Seq::empty()
    } else {
        let rest = completed_in(sent.drop_last());
        match sent.last() {
            OutgoingView::Complete { job_id, .. } => rest.push(job_id),
            _ => rest,
        }
    }
}

/// The job that an event assigns: a worker takes one while it has none.
pub open spec fn assigned_by(state: StateView, event: WorkerEvent) -> Seq<Seq<char>> {
    match (state, event) {
        (
            StateView::Idle,
            WorkerEvent::Socket(SocketEvent::Message(HubMessage::JobAssign { job_id, .. })),
        ) => seq![job_id@],
        _ => Seq::empty(),
    }
}

/// The jobs that were assigned in the course of a series of happenings.
pub open spec fn assigned(happened: Seq<Happening>) -> Seq<Seq<char>>
    decreases happened.len(),
{
    if happened.len() == 0 {
        Seq::empty()
    } else {
        assigned(happened.drop_last()) + assigned_by(
            after(happened.drop_last()).0,
            happened.last().event,
        )
    }
}

/// The jobs that were called over in the course of a series of happenings.
pub open spec fn completed(happened: Seq<Happening>) -> Seq<Seq<char>>
    decreases happened.len(),
{
    if happened.len() == 0 {
        Seq::empty()
    } else {
        let (state, cancelled) = after(happened.drop_last());
        completed(happened.drop_last()) + completed_in(
            worker_next(state, cancelled, happened.last().event, happened.last().nanos).sent,
        )
    }
}

/// The job in hand.
pub open spec fn in_hand(state: StateView) -> Seq<Seq<char>> {
    match state {
        StateView::Downloading { job, .. } => seq![job.job_id],
        StateView::Building { job, .. } => seq![job.job_id],
        StateView::Inspecting { job, .. } => seq![job.job_id],
        StateView::Uploading { job, .. } => seq![job.job_id],
        StateView::Removing { job, .. } => seq![job.job_id],
        _ => Seq::empty(),
    }
}

/// A list of one message that calls a job over, or of another and then one.
proof fn lemma_completed_in_short(sent: Seq<OutgoingView>)
    ensures
        sent.len() == 0 ==> completed_in(sent) == Seq::<Seq<char>>::empty(),
        sent.len() == 1 ==> completed_in(sent) == (match sent[0] {
            OutgoingView::Complete { job_id, .. } => seq![job_id],
            _ => Seq::empty(),
        }),
        sent.len() == 2 && !(sent[0] is Complete) ==> completed_in(sent) == (match sent[1] {
            OutgoingView::Complete { job_id, .. } => seq![job_id],
            _ => Seq::empty(),
        }),
{
    reveal_with_fuel(completed_in, 3);
    if sent.len() == 1 {
        assert(sent.drop_last() =~= Seq::<OutgoingView>::empty());
        assert(completed_in(sent) =~= (match sent[0] {
            OutgoingView::Complete { job_id, .. } => seq![job_id],
            _ => Seq::empty(),
        }));
    }
    if sent.len() == 2 && !(sent[0] is Complete) {
        assert(sent.drop_last().drop_last() =~= Seq::<OutgoingView>::empty());
        assert(sent.drop_last().last() == sent[0]);
        assert(completed_in(sent) =~= (match sent[1] {
            OutgoingView::Complete { job_id, .. } => seq![job_id],
            _ => Seq::empty(),
        }));
    }
}

/// One step neither loses a job nor calls one over twice, unless it ends the
/// connection.
proof fn lemma_jobs_are_kept(state: StateView, cancelled: bool, event: WorkerEvent, nanos: u64)
    requires
        !(worker_next(state, cancelled, event, nanos).state is Closed),
    ensures
        ({
            let next = worker_next(state, cancelled, event, nanos);
            in_hand(state) + assigned_by(state, event) == completed_in(next.sent) + in_hand(
                next.state,
            )
        }),
{
    let next = worker_next(state, cancelled, event, nanos);
    lemma_completed_in_short(next.sent);
    assert(in_hand(state) + assigned_by(state, event) =~= completed_in(next.sent) + in_hand(
        next.state,
    ));
}

/// A connection that is over stays so.
proof fn lemma_closed_stays_closed(state: StateView, cancelled: bool, event: WorkerEvent, nanos: u64)
    requires
        state is Closed,
    ensures
        worker_next(state, cancelled, event, nanos).state == state,
{
}

/// Every job is called over exactly once, in the order in which the jobs came:
/// as long as the connection lasts, the jobs that were assigned are those that
/// were called over, and behind them the one in hand.
pub proof fn lemma_every_job_is_completed_once(happened: Seq<Happening>)
    requires
        !(after(happened).0 is Closed),
    ensures
        assigned(happened) == completed(happened) + in_hand(after(happened).0),
    decreases happened.len(),
{
    if happened.len() == 0 {
        assert(assigned(happened) =~= completed(happened) + in_hand(after(happened).0));
    } else {
        let rest = happened.drop_last();
        let (state, cancelled) = after(rest);
        let last = happened.last();
        if state is Closed {
            lemma_closed_stays_closed(state, cancelled, last.event, last.nanos);
        }
        lemma_every_job_is_completed_once(rest);
        lemma_jobs_are_kept(state, cancelled, last.event, last.nanos);
        let next = worker_next(state, cancelled, last.event, last.nanos);
        assert(assigned(happened) =~= completed(rest) + (in_hand(state) + assigned_by(
            state,
            last.event,
        )));
        assert(completed(rest) + (completed_in(next.sent) + in_hand(next.state)) =~= completed(
            happened,
        ) + in_hand(next.state));
    }
}

/// Where the connection is lost, one job at most stays unanswered, the last one.
pub proof fn lemma_at_most_one_job_is_lost(happened: Seq<Happening>) -> (open: Seq<Seq<char>>)
    ensures
        open.len() <= 1,
        assigned(happened) == completed(happened) + open,
    decreases happened.len(),
{
    if !(after(happened).0 is Closed) {
        lemma_every_job_is_completed_once(happened);
        in_hand(after(happened).0)
    } else {
        let rest = happened.drop_last();
        let (state, cancelled) = after(rest);
        let last = happened.last();
        let open = lemma_at_most_one_job_is_lost(rest);
        let next = worker_next(state, cancelled, last.event, last.nanos);
        assert(next.sent =~= Seq::<OutgoingView>::empty());
        assert(assigned_by(state, last.event) =~= Seq::<Seq<char>>::empty());
        assert(completed_in(next.sent) =~= Seq::<Seq<char>>::empty());
        assert(assigned(happened) =~= assigned(rest));
        assert(completed(happened) =~= completed(rest));
        open
    }
}

// ---------------------------------------------------------------------------
// Cancelling
// ---------------------------------------------------------------------------

/// A request to cancel another job leaves the build in hand as it is.
pub proof fn lemma_other_jobs_cannot_be_cancelled(
    job: JobView,
    result: Option<Option<Result<Seq<char>, Seq<char>>>>,
    silent: bool,
    cancelled: bool,
    event: SocketEvent,
    nanos: u64,
)
    requires
        event matches SocketEvent::Message(HubMessage::Cancel { job_id }) && job_id@ != job.job_id,
    ensures
        ({
            let state = StateView::Building { job, result, silent };
            let next = worker_next(state, cancelled, WorkerEvent::Socket(event), nanos);
            next.state == state && next.cancelled == cancelled && next.sent.len() == 0
        }),
{
}

/// Whether an event cancels a job.
pub open spec fn cancels_job(event: WorkerEvent, id: Seq<char>) -> bool {
    event matches WorkerEvent::Socket(e) && cancels(e, id)
}

/// A request to cancel the job in hand cancels it, and whatever else happens it
/// stays cancelled.
pub proof fn lemma_cancelling_lasts(
    job: JobView,
    result: Option<Option<Result<Seq<char>, Seq<char>>>>,
    silent: bool,
    cancelled: bool,
    event: WorkerEvent,
    nanos: u64,
)
    ensures
        worker_next(
            StateView::Building { job, result, silent },
            cancelled,
            event,
            nanos,
        ).cancelled == (cancelled || cancels_job(event, job.job_id)),
{
}

/// A job begins uncancelled, whatever became of the one before.
pub proof fn lemma_jobs_begin_uncancelled(
    cancelled: bool,
    event: SocketEvent,
    nanos: u64,
)
    requires
        worker_next(StateView::Idle, cancelled, WorkerEvent::Socket(event), nanos).state
            is Downloading,
    ensures
        !worker_next(StateView::Idle, cancelled, WorkerEvent::Socket(event), nanos).cancelled,
{
}

// ---------------------------------------------------------------------------
// Success
// ---------------------------------------------------------------------------

/// A built file is looked at, and with that sent and called a success, only
/// where the build gave one.
pub proof fn lemma_success_needs_a_built_file(
    state: StateView,
    cancelled: bool,
    event: WorkerEvent,
    nanos: u64,
)
    requires
        worker_next(state, cancelled, event, nanos).command is Inspect,
    ensures
        state matches StateView::Building { result, .. } && ((event matches WorkerEvent::BuildOver(
            Some(Ok(_)),
        )) || (result matches Some(Some(Ok(_))))),
{
}

/// A job is called a success only once its built file was removed from this
/// machine.
pub proof fn lemma_success_comes_last(
    state: StateView,
    cancelled: bool,
    event: WorkerEvent,
    nanos: u64,
    k: int,
)
    requires
        0 <= k < worker_next(state, cancelled, event, nanos).sent.len(),
        worker_next(state, cancelled, event, nanos).sent[k] matches OutgoingView::Complete {
            success: true,
            ..
        },
    ensures
        state is Removing,
        event is Removed,
{
}

// ---------------------------------------------------------------------------
// Progress
// ---------------------------------------------------------------------------

/// The messages of builds that a list of messages passes on, with their jobs, in
/// order.
pub open spec fn passed_on_in(sent: Seq<OutgoingView>) -> Seq<(Seq<char>, ServerMessage)>
    decreases sent.len(),
{
    if sent.len() == 0 {
        Seq::empty()
    } else {
        let rest = passed_on_in(sent.drop_last());
        match sent.last() {
            OutgoingView::Progress { job_id, message } => rest.push((job_id, message)),
            _ => rest,
        }
    }
}

/// The messages of builds that were passed on in the course of a series of
/// happenings.
pub open spec fn passed_on(happened: Seq<Happening>) -> Seq<(Seq<char>, ServerMessage)>
    decreases happened.len(),
{
    if happened.len() == 0 {
        Seq::empty()
    } else {
        let (state, cancelled) = after(happened.drop_last());
        passed_on(happened.drop_last()) + passed_on_in(
            worker_next(state, cancelled, happened.last().event, happened.last().nanos).sent,
        )
    }
}

/// The job that is being built, if its build may still send messages: from the
/// moment that its archive was fetched until the build says that no more will
/// come, or is over.
pub open spec fn audible(happened: Seq<Happening>) -> Option<Seq<char>>
    decreases happened.len(),
{
    if happened.len() == 0 {
        None
    } else {
        let rest = happened.drop_last();
        let now = after(happened).0;
        match happened.last().event {
            WorkerEvent::Downloaded(Ok(_)) => match (after(rest).0, now) {
                (StateView::Downloading { .. }, StateView::Building { job, .. }) => Some(
                    job.job_id,
                ),
                _ => audible(rest),
            },
            WorkerEvent::Progress(None) => None,
            _ => if now is Building {
                audible(rest)
            } else {
                None
            },
        }
    }
}

/// The messages that builds gave, with their jobs, in the course of a series of
/// happenings.
pub open spec fn given_by_builds(happened: Seq<Happening>) -> Seq<(Seq<char>, ServerMessage)>
    decreases happened.len(),
{
    if happened.len() == 0 {
        Seq::empty()
    } else {
        let rest = given_by_builds(happened.drop_last());
        match (audible(happened.drop_last()), happened.last().event) {
            (Some(job_id), WorkerEvent::Progress(Some(message))) => rest.push((job_id, message)),
            _ => rest,
        }
    }
}

/// A build can be heard where the worker is building and was not told that no
/// more will come.
proof fn lemma_audible(happened: Seq<Happening>)
    ensures
        audible(happened) == (match after(happened).0 {
            StateView::Building { job, silent: false, .. } => Some(job.job_id),
            _ => None,
        }),
    decreases happened.len(),
{
    if happened.len() > 0 {
        lemma_audible(happened.drop_last());
    }
}

proof fn lemma_passed_on_short(sent: Seq<OutgoingView>)
    requires
        sent.len() <= 2,
        sent.len() == 2 ==> !(sent[0] is Progress) && !(sent[1] is Progress),
    ensures
        passed_on_in(sent) == (if sent.len() == 1 {
            match sent[0] {
                OutgoingView::Progress { job_id, message } => seq![(job_id, message)],
                _ => Seq::empty(),
            }
        } else {
            Seq::empty()
        }),
{
    reveal_with_fuel(passed_on_in, 3);
    if sent.len() >= 1 {
        assert(sent.drop_last().len() == sent.len() - 1);
    }
    if sent.len() == 2 {
        assert(sent.drop_last().last() == sent[0]);
        assert(passed_on_in(sent) =~= Seq::<(Seq<char>, ServerMessage)>::empty());
    }
    if sent.len() == 1 {
        assert(passed_on_in(sent.drop_last()) =~= Seq::<(Seq<char>, ServerMessage)>::empty());
        assert(passed_on_in(sent) =~= (match sent[0] {
            OutgoingView::Progress { job_id, message } => seq![(job_id, message)],
            _ => Seq::empty(),
        }));
    }
}

/// What a build says reaches the hub: the messages that are passed on are, in
/// order and unchanged, exactly those that the builds gave, each for its job.
pub proof fn lemma_progress_is_passed_on(happened: Seq<Happening>)
    ensures
        passed_on(happened) == given_by_builds(happened),
    decreases happened.len(),
{
    if happened.len() > 0 {
        let rest = happened.drop_last();
        let (state, cancelled) = after(rest);
        let last = happened.last();
        lemma_progress_is_passed_on(rest);
        lemma_audible(rest);
        let sent = worker_next(state, cancelled, last.event, last.nanos).sent;
        lemma_passed_on_short(sent);
        assert(passed_on(happened) =~= given_by_builds(happened));
    }
}

/// A message of a build is passed on at once: the step that takes it sends it
/// and nothing else, and the build goes on.
pub proof fn lemma_progress_is_passed_on_at_once(
    happened: Seq<Happening>,
    message: ServerMessage,
    nanos: u64,
)
    requires
        audible(happened) is Some,
    ensures
        ({
            let (state, cancelled) = after(happened);
            let next = worker_next(state, cancelled, WorkerEvent::Progress(Some(message)), nanos);
            &&& next.sent == seq![
                OutgoingView::Progress { job_id: audible(happened)->Some_0, message },
            ]
            &&& next.state == state
            &&& next.cancelled == cancelled
        }),
{
    lemma_audible(happened);
}

// ---------------------------------------------------------------------------
// A job from beginning to end
// ---------------------------------------------------------------------------

/// The text of an optional field.
pub open spec fn field(o: Option<String>) -> Option<Seq<char>> {
    match o {
        Some(s) => Some(s@),
        None => None,
    }
}

/// A job is built as it was assigned: the archive is fetched from where the hub
/// says it is, and the build is given the manifest, the credentials and the
/// number of the job, and the archive where it was stored.
pub proof fn lemma_jobs_are_built_as_assigned(
    cancelled: bool,
    job_id: String,
    manifest: BuildManifest,
    credentials: BuildCredentials,
    tarball_url: String,
    artifact_upload_url: Option<String>,
    auth_token: Option<String>,
    stored: String,
    first: u64,
    second: u64,
)
    ensures
        ({
            let assigned = worker_next(
                StateView::Idle,
                cancelled,
                WorkerEvent::Socket(
                    SocketEvent::Message(
                        HubMessage::JobAssign {
                            job_id,
                            manifest: Ok(manifest),
                            credentials: Ok(credentials),
                            tarball_url,
                            artifact_upload_url,
                            auth_token,
                        },
                    ),
                ),
                first,
            );
            let fetched = worker_next(
                assigned.state,
                assigned.cancelled,
                WorkerEvent::Downloaded(Ok(stored)),
                second,
            );
            &&& assigned.sent.len() == 0
            &&& assigned.command == CommandView::Download {
                url: tarball_url@,
                job_id: job_id@,
                auth_token: field(auth_token),
            }
            &&& fetched.sent.len() == 0
            &&& fetched.command == CommandView::StartBuild {
                manifest,
                credentials,
                tarball_path: stored@,
                job_id: job_id@,
            }
            &&& !fetched.cancelled
            &&& fetched.state == StateView::Building {
                job: JobView {
                    job_id: job_id@,
                    artifact_upload_url: field(artifact_upload_url),
                    auth_token: field(auth_token),
                },
                result: None,
                silent: false,
            }
        }),
{
}

/// Whichever comes first, that a build is over or that it will send no more: once
/// both are there, what it came to is dealt with, and how long it took is what
/// the clock says then.
pub proof fn lemma_builds_end_once_both_are_there(
    job: JobView,
    cancelled: bool,
    result: Option<Result<String, String>>,
    first: u64,
    second: u64,
)
    ensures
        ({
            let building = StateView::Building { job, result: None, silent: false };
            let over = worker_next(building, cancelled, WorkerEvent::BuildOver(result), first);
            let silent = worker_next(building, cancelled, WorkerEvent::Progress(None), first);
            let a = worker_next(over.state, over.cancelled, WorkerEvent::Progress(None), second);
            let b = worker_next(silent.state, silent.cancelled, WorkerEvent::BuildOver(result), second);
            &&& over.sent.len() == 0 && over.command == CommandView::Wait
            &&& silent.sent.len() == 0 && silent.command == CommandView::Wait
            &&& a == b
            &&& a.cancelled == cancelled
            &&& match result {
                Some(Ok(path)) => a.command == CommandView::Inspect(path@) && a.sent.len() == 0
                    && a.state == StateView::Inspecting { job, path: path@, nanos: second },
                Some(Err(e)) => a.state == StateView::Idle && a.sent.len() == 2 && (
                a.sent[0] matches OutgoingView::JobError { job_id, message, .. } && job_id
                    == job.job_id && message == e@) && (a.sent[1] matches OutgoingView::Complete {
                    job_id,
                    success,
                    duration_nanos,
                    artifact,
                } && job_id == job.job_id && !success && duration_nanos == second && artifact
                    is None),
                None => a.state == StateView::Idle && a.sent.len() == 1 && (
                a.sent[0] matches OutgoingView::Complete { job_id, success, duration_nanos, artifact }
                    && job_id == job.job_id && !success && duration_nanos == second && artifact
                    is None),
            }
        }),
{
}

/// A built file is delivered under its own name, with its own size and digest,
/// and removed from this machine afterwards. With a place to send it to, that
/// file is sent there with the job's token; without one, the hub is told where
/// the file is. Then, and not before, the job is called a success, with the same
/// file and with the time that the build took.
pub proof fn lemma_built_files_are_delivered(
    job: JobView,
    cancelled: bool,
    path: Seq<char>,
    took: u64,
    name: String,
    size: u64,
    sha256: String,
    later: u64,
)
    ensures
        ({
            let looked_at = worker_next(
                StateView::Inspecting { job, path, nanos: took },
                cancelled,
                WorkerEvent::Inspected { name: Some(name), size: Some(size), sha256: Some(sha256) },
                later,
            );
            let handed_over = match job.artifact_upload_url {
                Some(_) => worker_next(
                    looked_at.state,
                    looked_at.cancelled,
                    WorkerEvent::Uploaded(Ok(())),
                    later,
                ),
                None => looked_at,
            };
            let ended = worker_next(
                handed_over.state,
                handed_over.cancelled,
                WorkerEvent::Removed,
                later,
            );
            &&& match job.artifact_upload_url {
                Some(url) => {
                    &&& looked_at.sent.len() == 0
                    &&& looked_at.command == CommandView::Upload {
                        url,
                        path,
                        artifact_name: name@,
                        sha256: sha256@,
                        auth_token: job.auth_token,
                    }
                    &&& handed_over.sent.len() == 0
                },
                None => {
                    &&& looked_at.sent.len() == 1
                    &&& looked_at.sent[0] matches OutgoingView::ArtifactReady {
                        job_id,
                        target,
                        path: told,
                        artifact,
                    } && job_id == job.job_id && target == "windows"@ && told == path
                        && artifact.name == name@ && artifact.size == size && artifact.sha256
                        == sha256@
                },
            }
            &&& handed_over.command == CommandView::Remove(path)
            &&& ended.state == StateView::Idle
            &&& ended.sent.len() == 1
            &&& ended.sent[0] matches OutgoingView::Complete {
                job_id,
                success,
                duration_nanos,
                artifact: Some(artifact),
            } && job_id == job.job_id && success && duration_nanos == took && artifact.name == name@
                && artifact.size == size && artifact.sha256 == sha256@
        }),
{
}

/// A file that could not be sent is reported for its job, and removed all the
/// same.
pub proof fn lemma_failed_uploads_are_reported(
    state: StateView,
    cancelled: bool,
    error: String,
    nanos: u64,
)
    requires
        state is Uploading,
    ensures
        ({
            let next = worker_next(state, cancelled, WorkerEvent::Uploaded(Err(error)), nanos);
            &&& next.sent.len() == 1
            &&& next.sent[0] matches OutgoingView::JobError { job_id, message, .. } && seq![job_id]
                == in_hand(state) && message == "Artifact upload failed: "@ + error@
            &&& next.command == CommandView::Remove(state->Uploading_path)
            &&& in_hand(next.state) == in_hand(state)
        }),
{
}

/// A job that cannot be begun is refused with the reason, and called a failure.
pub proof fn lemma_refusals_say_why(
    cancelled: bool,
    job: JobView,
    manifest: BuildManifest,
    credentials: BuildCredentials,
    error: String,
    nanos: u64,
)
    ensures
        ({
            let next = worker_next(
                StateView::Downloading { job, manifest, credentials },
                cancelled,
                WorkerEvent::Downloaded(Err(error)),
                nanos,
            );
            &&& next.state == StateView::Idle
            &&& next.sent.len() == 2
            &&& next.sent[0] matches OutgoingView::Error { message, .. } && message
                == "Failed to download tarball: "@ + error@
            &&& next.sent[1] matches OutgoingView::Complete { job_id, success, artifact, .. }
                && job_id == job.job_id && !success && artifact is None
        }),
{
}

/// A ping is answered with what it holds, and changes nothing.
pub proof fn lemma_pings_are_echoed(state: StateView, cancelled: bool, data: Vec<u8>, nanos: u64)
    requires
        state is Idle || state is Building,
    ensures
        ({
            let next = worker_next(
                state,
                cancelled,
                WorkerEvent::Socket(SocketEvent::Ping(data)),
                nanos,
            );
            next.sent == seq![OutgoingView::Pong(data@)] && next.state == state && next.cancelled
                == cancelled && next.command == CommandView::Wait
        }),
{
}

/// The hub is told what an update came to: whether it succeeded, the versions
/// before and after it, and the error.
pub proof fn lemma_updates_are_reported(
    cancelled: bool,
    old_version: Option<String>,
    outcome: UpdateOutcome,
    nanos: u64,
)
    ensures
        ({
            let next = worker_next(
                StateView::Updating,
                cancelled,
                WorkerEvent::Updated { old_version, outcome },
                nanos,
            );
            &&& next.state == StateView::Idle
            &&& next.sent.len() == 1
            &&& next.sent[0] matches OutgoingView::UpdateResult {
                success,
                old_version: before,
                new_version,
                error,
            } && success == outcome.success && before == (match old_version {
                Some(v) => v@,
                None => ""@,
            }) && new_version == outcome.new_version@ && error == field(outcome.error)
        }),
{
}

} // verus!
