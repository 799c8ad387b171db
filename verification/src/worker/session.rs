//! A connection to the hub: jobs come one after the other, and each is answered.
use crate::build::pipeline::BuildRequest;
use crate::queue::job::{BuildCredentials, BuildManifest};
use crate::text::{cat2, copy_opt, opt_text, or_text, same_text, text_or, text_verdict, verdict};
use crate::worker::messages::{
    outgoing, Artifact, ArtifactView, HubMessage, Outgoing, OutgoingView,
    WorkerMessage,
};
use crate::worker::transfer::TARGET;
use crate::worker::update::UpdateOutcome;
use crate::ws::messages::{ErrorCode, ServerMessage};
use vstd::prelude::*;
use vstd::string::*;

verus! {

/// How long the worker waits before it connects again, in seconds.
pub const RECONNECT_SECS: u64 = 5;

/// A job that was taken.
pub struct Job {
    pub job_id: String,
    pub artifact_upload_url: Option<String>,
    pub auth_token: Option<String>,
}

/// A job that was taken.
pub struct JobView {
    pub job_id: Seq<char>,
    pub artifact_upload_url: Option<Seq<char>>,
    pub auth_token: Option<Seq<char>>,
}

impl View for Job {
    type V = JobView;

    open spec fn view(&self) -> JobView {
        JobView {
            job_id: self.job_id@,
            artifact_upload_url: opt_text(self.artifact_upload_url),
            auth_token: opt_text(self.auth_token),
        }
    }
}

/// What a build came to: nothing where it broke off.
pub open spec fn build_view(r: Option<Result<String, String>>) -> Option<
    Result<Seq<char>, Seq<char>>,
> {
    match r {
        Some(result) => Some(text_verdict(result)),
        None => None,
    }
}

/// Where a connection stands. Durations are in nanoseconds.
#[allow(inconsistent_fields)]
pub enum State {
    /// No job is being done.
    Idle,
    /// The archive of a job is being fetched.
    Downloading { job: Job, manifest: BuildManifest, credentials: BuildCredentials },
    /// A job is being built. The build is over once there is a result; it is
    /// silent once it will send no more messages.
    Building { job: Job, result: Option<Option<Result<String, String>>>, silent: bool },
    /// The built file is being looked at.
    Inspecting { job: Job, path: String, nanos: u64 },
    /// The built file is being sent.
    Uploading { job: Job, path: String, artifact: Artifact, nanos: u64 },
    /// The built file is being removed.
    Removing { job: Job, artifact: Artifact, nanos: u64 },
    /// The compiler is being updated.
    Updating,
    /// The connection is over.
    Closed(Result<(), String>),
}

/// Where a connection stands.
#[allow(inconsistent_fields)]
pub enum StateView {
    Idle,
    Downloading { job: JobView, manifest: BuildManifest, credentials: BuildCredentials },
    Building {
        job: JobView,
        result: Option<Option<Result<Seq<char>, Seq<char>>>>,
        silent: bool,
    },
    Inspecting { job: JobView, path: Seq<char>, nanos: u64 },
    Uploading { job: JobView, path: Seq<char>, artifact: ArtifactView, nanos: u64 },
    Removing { job: JobView, artifact: ArtifactView, nanos: u64 },
    Updating,
    Closed(Result<(), Seq<char>>),
}

impl View for State {
    type V = StateView;

    open spec fn view(&self) -> StateView {
        match *self {
            State::Idle => StateView::Idle,
            State::Downloading { job, manifest, credentials } => StateView::Downloading {
                job: job@,
                manifest,
                credentials,
            },
            State::Building { job, result, silent } => StateView::Building {
                job: job@,
                result: match result {
                    Some(r) => Some(build_view(r)),
                    None => None,
                },
                silent,
            },
            State::Inspecting { job, path, nanos } => StateView::Inspecting {
                job: job@,
                path: path@,
                nanos,
            },
            State::Uploading { job, path, artifact, nanos } => StateView::Uploading {
                job: job@,
                path: path@,
                artifact: artifact@,
                nanos,
            },
            State::Removing { job, artifact, nanos } => StateView::Removing {
                job: job@,
                artifact: artifact@,
                nanos,
            },
            State::Updating => StateView::Updating,
            State::Closed(r) => StateView::Closed(verdict(r)),
        }
    }
}

/// What comes from the connection.
pub enum SocketEvent {
    /// A message of the hub.
    Message(HubMessage),
    /// A text that is no message of the hub.
    Unreadable,
    Ping(Vec<u8>),
    Close,
    /// Anything else.
    Other,
    /// The connection failed.
    Failed(String),
    /// The connection ended.
    Ended,
}

/// What happens to a worker.
#[allow(inconsistent_fields)]
pub enum WorkerEvent {
    /// Something came from the connection.
    Socket(SocketEvent),
    /// The archive was fetched, and where it was stored.
    Downloaded(Result<String, String>),
    /// The build sent a message, or will send no more.
    Progress(Option<ServerMessage>),
    /// The build is over.
    BuildOver(Option<Result<String, String>>),
    /// What the built file is called, and its size and digest, as far as they
    /// could be found out.
    Inspected { name: Option<String>, size: Option<u64>, sha256: Option<String> },
    /// The built file was sent.
    Uploaded(Result<(), String>),
    /// The built file was removed.
    Removed,
    /// The compiler was updated, and what its version was.
    Updated { old_version: Option<String>, outcome: UpdateOutcome },
}

/// What is to be done next.
#[allow(inconsistent_fields)]
pub enum WorkerCommand {
    /// Wait for what happens next.
    Wait,
    /// Fetch an archive.
    Download { url: String, job_id: String, auth_token: Option<String> },
    /// Begin a build.
    StartBuild(BuildRequest),
    /// Look at the built file.
    Inspect(String),
    /// Send the built file.
    Upload {
        url: String,
        path: String,
        artifact_name: String,
        sha256: String,
        auth_token: Option<String>,
    },
    /// Remove the built file.
    Remove(String),
    /// Update the compiler.
    Update,
    /// End the connection.
    Close(Result<(), String>),
}

/// What is to be done next.
#[allow(inconsistent_fields)]
pub enum CommandView {
    Wait,
    Download { url: Seq<char>, job_id: Seq<char>, auth_token: Option<Seq<char>> },
    StartBuild {
        manifest: BuildManifest,
        credentials: BuildCredentials,
        tarball_path: Seq<char>,
        job_id: Seq<char>,
    },
    Inspect(Seq<char>),
    Upload {
        url: Seq<char>,
        path: Seq<char>,
        artifact_name: Seq<char>,
        sha256: Seq<char>,
        auth_token: Option<Seq<char>>,
    },
    Remove(Seq<char>),
    Update,
    Close(Result<(), Seq<char>>),
}

impl View for WorkerCommand {
    type V = CommandView;

    open spec fn view(&self) -> CommandView {
        match *self {
            WorkerCommand::Wait => CommandView::Wait,
            WorkerCommand::Download { url, job_id, auth_token } => CommandView::Download {
                url: url@,
                job_id: job_id@,
                auth_token: opt_text(auth_token),
            },
            WorkerCommand::StartBuild(r) => CommandView::StartBuild {
                manifest: r.manifest,
                credentials: r.credentials,
                tarball_path: r.tarball_path@,
                job_id: r.job_id@,
            },
            WorkerCommand::Inspect(p) => CommandView::Inspect(p@),
            WorkerCommand::Upload {
                url,
                path,
                artifact_name,
                sha256,
                auth_token,
            } => CommandView::Upload {
                url: url@,
                path: path@,
                artifact_name: artifact_name@,
                sha256: sha256@,
                auth_token: opt_text(auth_token),
            },
            WorkerCommand::Remove(p) => CommandView::Remove(p@),
            WorkerCommand::Update => CommandView::Update,
            WorkerCommand::Close(r) => CommandView::Close(verdict(r)),
        }
    }
}

// ---------------------------------------------------------------------------
// What follows an event
// ---------------------------------------------------------------------------

/// What follows an event: where the connection stands, whether the build in
/// hand is cancelled, what is sent, and what is to be done.
pub struct Outcome {
    pub state: StateView,
    pub cancelled: bool,
    pub sent: Seq<OutgoingView>,
    pub command: CommandView,
}

/// Nothing changes and nothing is sent.
pub open spec fn nothing(state: StateView, cancelled: bool) -> Outcome {
    Outcome { state, cancelled, sent: Seq::empty(), command: CommandView::Wait }
}

/// A job is over without an artifact.
pub open spec fn unfinished(job_id: Seq<char>, nanos: u64) -> OutgoingView {
    OutgoingView::Complete { job_id, success: false, duration_nanos: nanos, artifact: None }
}

/// A job cannot be begun.
pub open spec fn refused(job_id: Seq<char>, message: Seq<char>, cancelled: bool) -> Outcome {
    Outcome {
        state: StateView::Idle,
        cancelled,
        sent: seq![
            OutgoingView::Error { code: ErrorCode::InternalError, message },
            unfinished(job_id, 0),
        ],
        command: CommandView::Wait,
    }
}

/// A build is over.
pub open spec fn concluded(
    job: JobView,
    result: Option<Result<Seq<char>, Seq<char>>>,
    nanos: u64,
    cancelled: bool,
) -> Outcome {
    match result {
        Some(Ok(path)) => Outcome {
            state: StateView::Inspecting { job, path, nanos },
            cancelled,
            sent: Seq::empty(),
            command: CommandView::Inspect(path),
        },
        Some(Err(e)) => Outcome {
            state: StateView::Idle,
            cancelled,
            sent: seq![
                OutgoingView::JobError {
                    job_id: job.job_id,
                    code: ErrorCode::InternalError,
                    message: e,
                    has_stage: true,
                },
                unfinished(job.job_id, nanos),
            ],
            command: CommandView::Wait,
        },
        None => Outcome {
            state: StateView::Idle,
            cancelled,
            sent: seq![unfinished(job.job_id, nanos)],
            command: CommandView::Wait,
        },
    }
}

/// The connection ends.
pub open spec fn closed(result: Result<(), Seq<char>>, cancelled: bool) -> Outcome {
    Outcome {
        state: StateView::Closed(result),
        cancelled,
        sent: Seq::empty(),
        command: CommandView::Close(result),
    }
}

/// A ping is answered.
pub open spec fn answered(state: StateView, data: Seq<u8>, cancelled: bool) -> Outcome {
    Outcome {
        state,
        cancelled,
        sent: seq![OutgoingView::Pong(data)],
        command: CommandView::Wait,
    }
}

/// What follows what comes from the connection while no job is being done.
pub open spec fn idle_next(event: SocketEvent, cancelled: bool) -> Outcome {
    match event {
        SocketEvent::Message(message) => match message {
            HubMessage::JobAssign {
                job_id,
                manifest,
                credentials,
                tarball_url,
                artifact_upload_url,
                auth_token,
            } => match (manifest, credentials) {
                (Err(e), _) => refused(job_id@, "Invalid manifest: "@ + e@, false),
                (_, Err(e)) => refused(job_id@, "Invalid credentials: "@ + e@, false),
                (Ok(m), Ok(c)) => Outcome {
                    state: StateView::Downloading {
                        job: JobView {
                            job_id: job_id@,
                            artifact_upload_url: opt_text(artifact_upload_url),
                            auth_token: opt_text(auth_token),
                        },
                        manifest: m,
                        credentials: c,
                    },
                    cancelled: false,
                    sent: Seq::empty(),
                    command: CommandView::Download {
                        url: tarball_url@,
                        job_id: job_id@,
                        auth_token: opt_text(auth_token),
                    },
                },
            },
            HubMessage::Cancel { job_id: _ } => nothing(StateView::Idle, cancelled),
            HubMessage::UpdatePerry {  } => Outcome {
                state: StateView::Updating,
                cancelled,
                sent: Seq::empty(),
                command: CommandView::Update,
            },
        },
        SocketEvent::Unreadable => nothing(StateView::Idle, cancelled),
        SocketEvent::Ping(data) => answered(StateView::Idle, data@, cancelled),
        SocketEvent::Close => closed(Ok(()), cancelled),
        SocketEvent::Other => nothing(StateView::Idle, cancelled),
        SocketEvent::Failed(e) => closed(Err("WebSocket error: "@ + e@), cancelled),
        SocketEvent::Ended => closed(Ok(()), cancelled),
    }
}

/// Whether a message cancels a job.
pub open spec fn cancels(event: SocketEvent, id: Seq<char>) -> bool {
    event matches SocketEvent::Message(HubMessage::Cancel { job_id }) && job_id@ == id
}

/// What follows what comes from the connection while a job is being built: of
/// the hub's messages only the one that cancels this job counts.
pub open spec fn building_next(state: StateView, id: Seq<char>, event: SocketEvent, cancelled: bool) -> Outcome {
    match event {
        SocketEvent::Ping(data) => answered(state, data@, cancelled),
        SocketEvent::Close => closed(Err("Hub disconnected during build"@), cancelled),
        SocketEvent::Ended => closed(Err("Hub disconnected during build"@), cancelled),
        _ => nothing(state, cancelled || cancels(event, id)),
    }
}

/// What is known of the built file.
pub open spec fn inspected(name: Option<String>, size: Option<u64>, sha256: Option<String>) -> ArtifactView {
    ArtifactView {
        name: or_text(name, "artifact"@),
        size: match size {
            Some(n) => n,
            None => 0,
        },
        sha256: or_text(sha256, ""@),
    }
}

/// What follows an event. An event that does not fit where the connection
/// stands changes nothing. `nanos` is how long the build in hand has taken.
pub open spec fn worker_next(
    state: StateView,
    cancelled: bool,
    event: WorkerEvent,
    nanos: u64,
) -> Outcome {
    match (state, event) {
        (StateView::Idle, WorkerEvent::Socket(e)) => idle_next(e, cancelled),
        (StateView::Downloading { job, manifest, credentials }, WorkerEvent::Downloaded(r)) =>
        match text_verdict(r) {
            Ok(path) => Outcome {
                state: StateView::Building { job, result: None, silent: false },
                cancelled,
                sent: Seq::empty(),
                command: CommandView::StartBuild {
                    manifest,
                    credentials,
                    tarball_path: path,
                    job_id: job.job_id,
                },
            },
            Err(e) => refused(job.job_id, "Failed to download tarball: "@ + e, cancelled),
        },
        (StateView::Building { job, result, silent }, WorkerEvent::Socket(e)) => building_next(
            state,
            job.job_id,
            e,
            cancelled,
        ),
        (StateView::Building { job, result, silent }, WorkerEvent::BuildOver(r)) => if result
            is Some {
            nothing(state, cancelled)
        } else if silent {
            concluded(job, build_view(r), nanos, cancelled)
        } else {
            nothing(StateView::Building { job, result: Some(build_view(r)), silent }, cancelled)
        },
        (StateView::Building { job, result, silent }, WorkerEvent::Progress(p)) => if silent {
            nothing(state, cancelled)
        } else {
            match p {
                Some(message) => Outcome {
                    state,
                    cancelled,
                    sent: seq![OutgoingView::Progress { job_id: job.job_id, message }],
                    command: CommandView::Wait,
                },
                None => match result {
                    Some(r) => concluded(job, r, nanos, cancelled),
                    None => nothing(
                        StateView::Building { job, result, silent: true },
                        cancelled,
                    ),
                },
            }
        },
        (
            StateView::Inspecting { job, path, nanos: n },
            WorkerEvent::Inspected { name, size, sha256 },
        ) => {
            let artifact = inspected(name, size, sha256);
            match job.artifact_upload_url {
                Some(url) => Outcome {
                    state: StateView::Uploading { job, path, artifact, nanos: n },
                    cancelled,
                    sent: Seq::empty(),
                    command: CommandView::Upload {
                        url,
                        path,
                        artifact_name: artifact.name,
                        sha256: artifact.sha256,
                        auth_token: job.auth_token,
                    },
                },
                None => Outcome {
                    state: StateView::Removing { job, artifact, nanos: n },
                    cancelled,
                    sent: seq![
                        OutgoingView::ArtifactReady {
                            job_id: job.job_id,
                            target: TARGET@,
                            path,
                            artifact,
                        },
                    ],
                    command: CommandView::Remove(path),
                },
            }
        },
        (StateView::Uploading { job, path, artifact, nanos: n }, WorkerEvent::Uploaded(r)) => {
            Outcome {
                state: StateView::Removing { job, artifact, nanos: n },
                cancelled,
                sent: match verdict(r) {
                    Ok(_) => Seq::empty(),
                    Err(e) => seq![
                        OutgoingView::JobError {
                            job_id: job.job_id,
                            code: ErrorCode::InternalError,
                            message: "Artifact upload failed: "@ + e,
                            has_stage: false,
                        },
                    ],
                },
                command: CommandView::Remove(path),
            }
        },
        (StateView::Removing { job, artifact, nanos: n }, WorkerEvent::Removed) => Outcome {
            state: StateView::Idle,
            cancelled,
            sent: seq![
                OutgoingView::Complete {
                    job_id: job.job_id,
                    success: true,
                    duration_nanos: n,
                    artifact: Some(artifact),
                },
            ],
            command: CommandView::Wait,
        },
        (StateView::Updating, WorkerEvent::Updated { old_version, outcome }) => Outcome {
            state: StateView::Idle,
            cancelled,
            sent: seq![
                OutgoingView::UpdateResult {
                    success: outcome.success,
                    old_version: or_text(old_version, ""@),
                    new_version: outcome.new_version@,
                    error: opt_text(outcome.error),
                },
            ],
            command: CommandView::Wait,
        },
        _ => nothing(state, cancelled),
    }
}

// ---------------------------------------------------------------------------
// The worker
// ---------------------------------------------------------------------------

/// A worker that is connected to the hub.
pub struct Worker {
    pub state: State,
    /// Whether the build in hand has been cancelled.
    pub cancelled: bool,
}

/// What is sent, and what is to be done.
pub struct Reply {
    pub sent: Vec<Outgoing>,
    pub command: WorkerCommand,
}

impl Reply {
    /// The reply is that of an outcome.
    pub open spec fn is_of(self, outcome: Outcome) -> bool {
        outgoing(self.sent@) == outcome.sent && self.command@ == outcome.command
    }
}

impl Worker {
    /// A worker that has just introduced itself.
    pub fn new() -> (w: Self)
        ensures
            w.state@ == StateView::Idle,
            !w.cancelled,
    {
        Worker { state: State::Idle, cancelled: false }
    }
}

fn send_none(command: WorkerCommand) -> (r: Reply)
    ensures
        outgoing(r.sent@) == Seq::<OutgoingView>::empty(),
        r.command == command,
{
    let sent: Vec<Outgoing> = Vec::new();
    assert(outgoing(sent@) =~= Seq::empty());
    Reply { sent, command }
}

fn send_one(message: Outgoing, command: WorkerCommand) -> (r: Reply)
    ensures
        outgoing(r.sent@) == seq![message@],
        r.command == command,
{
    let mut sent: Vec<Outgoing> = Vec::new();
    sent.push(message);
    assert(outgoing(sent@) =~= seq![message@]);
    Reply { sent, command }
}

fn send_two(first: Outgoing, second: Outgoing) -> (r: Reply)
    ensures
        outgoing(r.sent@) == seq![first@, second@],
        r.command@ == CommandView::Wait,
{
    let mut sent: Vec<Outgoing> = Vec::new();
    sent.push(first);
    sent.push(second);
    assert(outgoing(sent@) =~= seq![first@, second@]);
    Reply { sent, command: WorkerCommand::Wait }
}

fn unfinished_message(job_id: &str, nanos: u64) -> (r: Outgoing)
    ensures
        r@ == unfinished(job_id@, nanos),
{
    Outgoing::Complete {
        job_id: job_id.to_owned(),
        success: false,
        duration_nanos: nanos,
        artifact: None,
    }
}

fn refuse(job_id: &str, what: &str, error: &str, cancelled: bool) -> (r: (State, bool, Reply))
    ensures
        r.0@ == StateView::Idle,
        r.1 == cancelled,
        r.2.is_of(refused(job_id@, what@ + error@, cancelled)),
{
    let message = cat2(what, error);
    let reply = send_two(
        Outgoing::Error { code: ErrorCode::InternalError, message },
        unfinished_message(job_id, 0),
    );
    (State::Idle, cancelled, reply)
}

fn close(result: Result<(), String>, cancelled: bool) -> (r: (State, bool, Reply))
    ensures
        r.0@ == StateView::Closed(verdict(result)),
        r.1 == cancelled,
        r.2.is_of(closed(verdict(result), cancelled)),
{
    match result {
        Ok(_) => (State::Closed(Ok(())), cancelled, send_none(WorkerCommand::Close(Ok(())))),
        Err(e) => {
            let copy = e.clone();
            (State::Closed(Err(copy)), cancelled, send_none(WorkerCommand::Close(Err(e))))
        },
    }
}

fn conclude(
    job: Job,
    result: Option<Result<String, String>>,
    nanos: u64,
    cancelled: bool,
) -> (r: (State, bool, Reply))
    ensures
        r.0@ == concluded(job@, build_view(result), nanos, cancelled).state,
        r.1 == cancelled,
        r.2.is_of(concluded(job@, build_view(result), nanos, cancelled)),
{
    match result {
        Some(Ok(path)) => {
            let reply = send_none(WorkerCommand::Inspect(path.clone()));
            (State::Inspecting { job, path, nanos }, cancelled, reply)
        },
        Some(Err(e)) => {
            let reply = send_two(
                Outgoing::JobError {
                    job_id: job.job_id.clone(),
                    code: ErrorCode::InternalError,
                    message: e,
                    has_stage: true,
                },
                unfinished_message(&job.job_id, nanos),
            );
            (State::Idle, cancelled, reply)
        },
        None => {
            let message = unfinished_message(&job.job_id, nanos);
            (State::Idle, cancelled, send_one(message, WorkerCommand::Wait))
        },
    }
}

fn when_idle(event: SocketEvent, cancelled: bool) -> (r: (State, bool, Reply))
    ensures
        r.0@ == idle_next(event, cancelled).state,
        r.1 == idle_next(event, cancelled).cancelled,
        r.2.is_of(idle_next(event, cancelled)),
{
    match event {
        SocketEvent::Message(message) => match message {
            HubMessage::JobAssign {
                job_id,
                manifest,
                credentials,
                tarball_url,
                artifact_upload_url,
                auth_token,
            } => {
                let manifest = match manifest {
                    Ok(m) => m,
                    Err(e) => return refuse(&job_id, "Invalid manifest: ", &e, false),
                };
                let credentials = match credentials {
                    Ok(c) => c,
                    Err(e) => return refuse(&job_id, "Invalid credentials: ", &e, false),
                };
                let command = WorkerCommand::Download {
                    url: tarball_url,
                    job_id: job_id.clone(),
                    auth_token: copy_opt(&auth_token),
                };
                let job = Job { job_id, artifact_upload_url, auth_token };
                (State::Downloading { job, manifest, credentials }, false, send_none(command))
            },
            HubMessage::Cancel { job_id: _ } => (
                State::Idle,
                cancelled,
                send_none(WorkerCommand::Wait),
            ),
            HubMessage::UpdatePerry {  } => (
                State::Updating,
                cancelled,
                send_none(WorkerCommand::Update),
            ),
        },
        SocketEvent::Ping(data) => (
            State::Idle,
            cancelled,
            send_one(Outgoing::Pong(data), WorkerCommand::Wait),
        ),
        SocketEvent::Close => close(Ok(()), cancelled),
        SocketEvent::Failed(e) => close(Err(cat2("WebSocket error: ", &e)), cancelled),
        SocketEvent::Ended => close(Ok(()), cancelled),
        SocketEvent::Unreadable => (State::Idle, cancelled, send_none(WorkerCommand::Wait)),
        SocketEvent::Other => (State::Idle, cancelled, send_none(WorkerCommand::Wait)),
    }
}

fn when_building(
    job: Job,
    result: Option<Option<Result<String, String>>>,
    silent: bool,
    event: SocketEvent,
    cancelled: bool,
) -> (r: (State, bool, Reply))
    ensures
        ({
            let state = State::Building { job, result, silent }@;
            let next = building_next(state, job@.job_id, event, cancelled);
            r.0@ == next.state && r.1 == next.cancelled && r.2.is_of(next)
        }),
{
    match event {
        SocketEvent::Ping(data) => (
            State::Building { job, result, silent },
            cancelled,
            send_one(Outgoing::Pong(data), WorkerCommand::Wait),
        ),
        SocketEvent::Close => close(Err("Hub disconnected during build".to_owned()), cancelled),
        SocketEvent::Ended => close(Err("Hub disconnected during build".to_owned()), cancelled),
        SocketEvent::Message(HubMessage::Cancel { job_id }) => {
            let cancelled = cancelled || same_text(&job_id, &job.job_id);
            (State::Building { job, result, silent }, cancelled, send_none(WorkerCommand::Wait))
        },
        _ => (
            State::Building { job, result, silent },
            cancelled,
            send_none(WorkerCommand::Wait),
        ),
    }
}

fn when_inspected(
    job: Job,
    path: String,
    nanos: u64,
    name: Option<String>,
    size: Option<u64>,
    sha256: Option<String>,
    cancelled: bool,
) -> (r: (State, bool, Reply))
    ensures
        ({
            let next = worker_next(
                StateView::Inspecting { job: job@, path: path@, nanos },
                cancelled,
                WorkerEvent::Inspected { name, size, sha256 },
                nanos,
            );
            r.0@ == next.state && r.1 == next.cancelled && r.2.is_of(next)
        }),
{
    let size: u64 = match size {
        Some(n) => n,
        None => 0,
    };
    let name = text_or(&name, "artifact").to_owned();
    let sha256 = text_or(&sha256, "").to_owned();
    match &job.artifact_upload_url {
        Some(url) => {
            let command = WorkerCommand::Upload {
                url: url.clone(),
                path: path.clone(),
                artifact_name: name.clone(),
                sha256: sha256.clone(),
                auth_token: copy_opt(&job.auth_token),
            };
            let artifact = Artifact { name, size, sha256 };
            (State::Uploading { job, path, artifact, nanos }, cancelled, send_none(command))
        },
        None => {
            let message = Outgoing::ArtifactReady {
                job_id: job.job_id.clone(),
                target: TARGET.to_owned(),
                path: path.clone(),
                artifact: Artifact { name: name.clone(), size, sha256: sha256.clone() },
            };
            let artifact = Artifact { name, size, sha256 };
            (
                State::Removing { job, artifact, nanos },
                cancelled,
                send_one(message, WorkerCommand::Remove(path)),
            )
        },
    }
}

fn when_uploaded(
    job: Job,
    path: String,
    artifact: Artifact,
    nanos: u64,
    done: Result<(), String>,
    cancelled: bool,
) -> (r: (State, bool, Reply))
    ensures
        ({
            let next = worker_next(
                StateView::Uploading { job: job@, path: path@, artifact: artifact@, nanos },
                cancelled,
                WorkerEvent::Uploaded(done),
                nanos,
            );
            r.0@ == next.state && r.1 == next.cancelled && r.2.is_of(next)
        }),
{
    let reply = match done {
        Ok(_) => send_none(WorkerCommand::Remove(path)),
        Err(e) => send_one(
            Outgoing::JobError {
                job_id: job.job_id.clone(),
                code: ErrorCode::InternalError,
                message: cat2("Artifact upload failed: ", &e),
                has_stage: false,
            },
            WorkerCommand::Remove(path),
        ),
    };
    (State::Removing { job, artifact, nanos }, cancelled, reply)
}

impl Worker {
    /// Takes what happened, and says what is sent to the hub and what is to be
    /// done. `nanos` is how long the build in hand has taken.
    pub fn advance(&mut self, event: WorkerEvent, nanos: u64) -> (reply: Reply)
        ensures
            ({
                let next = worker_next(old(self).state@, old(self).cancelled, event, nanos);
                &&& final(self).state@ == next.state
                &&& final(self).cancelled == next.cancelled
                &&& reply.is_of(next)
            }),
    {
        let mut state = State::Idle;
        std::mem::swap(&mut state, &mut self.state);
        let was = self.cancelled;
        let (next, cancelled, reply) = match (state, event) {
            (State::Idle, WorkerEvent::Socket(e)) => when_idle(e, was),
            (State::Downloading { job, manifest, credentials }, WorkerEvent::Downloaded(r)) => {
                match r {
                    Ok(tarball_path) => {
                        let request = BuildRequest {
                            manifest,
                            credentials,
                            tarball_path,
                            job_id: job.job_id.clone(),
                        };
                        (
                            State::Building { job, result: None, silent: false },
                            was,
                            send_none(WorkerCommand::StartBuild(request)),
                        )
                    },
                    Err(e) => refuse(&job.job_id, "Failed to download tarball: ", &e, was),
                }
            },
            (State::Building { job, result, silent }, WorkerEvent::Socket(e)) => when_building(
                job,
                result,
                silent,
                e,
                was,
            ),
            (State::Building { job, result, silent }, WorkerEvent::BuildOver(r)) => {
                if result.is_some() {
                    (
                        State::Building { job, result, silent },
                        was,
                        send_none(WorkerCommand::Wait),
                    )
                } else if silent {
                    conclude(job, r, nanos, was)
                } else {
                    (
                        State::Building { job, result: Some(r), silent },
                        was,
                        send_none(WorkerCommand::Wait),
                    )
                }
            },
            (State::Building { job, result, silent }, WorkerEvent::Progress(p)) => {
                if silent {
                    (
                        State::Building { job, result, silent },
                        was,
                        send_none(WorkerCommand::Wait),
                    )
                } else {
                    match p {
                        Some(message) => {
                            let forwarded = Outgoing::Progress {
                                job_id: job.job_id.clone(),
                                message,
                            };
                            (
                                State::Building { job, result, silent },
                                was,
                                send_one(forwarded, WorkerCommand::Wait),
                            )
                        },
                        None => match result {
                            Some(r) => conclude(job, r, nanos, was),
                            None => (
                                State::Building { job, result: None, silent: true },
                                was,
                                send_none(WorkerCommand::Wait),
                            ),
                        },
                    }
                }
            },
            (
                State::Inspecting { job, path, nanos: n },
                WorkerEvent::Inspected { name, size, sha256 },
            ) => when_inspected(job, path, n, name, size, sha256, was),
            (State::Uploading { job, path, artifact, nanos: n }, WorkerEvent::Uploaded(r)) => {
                when_uploaded(job, path, artifact, n, r, was)
            },
            (State::Removing { job, artifact, nanos: n }, WorkerEvent::Removed) => {
                let message = Outgoing::Complete {
                    job_id: job.job_id,
                    success: true,
                    duration_nanos: n,
                    artifact: Some(artifact),
                };
                (State::Idle, was, send_one(message, WorkerCommand::Wait))
            },
            (State::Updating, WorkerEvent::Updated { old_version, outcome }) => {
                let message = Outgoing::Worker(
                    WorkerMessage::UpdateResult {
                        success: outcome.success,
                        old_version: text_or(&old_version, "").to_owned(),
                        new_version: outcome.new_version,
                        error: outcome.error,
                    },
                );
                (State::Idle, was, send_one(message, WorkerCommand::Wait))
            },
            (other, _) => (other, was, send_none(WorkerCommand::Wait)),
        };
        self.state = next;
        self.cancelled = cancelled;
        reply
    }
}

} // verus!
