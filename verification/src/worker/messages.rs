//! What the hub and the worker say to each other.
use crate::config::WorkerConfig;
use crate::queue::job::{BuildCredentials, BuildManifest};
use crate::text::{copy_opt, opt_text, or_text, push_text, texts};
use crate::ws::messages::{ErrorCode, ServerMessage};
use vstd::prelude::*;
use vstd::string::*;

verus! {

/// A message from the hub. The manifest and the credentials of a job are there
/// as far as they could be understood.
pub enum HubMessage {
    JobAssign {
        job_id: String,
        manifest: Result<BuildManifest, String>,
        credentials: Result<BuildCredentials, String>,
        tarball_url: String,
        artifact_upload_url: Option<String>,
        auth_token: Option<String>,
    },
    Cancel { job_id: String },
    UpdatePerry {  },
}

/// A message about the worker itself.
pub enum WorkerMessage {
    WorkerHello {
        capabilities: Vec<String>,
        name: String,
        secret: Option<String>,
        perry_version: Option<String>,
    },
    UpdateResult {
        success: bool,
        old_version: String,
        new_version: String,
        error: Option<String>,
    },
}

/// A built file as it is announced.
pub struct Artifact {
    pub name: String,
    pub size: u64,
    pub sha256: String,
}

/// A built file as it is announced.
pub struct ArtifactView {
    pub name: Seq<char>,
    pub size: u64,
    pub sha256: Seq<char>,
}

impl View for Artifact {
    type V = ArtifactView;

    open spec fn view(&self) -> ArtifactView {
        ArtifactView { name: self.name@, size: self.size, sha256: self.sha256@ }
    }
}

/// What the worker sends to the hub. Durations are in nanoseconds.
#[allow(inconsistent_fields)]
pub enum Outgoing {
    /// About the worker itself.
    Worker(WorkerMessage),
    /// The answer to a ping.
    Pong(Vec<u8>),
    /// An error that names no job.
    Error { code: ErrorCode, message: String },
    /// An error of a job; where a build failed it has a stage, which is null.
    JobError { job_id: String, code: ErrorCode, message: String, has_stage: bool },
    /// A message of a build, for its job.
    Progress { job_id: String, message: ServerMessage },
    /// A built file on this machine.
    ArtifactReady { job_id: String, target: String, path: String, artifact: Artifact },
    /// A job is over.
    Complete { job_id: String, success: bool, duration_nanos: u64, artifact: Option<Artifact> },
}

/// What the worker sends to the hub.
#[allow(inconsistent_fields)]
pub enum OutgoingView {
    Hello {
        capabilities: Seq<Seq<char>>,
        name: Seq<char>,
        secret: Option<Seq<char>>,
        perry_version: Option<Seq<char>>,
    },
    UpdateResult {
        success: bool,
        old_version: Seq<char>,
        new_version: Seq<char>,
        error: Option<Seq<char>>,
    },
    Pong(Seq<u8>),
    Error { code: ErrorCode, message: Seq<char> },
    JobError { job_id: Seq<char>, code: ErrorCode, message: Seq<char>, has_stage: bool },
    Progress { job_id: Seq<char>, message: ServerMessage },
    ArtifactReady {
        job_id: Seq<char>,
        target: Seq<char>,
        path: Seq<char>,
        artifact: ArtifactView,
    },
    Complete {
        job_id: Seq<char>,
        success: bool,
        duration_nanos: u64,
        artifact: Option<ArtifactView>,
    },
}

/// What an optional artifact is announced as.
pub open spec fn opt_artifact(a: Option<Artifact>) -> Option<ArtifactView> {
    match a {
        Some(x) => Some(x@),
        None => None,
    }
}

impl View for Outgoing {
    type V = OutgoingView;

    open spec fn view(&self) -> OutgoingView {
        match *self {
            Outgoing::Worker(
                WorkerMessage::WorkerHello { capabilities, name, secret, perry_version },
            ) => OutgoingView::Hello {
                capabilities: texts(capabilities@),
                name: name@,
                secret: opt_text(secret),
                perry_version: opt_text(perry_version),
            },
            Outgoing::Worker(
                WorkerMessage::UpdateResult { success, old_version, new_version, error },
            ) => OutgoingView::UpdateResult {
                success,
                old_version: old_version@,
                new_version: new_version@,
                error: opt_text(error),
            },
            Outgoing::Pong(data) => OutgoingView::Pong(data@),
            Outgoing::Error { code, message } => OutgoingView::Error { code, message: message@ },
            Outgoing::JobError { job_id, code, message, has_stage } => OutgoingView::JobError {
                job_id: job_id@,
                code,
                message: message@,
                has_stage,
            },
            Outgoing::Progress { job_id, message } => OutgoingView::Progress {
                job_id: job_id@,
                message,
            },
            Outgoing::ArtifactReady {
                job_id,
                target,
                path,
                artifact,
            } => OutgoingView::ArtifactReady {
                job_id: job_id@,
                target: target@,
                path: path@,
                artifact: artifact@,
            },
            Outgoing::Complete {
                job_id,
                success,
                duration_nanos,
                artifact,
            } => OutgoingView::Complete {
                job_id: job_id@,
                success,
                duration_nanos,
                artifact: opt_artifact(artifact),
            },
        }
    }
}

/// What the worker sends, in order.
pub open spec fn outgoing(list: Seq<Outgoing>) -> Seq<OutgoingView> {
    list.map_values(|m: Outgoing| m@)
}

/// The worker's name: the configured one, or the machine's.
pub open spec fn display_name(config: WorkerConfig, hostname: Option<String>) -> Seq<char> {
    or_text(config.worker_name, or_text(hostname, "worker"@))
}

/// The message that the worker introduces itself with.
pub fn worker_hello(
    config: &WorkerConfig,
    hostname: &Option<String>,
    perry_version: Option<String>,
) -> (r: Outgoing)
    ensures
        r@ == (OutgoingView::Hello {
            capabilities: seq!["windows"@],
            name: display_name(*config, *hostname),
            secret: opt_text(config.hub_secret),
            perry_version: opt_text(perry_version),
        }),
{
    let mut capabilities: Vec<String> = Vec::new();
    push_text(&mut capabilities, "windows");
    assert(texts(capabilities@) =~= seq!["windows"@]);
    let name = match &config.worker_name {
        Some(name) => name.clone(),
        None => match hostname {
            Some(name) => name.clone(),
            None => "worker".to_owned(),
        },
    };
    Outgoing::Worker(
        WorkerMessage::WorkerHello {
            capabilities,
            name,
            secret: copy_opt(&config.hub_secret),
            perry_version,
        },
    )
}

} // verus!
