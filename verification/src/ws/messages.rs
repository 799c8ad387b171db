//! The messages about a build that go to the hub, and those that come from a
//! client.
use vstd::prelude::*;

verus! {

/// A stage of a build.
#[derive(Debug, Clone, Copy, PartialEq, Eq, Structural)]
pub enum StageName {
    Queued,
    Extracting,
    Compiling,
    GeneratingAssets,
    Bundling,
    Signing,
    Notarizing,
    Packaging,
    Uploading,
    Publishing,
    Complete,
}

impl StageName {
    /// The name of a stage in messages.
    pub open spec fn spec_text(self) -> Seq<char> {
        match self {
            StageName::Queued => "queued"@,
            StageName::Extracting => "extracting"@,
            StageName::Compiling => "compiling"@,
            StageName::GeneratingAssets => "generating_assets"@,
            StageName::Bundling => "bundling"@,
            StageName::Signing => "signing"@,
            StageName::Notarizing => "notarizing"@,
            StageName::Packaging => "packaging"@,
            StageName::Uploading => "uploading"@,
            StageName::Publishing => "publishing"@,
            StageName::Complete => "complete"@,
        }
    }

    /// The name of a stage in messages.
    pub fn text(&self) -> (s: String)
        ensures
            s@ == self.spec_text(),
    {
        let s: &str = match self {
            StageName::Queued => "queued",
            StageName::Extracting => "extracting",
            StageName::Compiling => "compiling",
            StageName::GeneratingAssets => "generating_assets",
            StageName::Bundling => "bundling",
            StageName::Signing => "signing",
            StageName::Notarizing => "notarizing",
            StageName::Packaging => "packaging",
            StageName::Uploading => "uploading",
            StageName::Publishing => "publishing",
            StageName::Complete => "complete",
        };
        s.to_owned()
    }
}

/// Different stages have different names.
pub proof fn lemma_stage_names_differ(a: StageName, b: StageName)
    requires
        a != b,
    ensures
        a.spec_text() != b.spec_text(),
{
    reveal_strlit("queued");
    reveal_strlit("extracting");
    reveal_strlit("compiling");
    reveal_strlit("generating_assets");
    reveal_strlit("bundling");
    reveal_strlit("signing");
    reveal_strlit("notarizing");
    reveal_strlit("packaging");
    reveal_strlit("uploading");
    reveal_strlit("publishing");
    reveal_strlit("complete");
    let s = a.spec_text();
    let t = b.spec_text();
    if s == t {
        assert(s.len() == t.len() && s[0] == t[0] && s[1] == t[1] && s[2] == t[2]);
    }
}

/// The kind of an error.
#[derive(Debug, Clone, Copy, PartialEq, Eq, Structural)]
pub enum ErrorCode {
    LicenseInvalid,
    LicenseTier,
    UploadTooLarge,
    RateLimited,
    QueueFull,
    CompileFailed,
    SigningFailed,
    NotarizeFailed,
    PackageFailed,
    InternalError,
}

impl ErrorCode {
    /// The name of an error kind in messages.
    pub open spec fn spec_text(self) -> Seq<char> {
        match self {
            ErrorCode::LicenseInvalid => "LICENSE_INVALID"@,
            ErrorCode::LicenseTier => "LICENSE_TIER"@,
            ErrorCode::UploadTooLarge => "UPLOAD_TOO_LARGE"@,
            ErrorCode::RateLimited => "RATE_LIMITED"@,
            ErrorCode::QueueFull => "QUEUE_FULL"@,
            ErrorCode::CompileFailed => "COMPILE_FAILED"@,
            ErrorCode::SigningFailed => "SIGNING_FAILED"@,
            ErrorCode::NotarizeFailed => "NOTARIZE_FAILED"@,
            ErrorCode::PackageFailed => "PACKAGE_FAILED"@,
            ErrorCode::InternalError => "INTERNAL_ERROR"@,
        }
    }

    /// The name of an error kind in messages.
    pub fn text(&self) -> (s: String)
        ensures
            s@ == self.spec_text(),
    {
        let s: &str = match self {
            ErrorCode::LicenseInvalid => "LICENSE_INVALID",
            ErrorCode::LicenseTier => "LICENSE_TIER",
            ErrorCode::UploadTooLarge => "UPLOAD_TOO_LARGE",
            ErrorCode::RateLimited => "RATE_LIMITED",
            ErrorCode::QueueFull => "QUEUE_FULL",
            ErrorCode::CompileFailed => "COMPILE_FAILED",
            ErrorCode::SigningFailed => "SIGNING_FAILED",
            ErrorCode::NotarizeFailed => "NOTARIZE_FAILED",
            ErrorCode::PackageFailed => "PACKAGE_FAILED",
            ErrorCode::InternalError => "INTERNAL_ERROR",
        };
        s.to_owned()
    }
}

/// Where a line of output came from.
#[derive(Debug, Clone, Copy, PartialEq, Eq, Structural)]
pub enum LogStream {
    Stdout,
    Stderr,
}

/// A built file that can be downloaded. `expires_at` is a time as RFC 3339
/// writes it.
#[derive(Debug)]
pub struct ArtifactInfo {
    pub name: String,
    pub size: u64,
    pub sha256: String,
    pub download_url: String,
    pub expires_at: String,
}

/// A message about a build. The identifier of a job is the text of its UUID;
/// the duration is in nanoseconds.
#[derive(Debug)]
#[allow(inconsistent_fields)]
pub enum ServerMessage {
    JobCreated { job_id: String, position: usize, estimated_wait_secs: Option<u64> },
    QueueUpdate { position: usize, estimated_wait_secs: Option<u64> },
    Stage { stage: StageName, message: String },
    Log { stage: StageName, line: String, stream: LogStream },
    Progress { stage: StageName, percent: u8, message: Option<String> },
    ArtifactReady {
        artifact_name: String,
        artifact_size: u64,
        sha256: String,
        download_url: String,
        expires_in_secs: u64,
    },
    Published { platform: String, message: String, url: Option<String> },
    Error { code: ErrorCode, message: String, stage: Option<StageName> },
    Complete {
        job_id: String,
        success: bool,
        duration_nanos: u64,
        artifacts: Vec<ArtifactInfo>,
    },
}

/// A message from a client.
#[derive(Debug, Clone, Copy, PartialEq, Eq, Structural)]
pub enum ClientMessage {
    Cancel,
    Ping,
}

/// The message is that a stage began, with that text.
pub open spec fn is_stage(m: ServerMessage, stage: StageName, message: Seq<char>) -> bool {
    m matches ServerMessage::Stage { stage: s, message: t } && s == stage && t@ == message
}

/// The message is how far a stage is, in percent, with no text.
pub open spec fn is_progress(m: ServerMessage, stage: StageName, percent: int) -> bool {
    m matches ServerMessage::Progress { stage: s, percent: p, message: t } && s == stage && p
        == percent && t is None
}

/// The message is a line of output.
pub open spec fn is_log(m: ServerMessage, stage: StageName, line: Seq<char>, stream: LogStream) -> bool {
    m matches ServerMessage::Log { stage: s, line: l, stream: t } && s == stage && l@ == line && t
        == stream
}

/// A stage begins.
pub fn send_stage(stage: StageName, message: &str) -> (m: ServerMessage)
    ensures
        is_stage(m, stage, message@),
{
    ServerMessage::Stage { stage, message: message.to_owned() }
}

/// A stage is so far.
pub fn send_progress(stage: StageName, percent: u8) -> (m: ServerMessage)
    ensures
        is_progress(m, stage, percent as int),
{
    ServerMessage::Progress { stage, percent, message: None }
}

/// A line of output.
pub fn log_line(stage: StageName, line: &str, stream: LogStream) -> (m: ServerMessage)
    ensures
        is_log(m, stage, line@, stream),
{
    ServerMessage::Log { stage, line: line.to_owned(), stream }
}

/// Whether a line of output is still passed on: once a build is cancelled, no
/// more of what goes to standard error.
pub fn passes_line(stream: LogStream, cancelled: bool) -> (r: bool)
    ensures
        r == (stream == LogStream::Stdout || !cancelled),
{
    match stream {
        LogStream::Stdout => true,
        LogStream::Stderr => !cancelled,
    }
}

} // verus!
