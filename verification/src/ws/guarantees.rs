//! What a reader makes of the messages about a build.
use crate::ws::messages::{
    log_line, passes_line, send_progress, send_stage, ErrorCode, LogStream, ServerMessage,
    StageName,
};
use vstd::prelude::*;

verus! {

/// The stage that a name stands for.
pub open spec fn stage_named(name: Seq<char>) -> Option<StageName> {
    if name == "queued"@ {
        Some(StageName::Queued)
    } else if name == "extracting"@ {
        Some(StageName::Extracting)
    } else if name == "compiling"@ {
        Some(StageName::Compiling)
    } else if name == "generating_assets"@ {
        Some(StageName::GeneratingAssets)
    } else if name == "bundling"@ {
        Some(StageName::Bundling)
    } else if name == "signing"@ {
        Some(StageName::Signing)
    } else if name == "notarizing"@ {
        Some(StageName::Notarizing)
    } else if name == "packaging"@ {
        Some(StageName::Packaging)
    } else if name == "uploading"@ {
        Some(StageName::Uploading)
    } else if name == "publishing"@ {
        Some(StageName::Publishing)
    } else if name == "complete"@ {
        Some(StageName::Complete)
    } else {
        None
    }
}

/// The kind of error that a name stands for.
pub open spec fn error_named(name: Seq<char>) -> Option<ErrorCode> {
    if name == "LICENSE_INVALID"@ {
        Some(ErrorCode::LicenseInvalid)
    } else if name == "LICENSE_TIER"@ {
        Some(ErrorCode::LicenseTier)
    } else if name == "UPLOAD_TOO_LARGE"@ {
        Some(ErrorCode::UploadTooLarge)
    } else if name == "RATE_LIMITED"@ {
        Some(ErrorCode::RateLimited)
    } else if name == "QUEUE_FULL"@ {
        Some(ErrorCode::QueueFull)
    } else if name == "COMPILE_FAILED"@ {
        Some(ErrorCode::CompileFailed)
    } else if name == "SIGNING_FAILED"@ {
        Some(ErrorCode::SigningFailed)
    } else if name == "NOTARIZE_FAILED"@ {
        Some(ErrorCode::NotarizeFailed)
    } else if name == "PACKAGE_FAILED"@ {
        Some(ErrorCode::PackageFailed)
    } else if name == "INTERNAL_ERROR"@ {
        Some(ErrorCode::InternalError)
    } else {
        None
    }
}

/// The name of a stage is read as that stage.
pub proof fn lemma_stages_are_read_back(stage: StageName, name: String)
    requires
        call_ensures(StageName::text, (&stage,), name),
    ensures
        stage_named(name@) == Some(stage),
{
    reveal_strlit("queued");
    reveal_strlit("extracting");
    reveal_strlit("compiling");
    reveal_strlit("generating_assets");
    reveal_strlit("bundling");
    reveal_strlit("signing");
    reveal_strlit("notarizing");
    reveal_strlit("packaging");
    reveal_strlit("uploading");
    reveal_strlit("publishing");
    reveal_strlit("complete");
    assert("queued"@[0] == 'q');
    assert("extracting"@[0] == 'e');
    assert("compiling"@[3] == 'p' && "compiling"@.len() == 9);
    assert("complete"@.len() == 8);
    assert("generating_assets"@[0] == 'g');
    assert("bundling"@[0] == 'b');
    assert("signing"@[0] == 's');
    assert("notarizing"@[0] == 'n');
    assert("packaging"@[0] == 'p' && "packaging"@[1] == 'a');
    assert("uploading"@[0] == 'u');
    assert("publishing"@[1] == 'u');
}

/// The name of a kind of error is read as that kind.
pub proof fn lemma_errors_are_read_back(code: ErrorCode, name: String)
    requires
        call_ensures(ErrorCode::text, (&code,), name),
    ensures
        error_named(name@) == Some(code),
{
    reveal_strlit("LICENSE_INVALID");
    reveal_strlit("LICENSE_TIER");
    reveal_strlit("UPLOAD_TOO_LARGE");
    reveal_strlit("RATE_LIMITED");
    reveal_strlit("QUEUE_FULL");
    reveal_strlit("COMPILE_FAILED");
    reveal_strlit("SIGNING_FAILED");
    reveal_strlit("NOTARIZE_FAILED");
    reveal_strlit("PACKAGE_FAILED");
    reveal_strlit("INTERNAL_ERROR");
    assert("LICENSE_INVALID"@.len() == 15 && "LICENSE_INVALID"@[0] == 'L');
    assert("LICENSE_TIER"@.len() == 12 && "LICENSE_TIER"@[0] == 'L');
    assert("UPLOAD_TOO_LARGE"@[0] == 'U');
    assert("RATE_LIMITED"@[0] == 'R');
    assert("QUEUE_FULL"@[0] == 'Q');
    assert("COMPILE_FAILED"@[0] == 'C');
    assert("SIGNING_FAILED"@[0] == 'S');
    assert("NOTARIZE_FAILED"@[0] == 'N');
    assert("PACKAGE_FAILED"@[0] == 'P');
    assert("INTERNAL_ERROR"@[0] == 'I');
}

/// A message that a stage begins, how far it is, or what it printed says just
/// what it was made of.
pub proof fn lemma_messages_say_what_they_were_made_of(
    stage: StageName,
    text: &str,
    percent: u8,
    stream: LogStream,
    begun: ServerMessage,
    far: ServerMessage,
    line: ServerMessage,
)
    requires
        call_ensures(send_stage, (stage, text), begun),
        call_ensures(send_progress, (stage, percent), far),
        call_ensures(log_line, (stage, text, stream), line),
    ensures
        begun matches ServerMessage::Stage { stage: s, message } && s == stage && message@ == text@,
        far matches ServerMessage::Progress { stage: s, percent: p, message } && s == stage && p
            == percent && message is None,
        line matches ServerMessage::Log { stage: s, line: l, stream: t } && s == stage && l@
            == text@ && t == stream,
{
}

/// A build that is not cancelled passes on all that it prints; a cancelled one
/// what goes to standard output.
pub proof fn lemma_cancelled_builds_keep_their_errors(
    stream: LogStream,
    cancelled: bool,
    passes: bool,
)
    requires
        call_ensures(passes_line, (stream, cancelled), passes),
    ensures
        !cancelled ==> passes,
        cancelled ==> (passes <==> stream == LogStream::Stdout),
{
}

} // verus!
