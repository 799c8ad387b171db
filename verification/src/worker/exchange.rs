//! What the worker and the hub make of what they send each other.
use crate::encoding::decoded;
use crate::paths::{below, PathStyle};
use crate::process::{text_pairs, ToolCommand};
use crate::text::ends_with;
use crate::worker::transfer::{
    download_dir, download_headers, download_outcome, tarball_file, upload_body, upload_headers,
    upload_outcome, DownloadEnd, UploadEnd,
};
use crate::worker::update::{source_dir, PerryUpdate, UpdatePhaseView};
use vstd::prelude::*;

verus! {

/// What a request says under the name of a header: the value of the first one.
pub open spec fn header(list: Seq<(Seq<char>, Seq<char>)>, name: Seq<char>) -> Option<Seq<char>>
    decreases list.len(),
{
    if list.len() == 0 {
        None
    } else if list[0].0 == name {
        Some(list[0].1)
    } else {
        header(list.drop_first(), name)
    }
}

/// What is shown to the hub to prove who asks.
pub open spec fn proof_of(token: Option<String>) -> Option<Seq<char>> {
    match token {
        Some(t) => Some("Bearer "@ + t@),
        None => None,
    }
}

proof fn lemma_header_at(list: Seq<(Seq<char>, Seq<char>)>, i: int)
    requires
        0 <= i < list.len(),
        forall|j: int| 0 <= j < i ==> (#[trigger] list[j]).0 != list[i].0,
    ensures
        header(list, list[i].0) == Some(list[i].1),
    decreases list.len(),
{
    if i > 0 {
        let rest = list.drop_first();
        assert(list[0].0 != list[i].0);
        assert(rest[i - 1] == list[i]);
        assert forall|j: int| 0 <= j < i - 1 implies (#[trigger] rest[j]).0 != rest[i - 1].0 by {
            assert(rest[j] == list[j + 1]);
        }
        lemma_header_at(rest, i - 1);
    }
}

proof fn lemma_header_missing(list: Seq<(Seq<char>, Seq<char>)>, name: Seq<char>)
    requires
        forall|j: int| 0 <= j < list.len() ==> (#[trigger] list[j]).0 != name,
    ensures
        header(list, name) is None,
    decreases list.len(),
{
    if list.len() > 0 {
        let rest = list.drop_first();
        assert(list[0].0 != name);
        assert forall|j: int| 0 <= j < rest.len() implies (#[trigger] rest[j]).0 != name by {
            assert(rest[j] == list[j + 1]);
        }
        lemma_header_missing(rest, name);
    }
}

proof fn lemma_header_names_differ()
    ensures
        "Content-Type"@[0] == 'C',
        "x-artifact-name"@.len() == 15 && "x-artifact-name"@[0] == 'x',
        "x-artifact-sha256"@.len() == 17 && "x-artifact-sha256"@[0] == 'x',
        "x-artifact-target"@.len() == 17 && "x-artifact-target"@[0] == 'x',
        "x-artifact-sha256"@[11] == 's',
        "x-artifact-target"@[11] == 't',
        "Authorization"@[0] == 'A',
{
    reveal_strlit("Content-Type");
    reveal_strlit("x-artifact-name");
    reveal_strlit("x-artifact-sha256");
    reveal_strlit("x-artifact-target");
    reveal_strlit("Authorization");
}

/// The hub is told the name of the artifact, its digest and that it is for
/// Windows, and is shown the token if there is one; the same token is shown for
/// an archive.
pub proof fn lemma_requests_say_what_they_bring(
    artifact_name: &str,
    sha256: &str,
    auth_token: &Option<String>,
    up: Vec<(String, String)>,
    down: Vec<(String, String)>,
)
    requires
        call_ensures(upload_headers, (artifact_name, sha256, auth_token), up),
        call_ensures(download_headers, (auth_token,), down),
    ensures
        header(text_pairs(up@), "x-artifact-name"@) == Some(artifact_name@),
        header(text_pairs(up@), "x-artifact-sha256"@) == Some(sha256@),
        header(text_pairs(up@), "x-artifact-target"@) == Some("windows"@),
        header(text_pairs(up@), "Content-Type"@) == Some("text/plain"@),
        header(text_pairs(up@), "Authorization"@) == proof_of(*auth_token),
        header(text_pairs(down@), "Authorization"@) == proof_of(*auth_token),
        auth_token is None ==> down@.len() == 0,
{
    let u = text_pairs(up@);
    let d = text_pairs(down@);
    lemma_header_names_differ();
    assert(u[0] == ("Content-Type"@, "text/plain"@));
    assert(u[1] == ("x-artifact-name"@, artifact_name@));
    assert(u[2] == ("x-artifact-sha256"@, sha256@));
    assert(u[3] == ("x-artifact-target"@, "windows"@));
    lemma_header_at(u, 0);
    lemma_header_at(u, 1);
    lemma_header_at(u, 2);
    lemma_header_at(u, 3);
    assert(d.len() == down@.len());
    if let Some(t) = *auth_token {
        assert(u[4] == ("Authorization"@, "Bearer "@ + t@));
        lemma_header_at(u, 4);
        assert(d[0] == ("Authorization"@, "Bearer "@ + t@));
        lemma_header_at(d, 0);
    } else {
        lemma_header_missing(u, "Authorization"@);
        lemma_header_missing(d, "Authorization"@);
    }
}

/// What is sent is what is received: an archive that comes as the worker sends
/// its artifacts is stored byte for byte.
pub proof fn lemma_what_is_sent_is_received(
    data: &[u8],
    body: String,
    r: Result<Vec<u8>, String>,
)
    requires
        call_ensures(upload_body, (data,), body),
        call_ensures(download_outcome, (&DownloadEnd::Received(body),), r),
    ensures
        r matches Ok(received) && received@ == data@,
{
    assert(decoded(body@, "Failed to base64-decode tarball: "@) == Ok::<
        Seq<u8>,
        Seq<char>,
    >(data@));
}

/// An archive is there only if the hub answered with one, and an artifact is
/// taken only if the hub says so. Anything else is an error, which ends with the
/// reason.
pub proof fn lemma_failed_transfers_say_why(
    down: &DownloadEnd,
    up: &UploadEnd,
    received: Result<Vec<u8>, String>,
    taken: Result<(), String>,
)
    requires
        call_ensures(download_outcome, (down,), received),
        call_ensures(upload_outcome, (up,), taken),
    ensures
        received is Ok ==> *down is Received,
        taken is Ok <==> *up is Taken,
        *down matches DownloadEnd::NotSent(e) ==> ends_with(received->Err_0@, e@),
        *down matches DownloadEnd::Refused(e) ==> ends_with(received->Err_0@, e@),
        *down matches DownloadEnd::NotRead(e) ==> ends_with(received->Err_0@, e@),
        *up matches UploadEnd::NotRead(e) ==> ends_with(taken->Err_0@, e@),
        *up matches UploadEnd::NotSent(e) ==> ends_with(taken->Err_0@, e@),
        *up matches UploadEnd::Refused { body, .. } ==> ends_with(taken->Err_0@, body@),
        *up matches UploadEnd::NotUnderstood(e) ==> ends_with(taken->Err_0@, e@),
{
    if let Err(m) = received {
        let e = match *down {
            DownloadEnd::NotSent(e) => e@,
            DownloadEnd::Refused(e) => e@,
            DownloadEnd::NotRead(e) => e@,
            DownloadEnd::Received(_) => Seq::empty(),
        };
        assert(m@.skip(m@.len() - e.len()) =~= e);
    }
    if let Err(m) = taken {
        let e = match *up {
            UploadEnd::NotRead(e) => e@,
            UploadEnd::NotSent(e) => e@,
            UploadEnd::Refused { body, .. } => body@,
            UploadEnd::NotUnderstood(e) => e@,
            UploadEnd::Taken => Seq::empty(),
        };
        assert(m@.skip(m@.len() - e.len()) =~= e);
    }
}

/// The archive of a job is stored in the directory that is made for archives,
/// under the number of the job.
pub proof fn lemma_archives_go_into_their_directory(
    temp_dir: &str,
    job_id: &str,
    style: PathStyle,
    dir: String,
    file: String,
)
    requires
        call_ensures(download_dir, (temp_dir, style), dir),
        call_ensures(tarball_file, (temp_dir, job_id, style), file),
    ensures
        file@ == below(dir@, job_id@ + ".tar.gz"@, style),
        dir@ == below(temp_dir@, "perry-worker-dl"@, style),
{
}

// ---------------------------------------------------------------------------
// Updates
// ---------------------------------------------------------------------------

/// An update pulls the sources and builds the compiler and its libraries for
/// release, and then asks the compiler that the worker runs for its version.
pub proof fn lemma_updates_run_their_tools(
    update: &PerryUpdate,
    cargo: &str,
    perry_binary: &str,
    r: Option<ToolCommand>,
)
    requires
        call_ensures(PerryUpdate::action, (update, cargo, perry_binary), r),
    ensures
        r is None <==> update.phase@ is Finished,
        update.phase@ is Pull ==> (r matches Some(c) && c@.program == "git"@ && c@.args == seq![
            "pull"@,
        ]),
        update.phase@ is Build ==> (r matches Some(c) && c@.program == cargo@ && c@.args.contains(
            "--release"@,
        ) && c@.args.contains("perry"@) && c@.args.contains("perry-runtime"@)
            && c@.args.contains("perry-stdlib"@) && c@.args[0] == "build"@),
        update.phase@ is AskVersion ==> (r matches Some(c) && c@.program == perry_binary@ && c@.args
            == seq!["--version"@]),
{
    if update.phase@ is Build {
        let a = r->Some_0@.args;
        assert(a[1] == "--release"@);
        assert(a[3] == "perry"@);
        assert(a[5] == "perry-runtime"@);
        assert(a[7] == "perry-stdlib"@);
    }
}

/// An update begins in the directory of the compiler's sources, where there is
/// one under version control, and is over as a failure at once where there is
/// none.
pub proof fn lemma_updates_begin_in_the_sources(
    perry_binary: &str,
    is_repository: bool,
    style: PathStyle,
    dir: Option<String>,
    update: PerryUpdate,
)
    requires
        call_ensures(source_dir, (perry_binary, style), dir),
        call_ensures(PerryUpdate::new, (perry_binary, is_repository, style), update),
    ensures
        match dir {
            Some(d) if is_repository => update.phase@ is Pull && update.src_dir@ == d@,
            _ => update.phase@ matches UpdatePhaseView::Finished(o) && !o.success && o.error
                is Some,
        },
{
}

} // verus!
