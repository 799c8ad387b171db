//! What goes over HTTP: archives come from the hub and artifacts go to it, both
//! in Base64.
use crate::encoding::{
    base64_text, bytes_verdict, decode_trimmed, decoded, encode_base64, is_base64_char,
};
use crate::paths::{below, join_path, PathStyle};
use crate::process::text_pairs;
use crate::text::{
    cat2, cat4, is_space, lemma_trimmed_without_space, opt_text, verdict,
};
use vstd::prelude::*;
use vstd::string::*;

verus! {

/// The platform that artifacts are for.
pub const TARGET: &'static str = "windows";

/// The header that proves to the hub who asks.
pub open spec fn auth_headers(token: Option<Seq<char>>) -> Seq<(Seq<char>, Seq<char>)> {
    match token {
        Some(t) => seq![("Authorization"@, "Bearer "@ + t)],
        None => Seq::empty(),
    }
}

fn push_header(list: &mut Vec<(String, String)>, name: &str, value: &str)
    ensures
        text_pairs(final(list)@) == text_pairs(old(list)@).push((name@, value@)),
{
    list.push((name.to_owned(), value.to_owned()));
    assert(text_pairs(list@) =~= text_pairs(old(list)@).push((name@, value@)));
}

fn push_auth(list: &mut Vec<(String, String)>, token: &Option<String>)
    ensures
        text_pairs(final(list)@) == text_pairs(old(list)@) + auth_headers(opt_text(*token)),
{
    match token {
        Some(t) => push_header(list, "Authorization", &cat2("Bearer ", t)),
        None => {},
    }
    assert(text_pairs(list@) =~= text_pairs(old(list)@) + auth_headers(opt_text(*token)));
}

/// The headers of a request for an archive.
pub fn download_headers(auth_token: &Option<String>) -> (r: Vec<(String, String)>)
    ensures
        text_pairs(r@) == auth_headers(opt_text(*auth_token)),
{
    let mut list: Vec<(String, String)> = Vec::new();
    push_auth(&mut list, auth_token);
    assert(text_pairs(list@) =~= auth_headers(opt_text(*auth_token)));
    list
}

/// The headers of a request that brings an artifact.
pub open spec fn artifact_headers(
    name: Seq<char>,
    sha256: Seq<char>,
    token: Option<Seq<char>>,
) -> Seq<(Seq<char>, Seq<char>)> {
    seq![
        ("Content-Type"@, "text/plain"@),
        ("x-artifact-name"@, name),
        ("x-artifact-sha256"@, sha256),
        ("x-artifact-target"@, TARGET@),
    ] + auth_headers(token)
}

/// The headers of a request that brings an artifact.
pub fn upload_headers(artifact_name: &str, sha256: &str, auth_token: &Option<String>) -> (r: Vec<
    (String, String),
>)
    ensures
        text_pairs(r@) == artifact_headers(artifact_name@, sha256@, opt_text(*auth_token)),
{
    let mut list: Vec<(String, String)> = Vec::new();
    push_header(&mut list, "Content-Type", "text/plain");
    push_header(&mut list, "x-artifact-name", artifact_name);
    push_header(&mut list, "x-artifact-sha256", sha256);
    push_header(&mut list, "x-artifact-target", TARGET);
    push_auth(&mut list, auth_token);
    assert(text_pairs(list@) =~= artifact_headers(artifact_name@, sha256@, opt_text(*auth_token)));
    list
}

/// The body of a request that brings an artifact. Whoever decodes it gets the
/// artifact back.
pub fn upload_body(data: &[u8]) -> (r: String)
    ensures
        r@ == base64_text(data@),
        forall|what: Seq<char>| #[trigger] decoded(r@, what) == Ok::<Seq<u8>, Seq<char>>(data@),
{
    let r = encode_base64(data);
    proof {
        assert forall|i: int| 0 <= i < r@.len() implies !is_space(#[trigger] r@[i]) by {
            assert(is_base64_char(r@[i]));
        }
        lemma_trimmed_without_space(r@);
    }
    r
}

/// How sending an artifact went.
pub enum UploadEnd {
    /// The artifact could not be read.
    NotRead(String),
    /// There was no answer.
    NotSent(String),
    /// The hub refused it, with a status and a text.
    Refused { status: String, body: String },
    /// The answer could not be understood.
    NotUnderstood(String),
    /// The hub took it.
    Taken,
}

/// What comes of sending an artifact.
pub open spec fn upload_verdict(end: UploadEnd) -> Result<(), Seq<char>> {
    match end {
        UploadEnd::NotRead(e) => Err("Failed to read artifact: "@ + e@),
        UploadEnd::NotSent(e) => Err("Artifact upload failed: "@ + e@),
        UploadEnd::Refused { status, body } => Err(
            "Hub returned HTTP "@ + status@ + " for artifact upload: "@ + body@,
        ),
        UploadEnd::NotUnderstood(e) => Err("Failed to parse upload response: "@ + e@),
        UploadEnd::Taken => Ok(()),
    }
}

/// What comes of sending an artifact.
pub fn upload_outcome(end: &UploadEnd) -> (r: Result<(), String>)
    ensures
        verdict(r) == upload_verdict(*end),
{
    match end {
        UploadEnd::NotRead(e) => Err(cat2("Failed to read artifact: ", e)),
        UploadEnd::NotSent(e) => Err(cat2("Artifact upload failed: ", e)),
        UploadEnd::Refused { status, body } => Err(
            cat4("Hub returned HTTP ", status, " for artifact upload: ", body),
        ),
        UploadEnd::NotUnderstood(e) => Err(cat2("Failed to parse upload response: ", e)),
        UploadEnd::Taken => Ok(()),
    }
}

/// How a request for an archive went.
pub enum DownloadEnd {
    /// There was no answer.
    NotSent(String),
    /// The hub refused it, with a status.
    Refused(String),
    /// The answer could not be read.
    NotRead(String),
    /// The answer.
    Received(String),
}

/// What comes of a request for an archive: the answer holds it in Base64.
pub open spec fn download_verdict(end: DownloadEnd) -> Result<Seq<u8>, Seq<char>> {
    match end {
        DownloadEnd::NotSent(e) => Err("HTTP request failed: "@ + e@),
        DownloadEnd::Refused(status) => Err("Hub returned HTTP "@ + status@),
        DownloadEnd::NotRead(e) => Err("Failed to read tarball response body: "@ + e@),
        DownloadEnd::Received(text) => decoded(text@, "Failed to base64-decode tarball: "@),
    }
}

/// What comes of a request for an archive.
pub fn download_outcome(end: &DownloadEnd) -> (r: Result<Vec<u8>, String>)
    ensures
        bytes_verdict(r) == download_verdict(*end),
{
    match end {
        DownloadEnd::NotSent(e) => Err(cat2("HTTP request failed: ", e)),
        DownloadEnd::Refused(status) => Err(cat2("Hub returned HTTP ", status)),
        DownloadEnd::NotRead(e) => Err(cat2("Failed to read tarball response body: ", e)),
        DownloadEnd::Received(text) => decode_trimmed(text, "Failed to base64-decode tarball: "),
    }
}

/// The directory for archives.
pub fn download_dir(temp_dir: &str, style: PathStyle) -> (r: String)
    ensures
        r@ == below(temp_dir@, "perry-worker-dl"@, style),
{
    join_path(temp_dir, "perry-worker-dl", style)
}

/// The file for the archive of a job.
pub fn tarball_file(temp_dir: &str, job_id: &str, style: PathStyle) -> (r: String)
    ensures
        r@ == below(
            below(temp_dir@, "perry-worker-dl"@, style),
            job_id@ + ".tar.gz"@,
            style,
        ),
{
    join_path(&download_dir(temp_dir, style), &cat2(job_id, ".tar.gz"), style)
}

/// The message for an archive that could not be stored, with the step that
/// failed.
pub fn store_failure(made_dir: bool, error: &str) -> (r: String)
    ensures
        r@ == (if made_dir {
            "Failed to write tarball to disk: "@
        } else {
            "Failed to create download dir: "@
        }) + error@,
{
    if made_dir {
        cat2("Failed to write tarball to disk: ", error)
    } else {
        cat2("Failed to create download dir: ", error)
    }
}

} // verus!
