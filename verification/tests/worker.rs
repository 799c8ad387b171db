//! The worker's side of a connection to the hub.
use perry_ship_windows::config::{Environment, WorkerConfig};
use perry_ship_windows::paths::PathStyle;
use perry_ship_windows::process::ToolRun;
use perry_ship_windows::queue::job::{BuildCredentials, BuildManifest};
use perry_ship_windows::worker::messages::{
    worker_hello, Artifact, HubMessage, Outgoing, WorkerMessage,
};
use perry_ship_windows::worker::session::{
    Reply, SocketEvent, Worker, WorkerCommand, WorkerEvent, RECONNECT_SECS,
};
use perry_ship_windows::worker::transfer::{
    download_headers, download_outcome, store_failure, tarball_file, upload_body, upload_headers,
    upload_outcome, DownloadEnd, UploadEnd,
};
use perry_ship_windows::worker::update::{
    get_perry_version, source_dir, PerryUpdate, UpdateOutcome, UpdatePhase,
};
use perry_ship_windows::ws::messages::{
    log_line, passes_line, send_progress, ErrorCode, LogStream, ServerMessage, StageName,
};

/// A compiler that was built in a directory of sources.
const COMPILER: &str = "/src/target/release/perry";

fn manifest() -> BuildManifest {
    BuildManifest {
        app_name: "App".into(),
        bundle_id: "com.test.app".into(),
        version: "1.0.0".into(),
        short_version: None,
        entry: "src/main.ts".into(),
        icon: None,
        targets: vec!["windows".into()],
        category: None,
        minimum_os_version: None,
        entitlements: None,
        windows_distribute: None,
        windows_uac_level: None,
        windows_dpi_aware: None,
        windows_file_description: None,
        windows_company_name: None,
        windows_copyright: None,
    }
}

fn credentials() -> BuildCredentials {
    BuildCredentials {
        windows_pfx_base64: None,
        windows_pfx_password: None,
        windows_timestamp_url: None,
        azure_tenant_id: None,
        azure_client_id: None,
        azure_client_secret: None,
        azure_signing_endpoint: None,
        azure_signing_account: None,
        azure_signing_profile: None,
        gcloud_kms_key: None,
        gcloud_kms_cert_base64: None,
        gcloud_service_account_base64: None,
    }
}

fn hub(m: HubMessage) -> WorkerEvent {
    WorkerEvent::Socket(SocketEvent::Message(m))
}

fn assign(job: &str, upload: Option<&str>) -> WorkerEvent {
    hub(HubMessage::JobAssign {
        job_id: job.into(),
        manifest: Ok(manifest()),
        credentials: Ok(credentials()),
        tarball_url: "http://hub/t".into(),
        artifact_upload_url: upload.map(|u| u.to_string()),
        auth_token: Some("tok".into()),
    })
}

fn cancel(job: &str) -> WorkerEvent {
    hub(HubMessage::Cancel { job_id: job.into() })
}

fn artifact(a: &Artifact) -> String {
    format!("{} {} {}", a.name, a.size, a.sha256)
}

fn said(reply: &Reply) -> Vec<String> {
    reply
        .sent
        .iter()
        .map(|m| match m {
            Outgoing::Worker(WorkerMessage::UpdateResult { success, old_version, new_version, error }) => {
                format!("update {success} [{old_version}] [{new_version}] {error:?}")
            }
            Outgoing::Worker(WorkerMessage::WorkerHello { .. }) => "hello".into(),
            Outgoing::Pong(data) => format!("pong {data:?}"),
            Outgoing::Error { code, message } => format!("error {} {message}", code.text()),
            Outgoing::JobError { job_id, code, message, has_stage } => {
                format!("error {job_id} {} {message} {has_stage}", code.text())
            }
            Outgoing::Progress { job_id, .. } => format!("progress {job_id}"),
            Outgoing::ArtifactReady { job_id, target, path, artifact: a } => {
                format!("ready {job_id} {target} {path} {}", artifact(a))
            }
            Outgoing::Complete { job_id, success, duration_nanos, artifact: a } => {
                format!("complete {job_id} {success} {duration_nanos} {:?}", a.as_ref().map(artifact))
            }
        })
        .collect()
}

fn waits(reply: &Reply) -> bool {
    matches!(reply.command, WorkerCommand::Wait)
}

/// A worker that is building a job.
fn building(job: &str, upload: Option<&str>) -> Worker {
    let mut w = Worker::new();
    let r = w.advance(assign(job, upload), 0);
    match r.command {
        WorkerCommand::Download { url, job_id, auth_token } => {
            assert_eq!(url, "http://hub/t");
            assert_eq!(job_id, job);
            assert_eq!(auth_token.as_deref(), Some("tok"));
        }
        _ => panic!("the archive is fetched"),
    }
    let r = w.advance(WorkerEvent::Downloaded(Ok("/dl/x".into())), 0);
    match r.command {
        WorkerCommand::StartBuild(request) => {
            assert_eq!(request.job_id, job);
            assert_eq!(request.tarball_path, "/dl/x");
            assert_eq!(request.manifest.app_name, "App");
        }
        _ => panic!("the build begins"),
    }
    w
}

fn inspected() -> WorkerEvent {
    WorkerEvent::Inspected {
        name: Some("App-j.exe".into()),
        size: Some(7),
        sha256: Some("abc".into()),
    }
}

#[test]
fn a_job_is_built_sent_and_completed() {
    let mut w = building("j", Some("http://hub/up"));
    let message = send_progress(StageName::Compiling, 100);
    let r = w.advance(WorkerEvent::Progress(Some(message)), 1);
    assert_eq!(said(&r), vec!["progress j"]);
    let r = w.advance(WorkerEvent::BuildOver(Some(Ok("/a/App-j.exe".into()))), 2);
    assert!(r.sent.is_empty() && waits(&r));
    let r = w.advance(WorkerEvent::Progress(Some(send_progress(StageName::Publishing, 100))), 3);
    assert_eq!(said(&r), vec!["progress j"]);
    let r = w.advance(WorkerEvent::Progress(None), 99);
    assert!(matches!(&r.command, WorkerCommand::Inspect(p) if p == "/a/App-j.exe"));
    let r = w.advance(inspected(), 0);
    match r.command {
        WorkerCommand::Upload { url, path, artifact_name, sha256, auth_token } => {
            assert_eq!(url, "http://hub/up");
            assert_eq!(path, "/a/App-j.exe");
            assert_eq!(artifact_name, "App-j.exe");
            assert_eq!(sha256, "abc");
            assert_eq!(auth_token.as_deref(), Some("tok"));
        }
        _ => panic!("the artifact is sent"),
    }
    let r = w.advance(WorkerEvent::Uploaded(Ok(())), 0);
    assert!(r.sent.is_empty());
    assert!(matches!(&r.command, WorkerCommand::Remove(p) if p == "/a/App-j.exe"));
    let r = w.advance(WorkerEvent::Removed, 0);
    assert_eq!(said(&r), vec!["complete j true 99 Some(\"App-j.exe 7 abc\")"]);
    assert!(waits(&r));
}

#[test]
fn an_artifact_without_an_address_is_announced() {
    let mut w = building("j", None);
    w.advance(WorkerEvent::Progress(None), 0);
    let r = w.advance(WorkerEvent::BuildOver(Some(Ok("/a/x.exe".into()))), 5);
    assert!(matches!(&r.command, WorkerCommand::Inspect(_)));
    let r = w.advance(WorkerEvent::Inspected { name: None, size: None, sha256: None }, 0);
    assert_eq!(said(&r), vec!["ready j windows /a/x.exe artifact 0 "]);
    assert!(matches!(&r.command, WorkerCommand::Remove(p) if p == "/a/x.exe"));
    let r = w.advance(WorkerEvent::Removed, 0);
    assert_eq!(said(&r), vec!["complete j true 5 Some(\"artifact 0 \")"]);
}

#[test]
fn a_failed_upload_is_reported() {
    let mut w = building("j", Some("u"));
    w.advance(WorkerEvent::Progress(None), 0);
    w.advance(WorkerEvent::BuildOver(Some(Ok("/a/x".into()))), 5);
    w.advance(inspected(), 0);
    let r = w.advance(WorkerEvent::Uploaded(Err("no".into())), 0);
    assert_eq!(said(&r), vec!["error j INTERNAL_ERROR Artifact upload failed: no false"]);
    assert_eq!(
        said(&w.advance(WorkerEvent::Removed, 0)),
        vec!["complete j true 5 Some(\"App-j.exe 7 abc\")"]
    );
}

#[test]
fn failed_builds_are_answered() {
    let mut w = building("j", Some("u"));
    w.advance(WorkerEvent::BuildOver(Some(Err("broken".into()))), 5);
    let r = w.advance(WorkerEvent::Progress(None), 6);
    assert_eq!(
        said(&r),
        vec!["error j INTERNAL_ERROR broken true", "complete j false 6 None"]
    );
    let mut w = building("k", None);
    w.advance(WorkerEvent::Progress(None), 5);
    let r = w.advance(WorkerEvent::BuildOver(None), 6);
    assert_eq!(said(&r), vec!["complete k false 6 None"]);
    // The worker takes the next job.
    assert!(matches!(w.advance(assign("l", None), 0).command, WorkerCommand::Download { .. }));
}

#[test]
fn jobs_that_cannot_begin_are_answered() {
    let mut w = Worker::new();
    let bad = |m: Result<BuildManifest, String>, c: Result<BuildCredentials, String>| {
        hub(HubMessage::JobAssign {
            job_id: "j".into(),
            manifest: m,
            credentials: c,
            tarball_url: "t".into(),
            artifact_upload_url: None,
            auth_token: None,
        })
    };
    let r = w.advance(bad(Err("m".into()), Err("c".into())), 9);
    assert_eq!(
        said(&r),
        vec!["error INTERNAL_ERROR Invalid manifest: m", "complete j false 0 None"]
    );
    let r = w.advance(bad(Ok(manifest()), Err("c".into())), 9);
    assert_eq!(
        said(&r),
        vec!["error INTERNAL_ERROR Invalid credentials: c", "complete j false 0 None"]
    );
    w.advance(assign("j", None), 0);
    let r = w.advance(WorkerEvent::Downloaded(Err("d".into())), 9);
    assert_eq!(
        said(&r),
        vec!["error INTERNAL_ERROR Failed to download tarball: d", "complete j false 0 None"]
    );
    assert!(waits(&r));
}

#[test]
fn only_the_job_in_hand_is_cancelled() {
    let mut w = building("j", None);
    w.advance(cancel("other"), 0);
    assert!(!w.cancelled);
    let r = w.advance(cancel("j"), 0);
    assert!(w.cancelled && r.sent.is_empty() && waits(&r));
    w.advance(WorkerEvent::Socket(SocketEvent::Other), 0);
    assert!(w.cancelled);
    w.advance(WorkerEvent::BuildOver(Some(Err("Build cancelled".into()))), 0);
    w.advance(WorkerEvent::Progress(None), 0);
    assert!(w.cancelled);
    // The next job begins uncancelled.
    w.advance(assign("k", None), 0);
    assert!(!w.cancelled);
    let mut idle = Worker::new();
    assert!(idle.advance(cancel("j"), 0).sent.is_empty());
    assert!(!idle.cancelled);
}

#[test]
fn pings_are_answered_at_any_time() {
    let mut w = Worker::new();
    let ping = || WorkerEvent::Socket(SocketEvent::Ping(vec![1, 2]));
    assert_eq!(said(&w.advance(ping(), 0)), vec!["pong [1, 2]"]);
    let mut w = building("j", None);
    assert_eq!(said(&w.advance(ping(), 0)), vec!["pong [1, 2]"]);
}

fn close_result(r: Reply) -> Result<(), String> {
    match r.command {
        WorkerCommand::Close(result) => result,
        _ => panic!("not closed"),
    }
}

#[test]
fn connections_end() {
    let event = |e: SocketEvent| WorkerEvent::Socket(e);
    assert!(close_result(Worker::new().advance(event(SocketEvent::Close), 0)).is_ok());
    assert!(close_result(Worker::new().advance(event(SocketEvent::Ended), 0)).is_ok());
    assert_eq!(
        close_result(Worker::new().advance(event(SocketEvent::Failed("x".into())), 0)).unwrap_err(),
        "WebSocket error: x"
    );
    assert_eq!(
        close_result(building("j", None).advance(event(SocketEvent::Close), 0)).unwrap_err(),
        "Hub disconnected during build"
    );
    assert_eq!(
        close_result(building("j", None).advance(event(SocketEvent::Ended), 0)).unwrap_err(),
        "Hub disconnected during build"
    );
    // What else comes changes nothing.
    assert!(waits(&Worker::new().advance(event(SocketEvent::Unreadable), 0)));
    assert!(waits(&building("j", None).advance(event(SocketEvent::Failed("x".into())), 0)));
    assert!(waits(&building("j", None).advance(assign("k", None), 0)));
    assert_eq!(RECONNECT_SECS, 5);
}

#[test]
fn the_compiler_is_updated_on_request() {
    let mut w = Worker::new();
    let r = w.advance(hub(HubMessage::UpdatePerry {}), 0);
    assert!(matches!(r.command, WorkerCommand::Update));
    let outcome = UpdateOutcome { success: true, new_version: "2".into(), error: None };
    let r = w.advance(WorkerEvent::Updated { old_version: None, outcome }, 0);
    assert_eq!(said(&r), vec!["update true [] [2] None"]);
    assert!(waits(&r));
}

#[test]
fn the_worker_introduces_itself() {
    let config = |vars: Vec<(String, String)>| {
        WorkerConfig::from_env(&Environment { vars }, &vec![], &vec![])
    };
    let hello = |c: &WorkerConfig, host: Option<&str>| match worker_hello(
        c,
        &host.map(|h| h.to_string()),
        Some("1.2".into()),
    ) {
        Outgoing::Worker(WorkerMessage::WorkerHello { capabilities, name, secret, perry_version }) => {
            assert_eq!(capabilities, vec!["windows"]);
            assert_eq!(perry_version.as_deref(), Some("1.2"));
            (name, secret)
        }
        _ => panic!("no hello"),
    };
    let plain = config(vec![]);
    assert_eq!(hello(&plain, Some("host")), ("host".to_string(), None));
    assert_eq!(hello(&plain, None).0, "worker");
    let named = config(vec![
        ("PERRY_WORKER_NAME".into(), "me".into()),
        ("PERRY_HUB_WORKER_SECRET".into(), "s".into()),
    ]);
    assert_eq!(hello(&named, Some("host")), ("me".to_string(), Some("s".to_string())));
}

#[test]
fn versions_as_the_compiler_prints_them() {
    let printed = |out: &str, code: Option<i32>| {
        get_perry_version(&ToolRun::Exited { code, stdout: out.into(), stderr: "".into() })
    };
    assert_eq!(printed("perry 0.2.1\n", Some(0)).as_deref(), Some("0.2.1"));
    assert_eq!(printed("0.2.1", Some(0)).as_deref(), Some("0.2.1"));
    assert_eq!(printed("perry\n", Some(1)).as_deref(), Some("perry"));
    assert_eq!(printed(" \n", Some(0)), None);
    assert_eq!(get_perry_version(&ToolRun::NotRun("x".into())), None);
}

#[test]
fn sources_stand_three_levels_above_the_compiler() {
    let posix = |p: &str| source_dir(p, PathStyle::Posix);
    let windows = |p: &str| source_dir(p, PathStyle::Windows);
    assert_eq!(posix(COMPILER).as_deref(), Some("/src"));
    assert_eq!(posix("/usr/bin/perry").as_deref(), Some("/"));
    assert_eq!(posix("/src/./target//release/./perry/").as_deref(), Some("/src"));
    assert_eq!(posix("../target/release/perry").as_deref(), Some(".."));
    assert_eq!(posix("target/release/perry").as_deref(), Some(""));
    for none in ["perry", "", "release/perry", "./perry", "/perry", "/bin/perry", "/"] {
        assert_eq!(posix(none), None, "{none}");
    }
    assert_eq!(windows("C:\\src\\target/release\\perry.exe").as_deref(), Some("C:\\src"));
    assert_eq!(windows("C:\\target\\release\\perry.exe").as_deref(), Some("C:\\"));
    assert_eq!(windows("C:target\\release\\perry.exe").as_deref(), Some("C:"));
    assert_eq!(windows("C:\\release\\perry.exe"), None);
    assert_eq!(windows("perry"), None);
    // On the machine at hand paths are read as the standard library reads them.
    for p in [COMPILER, "perry", "a/b/c/d", "./a/b/", "a//b/./c", "/a/b/c/.", "a/../b/c/d"] {
        let up = |p: &std::path::Path| p.parent().map(|d| d.to_path_buf());
        let expected = up(std::path::Path::new(p)).and_then(|d| up(&d)).and_then(|d| up(&d));
        assert_eq!(
            source_dir(p, PathStyle::host()),
            expected.map(|d| d.to_str().unwrap().to_string())
        );
    }
}

#[test]
fn updates_pull_build_and_ask() {
    let ok = |out: &str| ToolRun::Exited { code: Some(0), stdout: out.into(), stderr: "".into() };
    let bad = || ToolRun::Exited { code: Some(1), stdout: "".into(), stderr: "err".into() };
    let gone = || ToolRun::NotRun("gone".into());
    let command = |u: &PerryUpdate| {
        u.action("cargo", "/p/perry").map(|c| format!("{} {}", c.program, c.args.join(" ")))
    };
    let outcome = |u: PerryUpdate| match u.phase {
        UpdatePhase::Finished(o) => (o.success, o.new_version, o.error),
        _ => panic!("not finished"),
    };
    let mut u = PerryUpdate::new(COMPILER, true, PathStyle::Posix);
    assert_eq!(u.src_dir, "/src");
    assert_eq!(command(&u).unwrap(), "git pull");
    u.advance(&ok(""));
    assert_eq!(
        command(&u).unwrap(),
        "cargo build --release -p perry -p perry-runtime -p perry-stdlib"
    );
    u.advance(&ok(""));
    assert_eq!(command(&u).unwrap(), "/p/perry --version");
    u.advance(&ok("perry 3\n"));
    assert!(command(&u).is_none());
    assert_eq!(outcome(u), (true, "3".to_string(), None));

    let failed = |runs: Vec<ToolRun>| {
        let mut u = PerryUpdate::new(COMPILER, true, PathStyle::Posix);
        for r in &runs {
            u.advance(r);
        }
        let (success, version, error) = outcome(u);
        assert!(!success && version.is_empty());
        error.unwrap()
    };
    assert_eq!(failed(vec![bad()]), "git pull failed: err");
    assert_eq!(failed(vec![gone()]), "git pull failed: gone");
    assert_eq!(failed(vec![ok(""), bad()]), "cargo build failed: err");
    assert_eq!(failed(vec![ok(""), gone()]), "cargo build failed: gone");
    let cannot = "Cannot determine perry source directory from binary path";
    assert_eq!(
        outcome(PerryUpdate::new("perry", true, PathStyle::Posix)),
        (false, String::new(), Some(cannot.to_string()))
    );
    assert_eq!(outcome(PerryUpdate::new(COMPILER, false, PathStyle::Posix)).2.unwrap(), cannot);
    // A compiler that does not say its version is still updated.
    let mut u = PerryUpdate::new(COMPILER, true, PathStyle::Posix);
    u.advance(&ok(""));
    u.advance(&ok(""));
    u.advance(&gone());
    assert_eq!(outcome(u), (true, String::new(), None));
}

#[test]
fn uploads() {
    let headers = upload_headers("a.exe", "abc", &Some("tok".into()));
    let expected: Vec<(String, String)> = [
        ("Content-Type", "text/plain"),
        ("x-artifact-name", "a.exe"),
        ("x-artifact-sha256", "abc"),
        ("x-artifact-target", "windows"),
        ("Authorization", "Bearer tok"),
    ]
    .iter()
    .map(|(n, v)| (n.to_string(), v.to_string()))
    .collect();
    assert_eq!(headers, expected);
    assert_eq!(upload_headers("a", "b", &None).len(), 4);
    assert_eq!(upload_body(b"test"), "dGVzdA==");
    assert_eq!(upload_body(b""), "");
    assert!(upload_outcome(&UploadEnd::Taken).is_ok());
    assert_eq!(
        upload_outcome(&UploadEnd::NotRead("x".into())).unwrap_err(),
        "Failed to read artifact: x"
    );
    assert_eq!(
        upload_outcome(&UploadEnd::NotSent("x".into())).unwrap_err(),
        "Artifact upload failed: x"
    );
    assert_eq!(
        upload_outcome(&UploadEnd::Refused { status: "500 Oops".into(), body: "b".into() }).unwrap_err(),
        "Hub returned HTTP 500 Oops for artifact upload: b"
    );
    assert_eq!(
        upload_outcome(&UploadEnd::NotUnderstood("x".into())).unwrap_err(),
        "Failed to parse upload response: x"
    );
}

#[test]
fn downloads() {
    assert!(download_headers(&None).is_empty());
    assert_eq!(
        download_headers(&Some("tok".into())),
        vec![("Authorization".to_string(), "Bearer tok".to_string())]
    );
    // What is received of what was sent is what was sent.
    let data: Vec<u8> = (0..=255).collect();
    let body = format!(" {}\n", upload_body(&data));
    assert_eq!(download_outcome(&DownloadEnd::Received(body)).unwrap(), data);
    assert!(download_outcome(&DownloadEnd::Received("%".into()))
        .unwrap_err()
        .starts_with("Failed to base64-decode tarball: "));
    assert_eq!(
        download_outcome(&DownloadEnd::NotSent("x".into())).unwrap_err(),
        "HTTP request failed: x"
    );
    assert_eq!(
        download_outcome(&DownloadEnd::Refused("404 Not Found".into())).unwrap_err(),
        "Hub returned HTTP 404 Not Found"
    );
    assert_eq!(
        download_outcome(&DownloadEnd::NotRead("x".into())).unwrap_err(),
        "Failed to read tarball response body: x"
    );
    assert_eq!(
        tarball_file("/tmp", "j", PathStyle::Posix),
        "/tmp/perry-worker-dl/j.tar.gz"
    );
    // An identifier is read as a path is.
    assert_eq!(tarball_file("/tmp", "/x", PathStyle::Posix), "/x.tar.gz");
    assert_eq!(tarball_file("D:\\t", "\\x", PathStyle::Windows), "D:\\x.tar.gz");
    assert_eq!(store_failure(false, "x"), "Failed to create download dir: x");
    assert_eq!(store_failure(true, "x"), "Failed to write tarball to disk: x");
}

#[test]
fn lines_of_output() {
    assert!(passes_line(LogStream::Stdout, true));
    assert!(passes_line(LogStream::Stderr, false));
    assert!(!passes_line(LogStream::Stderr, true));
    match log_line(StageName::Compiling, "hi", LogStream::Stderr) {
        ServerMessage::Log { stage, line, stream } => {
            assert_eq!((stage, line.as_str(), stream), (StageName::Compiling, "hi", LogStream::Stderr));
        }
        _ => panic!("no line"),
    }
    assert_eq!(ErrorCode::UploadTooLarge.text(), "UPLOAD_TOO_LARGE");
    assert_eq!(ErrorCode::InternalError.text(), "INTERNAL_ERROR");
}

#[test]
fn every_job_is_completed_once() {
    let mut w = Worker::new();
    let mut completed = Vec::new();
    let mut tell = |w: &mut Worker, event: WorkerEvent| {
        for m in w.advance(event, 1).sent {
            if let Outgoing::Complete { job_id, .. } = m {
                completed.push(job_id);
            }
        }
    };
    tell(&mut w, assign("a", None));
    tell(&mut w, WorkerEvent::Downloaded(Err("x".into())));
    tell(&mut w, assign("b", None));
    tell(&mut w, WorkerEvent::Downloaded(Ok("/t".into())));
    tell(&mut w, assign("not taken", None));
    tell(&mut w, WorkerEvent::BuildOver(Some(Err("x".into()))));
    tell(&mut w, WorkerEvent::BuildOver(Some(Err("again".into()))));
    tell(&mut w, WorkerEvent::Progress(None));
    tell(&mut w, WorkerEvent::Progress(None));
    tell(&mut w, assign("c", None));
    tell(&mut w, WorkerEvent::Downloaded(Ok("/t".into())));
    tell(&mut w, WorkerEvent::Progress(None));
    tell(&mut w, WorkerEvent::BuildOver(Some(Ok("/a".into()))));
    tell(&mut w, inspected());
    tell(&mut w, WorkerEvent::Removed);
    tell(&mut w, assign("d", None));
    assert_eq!(completed, vec!["a", "b", "c"]);
}
