//! Containers, the compiler, and builds from beginning to end.
use perry_ship_windows::build::cleanup::{build_dir, create_build_tmpdir};
use perry_ship_windows::build::compiler::{
    command_line, compile, compile_outcome, entry_path, isolated_outcome, CompilerEnd,
};
use perry_ship_windows::build::docker::{
    container_args, container_outcome, isolated_step, kill_args, needs_kill, ContainerEnd,
    ContainerMount, ContainerRun, StepDirs,
};
use perry_ship_windows::build::pipeline::{
    check_entry_path, distribution, execute_build, metadata_path, unpack_precompiled_bundle, Build,
    BuildAction, BuildEvent, BuildRequest, BundleFiles, Distribution,
};
use perry_ship_windows::config::{DockerConfig, Environment, WorkerConfig};
use perry_ship_windows::paths::{join_path, path_lies_in, PathStyle};
use perry_ship_windows::process::ToolCommand;
use perry_ship_windows::queue::job::{BuildCredentials, BuildManifest};
use perry_ship_windows::ws::messages::{ServerMessage, StageName};

fn list(names: &[&str]) -> Vec<String> {
    names.iter().map(|n| n.to_string()).collect()
}

fn manifest() -> BuildManifest {
    BuildManifest {
        app_name: "App".into(),
        bundle_id: "com.test.app".into(),
        version: "1.0.0".into(),
        short_version: None,
        entry: "src/main.ts".into(),
        icon: None,
        targets: vec!["windows".into()],
        category: None,
        minimum_os_version: None,
        entitlements: None,
        windows_distribute: None,
        windows_uac_level: None,
        windows_dpi_aware: None,
        windows_file_description: None,
        windows_company_name: None,
        windows_copyright: None,
    }
}

fn credentials() -> BuildCredentials {
    BuildCredentials {
        windows_pfx_base64: None,
        windows_pfx_password: None,
        windows_timestamp_url: None,
        azure_tenant_id: None,
        azure_client_id: None,
        azure_client_secret: None,
        azure_signing_endpoint: None,
        azure_signing_account: None,
        azure_signing_profile: None,
        gcloud_kms_key: None,
        gcloud_kms_cert_base64: None,
        gcloud_service_account_base64: None,
    }
}

fn request(m: BuildManifest) -> BuildRequest {
    BuildRequest {
        manifest: m,
        credentials: credentials(),
        tarball_path: "/dl/j1.tar.gz".into(),
        job_id: "j1".into(),
    }
}

fn docker() -> DockerConfig {
    WorkerConfig::from_env(&Environment { vars: vec![] }, &vec![], &vec![]).docker
}

#[test]
fn container_arguments() {
    let run = ContainerRun {
        name: "n".into(),
        image: "img".into(),
        isolation: "process".into(),
        mounts: vec![
            ContainerMount { host_path: "C:\\a".into(), container_path: "C:\\b".into(), read_only: true },
            ContainerMount { host_path: "C:\\c".into(), container_path: "C:\\d".into(), read_only: false },
        ],
        working_dir: Some("C:\\w".into()),
        env_vars: vec![("K".into(), "v".into())],
        command: "echo hi".into(),
        timeout: 600,
        network: false,
    };
    assert_eq!(
        container_args(&run),
        vec![
            "run", "--isolation=process", "--rm", "--name=n", "--network=none", "-v",
            "C:\\a:C:\\b:ro", "-v", "C:\\c:C:\\d", "-w", "C:\\w", "-e", "K=v", "img", "cmd", "/c",
            "echo hi",
        ]
    );
    let open = ContainerRun {
        mounts: vec![],
        working_dir: None,
        env_vars: vec![],
        network: true,
        ..run
    };
    assert_eq!(
        container_args(&open),
        vec!["run", "--isolation=process", "--rm", "--name=n", "img", "cmd", "/c", "echo hi"]
    );
    assert_eq!(kill_args("n"), vec!["kill", "n"]);
}

#[test]
fn isolated_steps_have_no_network() {
    let dirs = StepDirs { writable: "/t/output", sources: Some("/t/project") };
    let run = isolated_step(&docker(), "compile", "j1", &dirs, "/t/project", "perry compile");
    assert_eq!(run.name, "perry-compile-j1");
    assert!(!run.network);
    assert_eq!(run.timeout, 600);
    assert_eq!(run.mounts[0].host_path, "/t/output");
    assert_eq!(run.mounts[5].host_path, "/t/project");
    assert_eq!(run.mounts.len(), 6);
    assert!(!run.mounts[0].read_only);
    assert!(run.mounts[1..].iter().all(|m| m.read_only && m.host_path == m.container_path));
    let args = container_args(&run);
    assert!(args.contains(&"--network=none".to_string()));
    assert!(args.contains(&"--rm".to_string()));
}

#[test]
fn container_outcomes() {
    let dirs = StepDirs { writable: "/t", sources: None };
    let run = isolated_step(&docker(), "s", "j", &dirs, "/t", "c");
    assert_eq!(run.mounts.len(), 5);
    let none: Vec<String> = vec![];
    let of = |end: &ContainerEnd, cancelled: bool, err: &Vec<String>, out: &Vec<String>| {
        container_outcome(&run, end, cancelled, err, out)
    };
    assert!(of(&ContainerEnd::Exited(Some(0)), false, &none, &none).is_ok());
    assert_eq!(
        of(&ContainerEnd::Exited(Some(0)), true, &none, &none).unwrap_err(),
        "Build cancelled"
    );
    assert_eq!(
        of(&ContainerEnd::Exited(None), false, &list(&["e1", "e2"]), &list(&["o"])).unwrap_err(),
        "Container exited with code -1\ne1\ne2\no"
    );
    assert_eq!(
        of(&ContainerEnd::Exited(Some(3)), false, &none, &none).unwrap_err(),
        "Container exited with code 3"
    );
    assert_eq!(
        of(&ContainerEnd::TimedOut, true, &none, &none).unwrap_err(),
        "Container timed out after 600s"
    );
    assert_eq!(
        of(&ContainerEnd::WaitFailed("x".into()), false, &none, &none).unwrap_err(),
        "Failed to wait for container: x"
    );
    assert_eq!(
        of(&ContainerEnd::NotStarted("x".into()), false, &none, &none).unwrap_err(),
        "Failed to spawn docker: x"
    );
    assert!(needs_kill(Some(&ContainerEnd::TimedOut), false));
    assert!(!needs_kill(Some(&ContainerEnd::Exited(None)), true));
    assert!(needs_kill(None, true));
    assert!(!needs_kill(None, false));
}

#[test]
fn the_compiler_is_run_on_the_entry() {
    let m = manifest();
    let project: Result<String, String> = Ok("/t/project".into());
    let inside: Result<String, String> = Ok("/t/project/src/main.ts".into());
    let run = |p: &Result<String, String>, e: &Result<String, String>, t: Option<&str>| {
        compile(&m, "perry", "/t/project", "/t/output/App.exe", t, p, e, PathStyle::Posix)
    };
    let command = run(&project, &inside, Some("windows")).unwrap();
    assert_eq!(command.program, "perry");
    assert_eq!(
        command.args,
        vec!["compile", "/t/project/src/main.ts", "-o", "/t/output/App.exe", "--target", "windows"]
    );
    assert_eq!(
        command_line(&command),
        "perry compile /t/project/src/main.ts -o /t/output/App.exe --target windows"
    );
    assert_eq!(run(&project, &inside, None).unwrap().args.len(), 4);
    assert_eq!(
        run(&Err("a".into()), &Err("b".into()), None).err().unwrap(),
        "Failed to canonicalize project dir: a"
    );
    assert_eq!(
        run(&project, &Err("b".into()), None).err().unwrap(),
        "Entry file not found or inaccessible: b"
    );
    assert_eq!(
        run(&project, &Ok("/t/project2/main.ts".into()), None).err().unwrap(),
        "Entry path escapes project directory: src/main.ts"
    );
    assert_eq!(entry_path(&m, "/t/project", PathStyle::Posix), "/t/project/src/main.ts");
}

#[test]
fn arguments_with_spaces_are_quoted() {
    let mut m = manifest();
    m.entry = "my app.ts".into();
    let p: Result<String, String> = Ok("C:\\p".into());
    let e: Result<String, String> = Ok("C:\\p\\my app.ts".into());
    let command =
        compile(&m, "C:\\Program Files\\perry.exe", "C:\\p", "C:\\o.exe", None, &p, &e, PathStyle::Windows)
            .unwrap();
    assert_eq!(
        command_line(&command),
        "\"C:\\Program Files\\perry.exe\" compile \"C:\\p\\my app.ts\" -o C:\\o.exe"
    );
}

#[test]
fn arguments_mean_nothing_to_the_shell() {
    let line = |arg: &str| {
        command_line(&ToolCommand { program: "p".into(), args: vec![arg.into()], env: vec![] })
    };
    assert_eq!(line("src/a-b_c.1\\x:y"), "p src/a-b_c.1\\x:y");
    assert_eq!(line(""), "p \"\"");
    assert_eq!(line("src/a&b.ts"), "p \"src/a&b.ts\"");
    assert_eq!(line("(a|b)^<c>"), "p \"(a|b)^<c>\"");
    assert_eq!(line("100%x"), "p \"100\"^%\"x\"");
    assert_eq!(line("a\"b"), "p \"a\"\\^\"\"b\"");
    // Backslashes before a quotation mark are doubled, others are not.
    assert_eq!(line("a b\\"), "p \"a b\\\\\"");
    assert_eq!(line("a\\b c"), "p \"a\\b c\"");
    assert_eq!(line("\\\\\"x"), "p \"\\\\\\\\\"\\^\"\"x\"");
}

#[test]
fn a_container_has_to_leave_the_output() {
    assert!(isolated_outcome(Ok(()), true).is_ok());
    assert_eq!(isolated_outcome(Ok(()), false).unwrap_err(), "Compiler produced no output binary");
    assert_eq!(isolated_outcome(Err("x".into()), true).unwrap_err(), "x");
    assert_eq!(isolated_outcome(Err("x".into()), false).unwrap_err(), "x");
}

#[test]
fn compiler_outcomes() {
    let none: Vec<String> = vec![];
    let exited = |code: Option<i32>| CompilerEnd::Exited(code);
    assert!(compile_outcome(&exited(Some(0)), false, &none, &none, true).is_ok());
    assert_eq!(
        compile_outcome(&exited(Some(0)), false, &none, &none, false).unwrap_err(),
        "Compiler produced no output binary"
    );
    assert_eq!(
        compile_outcome(&exited(Some(1)), true, &none, &none, true).unwrap_err(),
        "Build cancelled"
    );
    assert_eq!(
        compile_outcome(&exited(Some(1)), false, &list(&["bad"]), &none, true).unwrap_err(),
        "perry compile exited with code 1\nbad"
    );
    assert_eq!(
        compile_outcome(&exited(None), false, &none, &list(&["a", "b"]), true).unwrap_err(),
        "perry compile exited with code -1\na\nb"
    );
    assert_eq!(
        compile_outcome(&CompilerEnd::NotStarted("x".into()), false, &none, &none, true).unwrap_err(),
        "Failed to spawn perry: x"
    );
    assert_eq!(
        compile_outcome(&CompilerEnd::WaitFailed("x".into()), false, &none, &none, true).unwrap_err(),
        "Failed to wait for perry: x"
    );
}

#[test]
fn builds_work_in_directories_of_their_own() {
    let a = create_build_tmpdir("/tmp", PathStyle::Posix);
    let b = create_build_tmpdir("/tmp", PathStyle::Posix);
    assert!(a.starts_with("/tmp/perry-build-"));
    assert_eq!(a.len(), "/tmp/perry-build-".len() + 36);
    assert_ne!(a, b);
    let id = uuid::Uuid::parse_str(&a["/tmp/perry-build-".len()..]).unwrap();
    assert_eq!(id.get_version_num(), 4);
    assert_eq!(build_dir("C:\\t", "x", PathStyle::Windows), "C:\\t\\perry-build-x");
}

#[test]
fn unsafe_entries_of_archives_are_refused() {
    let posix = PathStyle::Posix;
    assert!(check_entry_path("src/main.ts", posix).is_ok());
    assert!(check_entry_path("./a", posix).is_ok());
    for path in ["../x", "a/../../x", "/etc/passwd", ".."] {
        assert_eq!(
            check_entry_path(path, posix).unwrap_err(),
            format!("Tarball contains unsafe path (path traversal rejected): {path}")
        );
    }
    assert!(check_entry_path("..\\x", PathStyle::Windows).is_err());
    assert!(check_entry_path("C:\\x", PathStyle::Windows).is_err());
}

#[test]
fn precompiled_bundles() {
    let posix = PathStyle::Posix;
    assert_eq!(metadata_path("/p", posix), "/p/perry-precompiled/metadata.json");
    let files = BundleFiles { exe: true, ico: false, dll_dir: true };
    let bundle = unpack_precompiled_bundle("/p", "App", files, posix).unwrap();
    assert_eq!(bundle.exe_path, "/p/perry-precompiled/App.exe");
    assert!(bundle.ico_path.is_none());
    assert_eq!(bundle.dll_dir.as_deref(), Some("/p/perry-precompiled/dlls"));
    let files = BundleFiles { exe: false, ico: true, dll_dir: true };
    assert_eq!(
        unpack_precompiled_bundle("/p", "App", files, posix).unwrap_err(),
        "Precompiled bundle missing App.exe"
    );
}

#[test]
fn distribution_modes() {
    let of = |mode: Option<&str>| {
        let mut m = manifest();
        m.windows_distribute = mode.map(|s| s.to_string());
        distribution(&m)
    };
    assert_eq!(of(None), Distribution::Installer);
    assert_eq!(of(Some("installer")), Distribution::Installer);
    assert_eq!(of(Some("msix")), Distribution::Msix);
    assert_eq!(of(Some("portable")), Distribution::Portable);
    assert_eq!(of(Some("MSIX")), Distribution::Installer);
}

fn stages(sent: &[ServerMessage]) -> Vec<String> {
    sent.iter()
        .map(|m| match m {
            ServerMessage::Stage { stage, message } => format!("{}: {message}", stage.text()),
            ServerMessage::Progress { stage, percent, .. } => format!("{} {percent}%", stage.text()),
            _ => panic!("unexpected message"),
        })
        .collect()
}

/// Runs a build whose steps all succeed; signing fails.
fn run(r: &BuildRequest, precompiled: bool, isolation: bool) -> (Vec<String>, Vec<String>, Result<String, String>) {
    let mut b = execute_build(r, "/tmp", "/tmp/b", PathStyle::Posix).unwrap();
    let mut said = Vec::new();
    let mut did = Vec::new();
    loop {
        let event = match b.action(r, isolation) {
            BuildAction::CreateDir(p) => {
                did.push(format!("mkdir {p}"));
                BuildEvent::Did(Ok(()))
            }
            BuildAction::Extract { tarball, dest } => {
                did.push(format!("extract {tarball} {dest}"));
                BuildEvent::Did(Ok(()))
            }
            BuildAction::Detect { metadata } => {
                did.push(format!("detect {metadata}"));
                BuildEvent::Detected(precompiled)
            }
            BuildAction::Compile { project_dir, output, isolated } => {
                did.push(format!("compile {project_dir} {output} {isolated}"));
                BuildEvent::Did(Ok(()))
            }
            BuildAction::LookFor(p) => {
                did.push(format!("look for {p}"));
                BuildEvent::Found(true)
            }
            BuildAction::MakeIcon { source, output } => {
                did.push(format!("icon {source:?} {output}"));
                BuildEvent::Did(Ok(()))
            }
            BuildAction::Bundle { binary, ico, bundle_dir } => {
                did.push(format!("bundle {binary} {ico} {bundle_dir}"));
                BuildEvent::Did(Ok(()))
            }
            BuildAction::Unpack { exe, ico, dll_dir } => {
                did.push(format!("unpack {exe} {ico} {dll_dir}"));
                BuildEvent::Unpacked(BundleFiles { exe: true, ico: true, dll_dir: false })
            }
            BuildAction::Copy { from, to } => {
                did.push(format!("copy {from} {to}"));
                BuildEvent::Did(Ok(()))
            }
            BuildAction::CopyFiles { from, to } => {
                did.push(format!("copy files {from:?} {to}"));
                BuildEvent::Did(Ok(()))
            }
            BuildAction::CopyDirs { from, names, to } => {
                did.push(format!("copy dirs {from} {names:?} {to}"));
                BuildEvent::Did(Ok(()))
            }
            BuildAction::FinalizeBundle { bundle_dir, ico } => {
                did.push(format!("finalize {bundle_dir} {ico:?}"));
                BuildEvent::Did(Ok(()))
            }
            BuildAction::Sign { file } => {
                did.push(format!("sign {file}"));
                BuildEvent::Did(Err("no credentials".into()))
            }
            BuildAction::Package { kind, bundle_dir, output, isolated } => {
                did.push(format!("package {kind:?} {bundle_dir} {output} {isolated}"));
                BuildEvent::Did(Ok(()))
            }
            BuildAction::Cleanup(p) => {
                did.push(format!("cleanup {p}"));
                BuildEvent::Did(Ok(()))
            }
            BuildAction::Finish => break,
        };
        said.extend(stages(&b.advance(r, event, false)));
    }
    (said, did, b.result().unwrap())
}

#[test]
fn a_project_is_compiled_bundled_signed_and_packaged() {
    let mut m = manifest();
    m.icon = Some("icon.png".into());
    let (said, did, result) = run(&request(m), false, true);
    assert_eq!(
        did,
        vec![
            "mkdir /tmp/b",
            "mkdir /tmp/b/project",
            "extract /dl/j1.tar.gz /tmp/b/project",
            "detect /tmp/b/project/perry-precompiled/metadata.json",
            "mkdir /tmp/b/output",
            "compile /tmp/b/project /tmp/b/output/App.exe true",
            "look for /tmp/b/output/App.exe",
            "icon Some(\"/tmp/b/project/icon.png\") /tmp/b/app.ico",
            "bundle /tmp/b/output/App.exe /tmp/b/app.ico /tmp/b/bundle",
            "sign /tmp/b/bundle/App.exe",
            "package Installer /tmp/b/bundle /tmp/b/App-Setup.exe true",
            "sign /tmp/b/App-Setup.exe",
            "mkdir /tmp/perry-artifacts",
            "copy /tmp/b/App-Setup.exe /tmp/perry-artifacts/App-j1.exe",
            "cleanup /tmp/b",
        ]
    );
    assert_eq!(
        said,
        vec![
            "extracting: Project already extracted",
            "extracting 100%",
            "compiling: Compiling TypeScript to native",
            "compiling 100%",
            "generating_assets: Generating Windows icon",
            "generating_assets 100%",
            "bundling: Embedding resources into executable",
            "bundling 100%",
            "signing: Signing executable",
            "signing 100%",
            "packaging: Creating installer package",
            "packaging 100%",
            "publishing: Skipping store upload (not configured)",
            "publishing 100%",
        ]
    );
    assert_eq!(result.unwrap(), "/tmp/perry-artifacts/App-j1.exe");
}

#[test]
fn a_precompiled_project_is_not_compiled() {
    let mut m = manifest();
    m.windows_distribute = Some("portable".into());
    let (said, did, result) = run(&request(m), true, true);
    assert_eq!(
        did[4..],
        [
            "unpack /tmp/b/project/perry-precompiled/App.exe /tmp/b/project/perry-precompiled/app.ico /tmp/b/project/perry-precompiled/dlls",
            "mkdir /tmp/b/bundle",
            "copy /tmp/b/project/perry-precompiled/App.exe /tmp/b/bundle/App.exe",
            "copy files None /tmp/b/bundle",
            "copy dirs /tmp/b/project/perry-precompiled [\"assets\", \"logo\", \"resources\", \"images\"] /tmp/b/bundle",
            "finalize /tmp/b/bundle Some(\"/tmp/b/project/perry-precompiled/app.ico\")",
            "sign /tmp/b/bundle/App.exe",
            "package Portable /tmp/b/bundle /tmp/b/App.zip false",
            "mkdir /tmp/perry-artifacts",
            "copy /tmp/b/App.zip /tmp/perry-artifacts/App-j1.zip",
            "cleanup /tmp/b",
        ]
    );
    assert_eq!(said.len(), 14);
    assert_eq!(said[0], "extracting: Precompiled bundle extracted");
    assert_eq!(said[2], "compiling: Skipping compilation (precompiled by Linux worker)");
    assert_eq!(said[4], "generating_assets: Using precompiled assets");
    assert_eq!(said[10], "packaging: Creating portable package");
    assert_eq!(result.unwrap(), "/tmp/perry-artifacts/App-j1.zip");
}

#[test]
fn msix_packages_are_signed() {
    let mut m = manifest();
    m.windows_distribute = Some("msix".into());
    let (_, did, result) = run(&request(m), false, false);
    assert!(did.contains(&"package Msix /tmp/b/bundle /tmp/b/App.msix false".to_string()));
    assert!(did.contains(&"sign /tmp/b/App.msix".to_string()));
    assert_eq!(result.unwrap(), "/tmp/perry-artifacts/App-j1.msix");
}

/// A build that stands where the archive has been unpacked.
fn unpacked(r: &BuildRequest) -> Build {
    let mut b = execute_build(r, "/tmp", "/tmp/b", PathStyle::Posix).unwrap();
    for _ in 0..3 {
        assert!(b.advance(r, BuildEvent::Did(Ok(())), false).is_empty());
    }
    b
}

fn ended(b: &mut Build, r: &BuildRequest) -> String {
    assert!(matches!(b.action(r, false), BuildAction::Cleanup(_)));
    assert!(b.result().is_none());
    b.advance(r, BuildEvent::Did(Ok(())), false);
    assert!(matches!(b.action(r, false), BuildAction::Finish));
    b.result().unwrap().unwrap_err()
}

#[test]
fn a_cancelled_build_stops_at_the_next_stage() {
    let r = request(manifest());
    let mut b = unpacked(&r);
    let sent = b.advance(&r, BuildEvent::Detected(false), true);
    assert_eq!(sent.len(), 3);
    assert_eq!(ended(&mut b, &r), "Build cancelled");
    // Between stages nothing is looked at.
    let mut b = unpacked(&r);
    b.advance(&r, BuildEvent::Detected(false), false);
    b.advance(&r, BuildEvent::Did(Ok(())), true);
    assert!(matches!(b.action(&r, false), BuildAction::Compile { .. }));
    b.advance(&r, BuildEvent::Did(Ok(())), true);
    b.advance(&r, BuildEvent::Found(true), true);
    assert_eq!(ended(&mut b, &r), "Build cancelled");
}

#[test]
fn a_directory_that_is_not_made_is_not_removed() {
    let r = request(manifest());
    let mut b = execute_build(&r, "/tmp", "/tmp/b", PathStyle::Posix).unwrap();
    assert!(b.advance(&r, BuildEvent::Did(Err("x".into())), false).is_empty());
    assert!(matches!(b.action(&r, false), BuildAction::Finish));
    assert_eq!(b.result().unwrap().unwrap_err(), "Failed to create tmpdir: x");
}

#[test]
fn failures_before_detection_clean_up() {
    let r = request(manifest());
    for (steps, message) in [(1, "Failed to create project dir: x"), (2, "x")] {
        let mut b = execute_build(&r, "/tmp", "/tmp/b", PathStyle::Posix).unwrap();
        for _ in 0..steps {
            b.advance(&r, BuildEvent::Did(Ok(())), false);
        }
        assert!(b.advance(&r, BuildEvent::Did(Err("x".into())), false).is_empty());
        assert_eq!(ended(&mut b, &r), message);
    }
}

#[test]
fn failures_behind_detection_clean_up() {
    let r = request(manifest());
    let fail = || BuildEvent::Did(Err("x".into()));
    let ok = || BuildEvent::Did(Ok(()));
    let source = |before: Vec<BuildEvent>, last: BuildEvent| {
        let mut b = unpacked(&r);
        b.advance(&r, BuildEvent::Detected(false), false);
        for e in before {
            b.advance(&r, e, false);
        }
        b.advance(&r, last, false);
        ended(&mut b, &r)
    };
    assert_eq!(source(vec![], fail()), "Failed to create output dir: x");
    assert_eq!(source(vec![ok()], fail()), "x");
    assert_eq!(
        source(vec![ok(), ok()], BuildEvent::Found(false)),
        "Compiler produced no output .exe binary"
    );
    let to_icon = || vec![ok(), ok(), BuildEvent::Found(true)];
    assert_eq!(source(to_icon(), fail()), "x");
    let mut to_bundle = to_icon();
    to_bundle.push(ok());
    assert_eq!(source(to_bundle, fail()), "x");
    let to_package = || {
        let mut v = to_icon();
        v.extend([ok(), ok(), fail()]);
        v
    };
    assert_eq!(source(to_package(), fail()), "x");
    let mut to_dir = to_package();
    to_dir.extend([ok(), fail()]);
    assert_eq!(source(to_dir, fail()), "Failed to create artifact dir: x");
    let mut to_copy = to_package();
    to_copy.extend([ok(), fail(), ok()]);
    assert_eq!(source(to_copy, fail()), "Failed to copy artifact: x");

    let bundled = |before: usize, last: BuildEvent| {
        let mut b = unpacked(&r);
        b.advance(&r, BuildEvent::Detected(true), false);
        b.advance(&r, BuildEvent::Unpacked(BundleFiles { exe: true, ico: false, dll_dir: false }), false);
        for _ in 0..before {
            b.advance(&r, ok(), false);
        }
        b.advance(&r, last, false);
        b
    };
    assert_eq!(ended(&mut bundled(0, fail()), &r), "Failed to create bundle dir: x");
    assert_eq!(ended(&mut bundled(1, fail()), &r), "Failed to copy exe to bundle: x");
    assert_eq!(ended(&mut bundled(2, fail()), &r), "Failed to copy DLL: x");
    // Assets that cannot be copied are no failure.
    assert!(matches!(bundled(3, fail()).action(&r, false), BuildAction::FinalizeBundle { .. }));
    assert_eq!(ended(&mut bundled(4, fail()), &r), "x");
    let mut b = unpacked(&r);
    b.advance(&r, BuildEvent::Detected(true), false);
    let none = BundleFiles { exe: false, ico: true, dll_dir: true };
    assert!(b.advance(&r, BuildEvent::Unpacked(none), false).is_empty());
    assert_eq!(ended(&mut b, &r), "Precompiled bundle missing App.exe");
}

#[test]
fn events_that_answer_nothing_change_nothing() {
    let r = request(manifest());
    let mut b = unpacked(&r);
    assert!(b.advance(&r, BuildEvent::Found(true), true).is_empty());
    assert!(matches!(b.action(&r, false), BuildAction::Detect { .. }));
}

#[test]
fn bad_manifests_are_not_built() {
    let mut m = manifest();
    m.app_name = "../x".into();
    assert!(execute_build(&request(m), "/tmp", "/tmp/b", PathStyle::Posix).is_err());
}

#[test]
fn stage_names() {
    assert_eq!(StageName::Queued.text(), "queued");
    assert_eq!(StageName::GeneratingAssets.text(), "generating_assets");
    assert_eq!(StageName::Complete.text(), "complete");
}

#[test]
fn stage_names_differ() {
    let all = [
        StageName::Queued,
        StageName::Extracting,
        StageName::Compiling,
        StageName::GeneratingAssets,
        StageName::Bundling,
        StageName::Signing,
        StageName::Notarizing,
        StageName::Packaging,
        StageName::Uploading,
        StageName::Publishing,
        StageName::Complete,
    ];
    for (i, a) in all.iter().enumerate() {
        for (j, b) in all.iter().enumerate() {
            assert_eq!(a.text() == b.text(), i == j);
        }
    }
}

#[test]
fn artifacts_of_different_jobs_do_not_collide() {
    let (_, _, first) = run(&request(manifest()), false, false);
    let mut other = request(manifest());
    other.job_id = "j2".into();
    let (_, _, second) = run(&other, false, false);
    assert_ne!(first.unwrap(), second.unwrap());
}

#[test]
fn entries_that_pass_stay_inside() {
    let posix = PathStyle::Posix;
    for path in ["a", "a/b", "./c", "a/./b", "..a/b.."] {
        assert!(check_entry_path(path, posix).is_ok());
        assert!(path_lies_in(&join_path("/t/project", path, posix), "/t/project", posix));
    }
}

#[test]
fn isolation_is_for_compiling_and_packaging() {
    for isolation in [false, true] {
        let (_, did, _) = run(&request(manifest()), false, isolation);
        assert!(did.contains(&format!("compile /tmp/b/project /tmp/b/output/App.exe {isolation}")));
        assert!(did.contains(&format!(
            "package Installer /tmp/b/bundle /tmp/b/App-Setup.exe {isolation}"
        )));
    }
}
