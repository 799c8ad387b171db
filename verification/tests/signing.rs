//! Signing, step by step.
use perry_ship_windows::paths::PathStyle;
use perry_ship_windows::process::ToolRun;
use perry_ship_windows::queue::job::BuildCredentials;
use perry_ship_windows::signing::provider::{
    DownloadEnd, ProviderSetup, SetupAction, SetupEvent,
};
use perry_ship_windows::signing::windows::{
    azure_tool_candidates, sign_executable, signing_method, which_azure_sign_tool, SignAction,
    SignEvent, SignRun, SigningMethod,
};

fn none() -> BuildCredentials {
    BuildCredentials {
        windows_pfx_base64: None,
        windows_pfx_password: None,
        windows_timestamp_url: None,
        azure_tenant_id: None,
        azure_client_id: None,
        azure_client_secret: None,
        azure_signing_endpoint: None,
        azure_signing_account: None,
        azure_signing_profile: None,
        gcloud_kms_key: None,
        gcloud_kms_cert_base64: None,
        gcloud_service_account_base64: None,
    }
}

fn pfx() -> BuildCredentials {
    BuildCredentials {
        windows_pfx_base64: Some(" dGVzdA==\n".into()),
        windows_pfx_password: Some("pw".into()),
        ..none()
    }
}

fn azure() -> BuildCredentials {
    BuildCredentials {
        azure_tenant_id: Some("t".into()),
        azure_client_id: Some("c".into()),
        azure_client_secret: Some("s".into()),
        azure_signing_endpoint: Some("e".into()),
        azure_signing_account: Some("a".into()),
        azure_signing_profile: Some("p".into()),
        windows_timestamp_url: Some("http://ts".into()),
        ..none()
    }
}

fn kms() -> BuildCredentials {
    BuildCredentials {
        gcloud_kms_key: Some("key".into()),
        gcloud_kms_cert_base64: Some("Y2VydA==".into()),
        gcloud_service_account_base64: Some("e30=".into()),
        ..none()
    }
}

fn start(c: &BuildCredentials) -> Result<SignRun, String> {
    sign_executable(
        "/b/App.exe",
        c,
        "/t",
        &Some("signtool".into()),
        &Some("ast".into()),
        PathStyle::Posix,
    )
}

fn exited(code: i32) -> SignEvent {
    SignEvent::Ran(ToolRun::Exited { code: Some(code), stdout: "out".into(), stderr: "err".into() })
}

fn not_run() -> SignEvent {
    SignEvent::Ran(ToolRun::NotRun("gone".into()))
}

fn did() -> SignEvent {
    SignEvent::Did(Ok(()))
}

fn finished(run: &SignRun) -> Result<(), String> {
    match run.action() {
        SignAction::Finish(r) => r.clone(),
        _ => panic!("not finished"),
    }
}

/// The secrets are removed before the signing ends.
fn removed(run: &mut SignRun) {
    assert!(matches!(run.action(), SignAction::Remove { .. }));
    run.advance(did());
}

#[test]
fn certificates_come_before_azure_and_azure_before_kms() {
    assert_eq!(signing_method(&pfx()), Some(SigningMethod::Pfx));
    assert_eq!(signing_method(&azure()), Some(SigningMethod::Azure));
    assert_eq!(signing_method(&kms()), Some(SigningMethod::GcloudKms));
    assert_eq!(signing_method(&none()), None);
    let all = BuildCredentials { windows_pfx_base64: Some("eA==".into()), ..azure() };
    assert_eq!(signing_method(&all), Some(SigningMethod::Pfx));
    let both = BuildCredentials {
        gcloud_kms_key: Some("k".into()),
        gcloud_kms_cert_base64: Some("".into()),
        gcloud_service_account_base64: Some("".into()),
        ..azure()
    };
    assert_eq!(signing_method(&both), Some(SigningMethod::Azure));
}

#[test]
fn what_cannot_be_signed() {
    assert_eq!(
        start(&none()).err().unwrap(),
        "No signing credentials provided (need PFX, Azure Trusted Signing, or Google Cloud KMS)"
    );
    let without = |c: &BuildCredentials| {
        sign_executable("/f", c, "/t", &None, &None, PathStyle::Posix).err().unwrap()
    };
    assert_eq!(without(&pfx()), "signtool.exe not found. Install Windows SDK.");
    assert_eq!(without(&kms()), "signtool.exe not found. Install Windows SDK.");
    assert_eq!(
        without(&azure()),
        "AzureSignTool.exe not found. Install via: dotnet tool install -g AzureSignTool"
    );
    let bad = BuildCredentials { windows_pfx_base64: Some("?".into()), ..none() };
    assert!(start(&bad).err().unwrap().starts_with("Invalid PFX base64: "));
}

#[test]
fn signing_with_a_certificate() {
    let mut run = start(&pfx()).unwrap();
    match run.action() {
        SignAction::Write { path, data } => {
            assert_eq!(path, "/t/signing.pfx");
            assert_eq!(data, b"test");
        }
        _ => panic!("the certificate comes first"),
    }
    run.advance(did());
    match run.action() {
        SignAction::Run(c) => {
            assert_eq!(c.program, "signtool");
            assert_eq!(
                c.args,
                vec![
                    "sign", "/f", "/t/signing.pfx", "/p", "pw", "/fd", "sha256", "/tr",
                    "http://timestamp.digicert.com", "/td", "sha256", "/b/App.exe",
                ]
            );
        }
        _ => panic!("then the tool"),
    }
    run.advance(exited(0));
    match run.action() {
        SignAction::Remove { wiped, other } => {
            assert_eq!(wiped, "/t/signing.pfx");
            assert!(other.is_none());
        }
        _ => panic!("then the certificate goes"),
    }
    run.advance(did());
    match run.action() {
        SignAction::Run(c) => assert_eq!(c.args, vec!["verify", "/pa", "/b/App.exe"]),
        _ => panic!("then the signature is verified"),
    }
    // A signature that does not verify is no failure.
    run.advance(exited(1));
    assert!(finished(&run).is_ok());
    run.advance(exited(0));
    assert!(finished(&run).is_ok());
}

#[test]
fn failures_with_a_certificate() {
    let mut run = start(&pfx()).unwrap();
    run.advance(SignEvent::Did(Err("full".into())));
    removed(&mut run);
    assert_eq!(finished(&run).unwrap_err(), "Failed to write temp PFX: full");

    let mut run = start(&pfx()).unwrap();
    run.advance(did());
    run.advance(not_run());
    removed(&mut run);
    assert_eq!(finished(&run).unwrap_err(), "Failed to run signtool sign: gone");

    let mut run = start(&pfx()).unwrap();
    run.advance(did());
    run.advance(exited(2));
    assert!(matches!(run.action(), SignAction::Remove { .. }));
    run.advance(SignEvent::Did(Err("ignored".into())));
    assert_eq!(finished(&run).unwrap_err(), "signtool sign failed (exit 2):\nout\nerr");

    let mut run = start(&pfx()).unwrap();
    run.advance(did());
    run.advance(exited(0));
    run.advance(did());
    run.advance(not_run());
    assert_eq!(finished(&run).unwrap_err(), "Failed to run signtool verify: gone");
}

#[test]
fn signing_with_azure() {
    let mut run = start(&azure()).unwrap();
    match run.action() {
        SignAction::Run(c) => {
            assert_eq!(c.program, "ast");
            assert_eq!(
                c.args,
                vec![
                    "sign", "-kvu", "e", "-kvi", "c", "-kvt", "t", "-kvs", "s", "-kvc", "a",
                    "-kvcn", "p", "-tr", "http://ts", "-td", "sha256", "/b/App.exe",
                ]
            );
        }
        _ => panic!("only the tool is run"),
    }
    run.advance(exited(0));
    assert!(finished(&run).is_ok());
    let mut run = start(&azure()).unwrap();
    run.advance(exited(1));
    assert_eq!(finished(&run).unwrap_err(), "AzureSignTool failed (exit 1):\nout\nerr");
    let mut run = start(&azure()).unwrap();
    run.advance(not_run());
    assert_eq!(finished(&run).unwrap_err(), "Failed to run AzureSignTool: gone");
}

#[test]
fn signing_with_kms() {
    let mut run = start(&kms()).unwrap();
    assert!(matches!(run.action(), SignAction::EnsureProvider));
    run.advance(did());
    match run.action() {
        SignAction::Write { path, data } => {
            assert_eq!((path, data.as_slice()), ("/t/kms_signing.crt", b"cert".as_slice()));
        }
        _ => panic!("the certificate is written"),
    }
    run.advance(did());
    match run.action() {
        SignAction::Write { path, data } => {
            assert_eq!((path, data.as_slice()), ("/t/gcp_sa_key.json", b"{}".as_slice()));
        }
        _ => panic!("the key is written"),
    }
    run.advance(did());
    match run.action() {
        SignAction::Run(c) => {
            assert_eq!(
                c.args,
                vec![
                    "sign", "/fd", "SHA256", "/tr", "http://timestamp.digicert.com", "/td",
                    "SHA256", "/f", "/t/kms_signing.crt", "/csp", "Google Cloud KMS Provider",
                    "/kc", "key", "/b/App.exe",
                ]
            );
            assert_eq!(
                c.env,
                vec![("GOOGLE_APPLICATION_CREDENTIALS".to_string(), "/t/gcp_sa_key.json".to_string())]
            );
        }
        _ => panic!("the tool is run"),
    }
    run.advance(exited(0));
    match run.action() {
        SignAction::Remove { wiped, other } => {
            assert_eq!(wiped, "/t/gcp_sa_key.json");
            assert_eq!(other, Some("/t/kms_signing.crt"));
        }
        _ => panic!("the secrets go"),
    }
    run.advance(did());
    run.advance(exited(0));
    assert!(finished(&run).is_ok());
}

#[test]
fn failures_with_kms() {
    let mut run = start(&kms()).unwrap();
    run.advance(SignEvent::Did(Err("no provider".into())));
    assert_eq!(finished(&run).unwrap_err(), "no provider");

    let bad_cert = BuildCredentials { gcloud_kms_cert_base64: Some("?".into()), ..kms() };
    let mut run = start(&bad_cert).unwrap();
    run.advance(did());
    assert!(finished(&run).unwrap_err().starts_with("Invalid cert base64: "));

    let mut run = start(&kms()).unwrap();
    run.advance(did());
    run.advance(SignEvent::Did(Err("full".into())));
    removed(&mut run);
    assert_eq!(finished(&run).unwrap_err(), "Failed to write temp cert: full");

    let bad_key = BuildCredentials { gcloud_service_account_base64: Some("?".into()), ..kms() };
    let mut run = start(&bad_key).unwrap();
    run.advance(did());
    run.advance(did());
    removed(&mut run);
    assert!(finished(&run).unwrap_err().starts_with("Invalid service account base64: "));

    let mut run = start(&kms()).unwrap();
    run.advance(did());
    run.advance(did());
    run.advance(SignEvent::Did(Err("full".into())));
    removed(&mut run);
    assert_eq!(
        finished(&run).unwrap_err(),
        "Failed to write temp service account key: full"
    );

    let mut run = start(&kms()).unwrap();
    for _ in 0..3 {
        run.advance(did());
    }
    run.advance(not_run());
    removed(&mut run);
    assert_eq!(finished(&run).unwrap_err(), "Failed to run signtool with KMS: gone");

    let mut run = start(&kms()).unwrap();
    for _ in 0..3 {
        run.advance(did());
    }
    run.advance(exited(7));
    run.advance(did());
    assert_eq!(finished(&run).unwrap_err(), "signtool KMS sign failed (exit 7):\nout\nerr");
}

fn ran(code: i32) -> SetupEvent {
    SetupEvent::Ran(ToolRun::Exited { code: Some(code), stdout: "".into(), stderr: "err".into() })
}

fn setup_result(s: &ProviderSetup) -> Result<(), String> {
    match s.action() {
        SetupAction::Finish(r) => r,
        _ => panic!("not finished"),
    }
}

#[test]
fn a_registered_provider_is_kept() {
    let mut s = ProviderSetup::new("/tmp", PathStyle::Posix);
    match s.action() {
        SetupAction::Run(c) => {
            assert_eq!(c.program, "reg");
            assert_eq!(c.args[0], "query");
            assert!(c.args[1].ends_with("\\Providers\\Google Cloud KMS Provider"));
        }
        _ => panic!("the registry is asked"),
    }
    s.advance(ran(0));
    assert!(setup_result(&s).is_ok());
}

#[test]
fn a_missing_provider_is_installed() {
    let mut s = ProviderSetup::new("/tmp", PathStyle::Posix);
    s.advance(ran(1));
    match s.action() {
        SetupAction::Download { url, to } => {
            assert!(url.ends_with("/cng-v1.3/kmscng-1.3-windows-amd64.zip"));
            assert_eq!(to, "/tmp/kmscng.zip");
        }
        _ => panic!("it is downloaded"),
    }
    s.advance(SetupEvent::Downloaded(DownloadEnd::Written));
    match s.action() {
        SetupAction::Extract { zip, dir } => {
            assert_eq!((zip.as_str(), dir.as_str()), ("/tmp/kmscng.zip", "/tmp/kmscng"));
        }
        _ => panic!("it is unpacked"),
    }
    s.advance(SetupEvent::Did(Ok(())));
    let msi = "/tmp/kmscng/kmscng-1.3-windows-amd64/kmscng.msi";
    assert!(matches!(s.action(), SetupAction::LookFor(p) if p == msi));
    s.advance(SetupEvent::Found(true));
    match s.action() {
        SetupAction::Run(c) => {
            assert_eq!(c.program, "msiexec");
            assert_eq!(c.args, vec!["/i", msi, "/qn"]);
        }
        _ => panic!("it is installed"),
    }
    s.advance(ran(0));
    assert!(matches!(s.action(), SetupAction::Remove { .. }));
    s.advance(SetupEvent::Did(Ok(())));
    assert!(setup_result(&s).is_ok());
}

#[test]
fn failures_of_the_installation() {
    let at = |steps: Vec<SetupEvent>| {
        let mut s = ProviderSetup::new("/tmp", PathStyle::Posix);
        for e in steps {
            s.advance(e);
        }
        setup_result(&s).unwrap_err()
    };
    let gone = || SetupEvent::Ran(ToolRun::NotRun("gone".into()));
    let got = |end: DownloadEnd| SetupEvent::Downloaded(end);
    assert_eq!(at(vec![gone()]), "Failed to check CNG provider registry: gone");
    assert_eq!(
        at(vec![ran(1), got(DownloadEnd::NotReached("x".into()))]),
        "Failed to download CNG provider: x"
    );
    assert_eq!(
        at(vec![ran(1), got(DownloadEnd::NotRead("x".into()))]),
        "Failed to read CNG provider download: x"
    );
    assert_eq!(
        at(vec![ran(1), got(DownloadEnd::NotWritten("x".into()))]),
        "Failed to write CNG provider zip: x"
    );
    let written = || got(DownloadEnd::Written);
    assert_eq!(at(vec![ran(1), written(), SetupEvent::Did(Err("bad zip".into()))]), "bad zip");
    let ok = || SetupEvent::Did(Ok(()));
    assert_eq!(
        at(vec![ran(1), written(), ok(), SetupEvent::Found(false)]),
        "MSI not found at: /tmp/kmscng/kmscng-1.3-windows-amd64/kmscng.msi"
    );
    let to_install = || vec![ran(1), written(), ok(), SetupEvent::Found(true)];
    let mut steps = to_install();
    steps.push(gone());
    assert_eq!(at(steps), "Failed to run msiexec: gone");
    let mut steps = to_install();
    steps.extend([ran(3), ok()]);
    assert_eq!(at(steps), "CNG provider install failed: err");
}

#[test]
fn azure_sign_tool_is_looked_for_on_the_path() {
    let dirs: Vec<String> = vec!["/a".into(), "/b".into()];
    let posix = PathStyle::Posix;
    assert_eq!(
        azure_tool_candidates(&dirs, posix),
        vec![
            "/a/AzureSignTool.exe",
            "/b/AzureSignTool.exe",
            "/a/azuresigntool.exe",
            "/b/azuresigntool.exe",
            "/a/AzureSignTool",
            "/b/AzureSignTool",
        ]
    );
    let existing: Vec<String> = vec!["/a/AzureSignTool".into(), "/b/AzureSignTool.exe".into()];
    assert_eq!(
        which_azure_sign_tool(&dirs, &existing, posix).as_deref(),
        Some("/b/AzureSignTool.exe")
    );
    assert!(which_azure_sign_tool(&dirs, &vec![], posix).is_none());
}
