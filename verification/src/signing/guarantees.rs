//! What holds of every signing, whichever way a file is signed.
use crate::encoding::base64_bytes;
use crate::paths::{below, PathStyle};
use crate::process::ToolRun;
use crate::queue::job::BuildCredentials;
use crate::signing::provider::{
    setup_next, ProviderSetup, SetupAction, SetupEvent, SetupPhaseView,
};
use crate::signing::windows::{
    sign_executable, sign_next, SignAction, SignEvent, SignPhaseView, SignRun, SigningMethod,
};
use crate::text::trimmed;
use vstd::prelude::*;

verus! {

/// What a signing tool reads behind a switch: behind the first argument come
/// pairs of a switch and its value, and the last argument is the file.
pub open spec fn switch_value(args: Seq<Seq<char>>, switch: Seq<char>, i: int) -> Option<Seq<char>>
    decreases args.len() - i,
{
    if i + 1 >= args.len() {
        None
    } else if args[i] == switch {
        Some(args[i + 1])
    } else {
        switch_value(args, switch, i + 2)
    }
}

/// The value that a signing tool is given for a switch.
pub open spec fn given(args: Seq<Seq<char>>, switch: Seq<char>) -> Option<Seq<char>> {
    switch_value(args, switch, 1)
}

/// The text of a field of the credentials.
pub open spec fn field(o: Option<String>) -> Option<Seq<char>> {
    match o {
        Some(s) => Some(s@),
        None => None,
    }
}

/// Whether this is how signing a file with those credentials and tools can begin.
pub open spec fn begins(
    file: &str,
    c: &BuildCredentials,
    tmpdir: &str,
    signtool: &Option<String>,
    azure_tool: &Option<String>,
    style: PathStyle,
    run: SignRun,
) -> bool {
    call_ensures(
        sign_executable,
        (file, c, tmpdir, signtool, azure_tool, style),
        Ok::<SignRun, String>(run),
    )
}

/// The timestamp server that a tool is asked to use.
pub open spec fn timestamp_server(run: SignRun) -> Option<Seq<char>> {
    if run.method == SigningMethod::Azure {
        given(run.sign@.args, "-tr"@)
    } else {
        given(run.sign@.args, "/tr"@)
    }
}

/// How a file is signed goes by the credentials: with the certificate if there
/// is one, else with Azure if all that it asks for is there, else with a key in
/// KMS.
pub proof fn lemma_method_goes_by_the_credentials(
    file: &str,
    c: &BuildCredentials,
    tmpdir: &str,
    signtool: &Option<String>,
    azure_tool: &Option<String>,
    style: PathStyle,
    run: SignRun,
)
    requires
        begins(file, c, tmpdir, signtool, azure_tool, style, run),
    ensures
        run.method == SigningMethod::Pfx <==> c.windows_pfx_base64 is Some,
        run.method == SigningMethod::Azure ==> c.azure_tenant_id is Some && c.azure_client_id
            is Some && c.azure_client_secret is Some && c.azure_signing_endpoint is Some
            && c.azure_signing_account is Some && c.azure_signing_profile is Some,
        run.method == SigningMethod::GcloudKms ==> c.gcloud_kms_key is Some
            && c.gcloud_kms_cert_base64 is Some && c.gcloud_service_account_base64 is Some,
        run.method == SigningMethod::GcloudKms ==> c.azure_tenant_id is None || c.azure_client_id
            is None || c.azure_client_secret is None || c.azure_signing_endpoint is None
            || c.azure_signing_account is None || c.azure_signing_profile is None,
        Some(run.sign@.program) == if run.method == SigningMethod::Azure {
            field(*azure_tool)
        } else {
            field(*signtool)
        },
{
}

/// Whichever way a file is signed, the tool is asked to use the timestamp server
/// that the credentials name, and DigiCert's only where they name none.
pub proof fn lemma_configured_timestamp_server_is_used(
    file: &str,
    c: &BuildCredentials,
    tmpdir: &str,
    signtool: &Option<String>,
    azure_tool: &Option<String>,
    style: PathStyle,
    run: SignRun,
)
    requires
        begins(file, c, tmpdir, signtool, azure_tool, style, run),
    ensures
        timestamp_server(run) == match c.windows_timestamp_url {
            Some(url) => Some(url@),
            None => Some("http://timestamp.digicert.com"@),
        },
{
    lemma_switches_differ();
    reveal_with_fuel(switch_value, 9);
}

/// Whichever way a file is signed, it is that file that the tool signs, with
/// SHA-256 for the file and for the timestamp, and that file whose signature is
/// verified afterwards.
pub proof fn lemma_the_file_is_signed_and_verified(
    file: &str,
    c: &BuildCredentials,
    tmpdir: &str,
    signtool: &Option<String>,
    azure_tool: &Option<String>,
    style: PathStyle,
    run: SignRun,
)
    requires
        begins(file, c, tmpdir, signtool, azure_tool, style, run),
    ensures
        run.sign@.args.len() > 1,
        run.sign@.args[0] == "sign"@,
        run.sign@.args.last() == file@,
        run.method == SigningMethod::Pfx ==> given(run.sign@.args, "/fd"@) == Some("sha256"@)
            && given(run.sign@.args, "/td"@) == Some("sha256"@),
        run.method == SigningMethod::GcloudKms ==> given(run.sign@.args, "/fd"@) == Some("SHA256"@)
            && given(run.sign@.args, "/td"@) == Some("SHA256"@),
        run.method == SigningMethod::Azure ==> given(run.sign@.args, "-td"@) == Some("sha256"@),
        run.method != SigningMethod::Azure ==> {
            &&& Some(run.verify@.program) == field(*signtool)
            &&& run.verify@.args.len() == 3
            &&& run.verify@.args[0] == "verify"@
            &&& run.verify@.args[1] == "/pa"@
            &&& run.verify@.args.last() == file@
        },
{
    lemma_switches_differ();
    reveal_with_fuel(switch_value, 9);
}

/// With a certificate, the tool is pointed at the file that the decoded
/// certificate is written to, and given its password.
pub proof fn lemma_certificate_signing_uses_the_certificate(
    file: &str,
    c: &BuildCredentials,
    tmpdir: &str,
    signtool: &Option<String>,
    azure_tool: &Option<String>,
    style: PathStyle,
    run: SignRun,
)
    requires
        begins(file, c, tmpdir, signtool, azure_tool, style, run),
        run.method == SigningMethod::Pfx,
    ensures
        given(run.sign@.args, "/f"@) == Some(run.cert_path@),
        given(run.sign@.args, "/p"@) == match c.windows_pfx_password {
            Some(password) => Some(password@),
            None => Some(""@),
        },
        run.cert matches Ok(data) ==> base64_bytes(trimmed(c.windows_pfx_base64->Some_0@)) == Ok::<
            Seq<u8>,
            Seq<char>,
        >(data@),
        run.sign@.env.len() == 0,
{
    lemma_switches_differ();
    reveal_with_fuel(switch_value, 9);
}

/// With a key in KMS, the tool is pointed at the file that the decoded
/// certificate is written to and at the key, and the environment at the file
/// that the decoded account is written to; the two files are different ones.
pub proof fn lemma_kms_signing_uses_the_key(
    file: &str,
    c: &BuildCredentials,
    tmpdir: &str,
    signtool: &Option<String>,
    azure_tool: &Option<String>,
    style: PathStyle,
    run: SignRun,
)
    requires
        begins(file, c, tmpdir, signtool, azure_tool, style, run),
        run.method == SigningMethod::GcloudKms,
    ensures
        given(run.sign@.args, "/f"@) == Some(run.cert_path@),
        given(run.sign@.args, "/csp"@) == Some("Google Cloud KMS Provider"@),
        given(run.sign@.args, "/kc"@) == field(c.gcloud_kms_key),
        run.sign@.env == seq![("GOOGLE_APPLICATION_CREDENTIALS"@, run.key_path@)],
        run.cert_path@ != run.key_path@,
        run.cert matches Ok(data) ==> base64_bytes(trimmed(c.gcloud_kms_cert_base64->Some_0@))
            == Ok::<Seq<u8>, Seq<char>>(data@),
        run.key matches Ok(data) ==> base64_bytes(
            trimmed(c.gcloud_service_account_base64->Some_0@),
        ) == Ok::<Seq<u8>, Seq<char>>(data@),
{
    reveal_strlit("kms_signing.crt");
    reveal_strlit("gcp_sa_key.json");
    assert(run.cert_path@.last() == 't');
    assert(run.key_path@.last() == 'n');
    lemma_switches_differ();
    reveal_with_fuel(switch_value, 9);
}

/// With Azure, each of the six parts of the credentials stands behind the switch
/// that is meant for it.
pub proof fn lemma_azure_signing_uses_the_credentials(
    file: &str,
    c: &BuildCredentials,
    tmpdir: &str,
    signtool: &Option<String>,
    azure_tool: &Option<String>,
    style: PathStyle,
    run: SignRun,
)
    requires
        begins(file, c, tmpdir, signtool, azure_tool, style, run),
        run.method == SigningMethod::Azure,
    ensures
        given(run.sign@.args, "-kvu"@) == field(c.azure_signing_endpoint),
        given(run.sign@.args, "-kvi"@) == field(c.azure_client_id),
        given(run.sign@.args, "-kvt"@) == field(c.azure_tenant_id),
        given(run.sign@.args, "-kvs"@) == field(c.azure_client_secret),
        given(run.sign@.args, "-kvc"@) == field(c.azure_signing_account),
        given(run.sign@.args, "-kvcn"@) == field(c.azure_signing_profile),
        run.sign@.env.len() == 0,
{
    lemma_switches_differ();
    reveal_with_fuel(switch_value, 9);
}

/// What is written before a tool is run is what it is pointed at: the decoded
/// certificate at the path of the certificate, the decoded key at the path of
/// the key, and then the tool is run as it was planned.
pub proof fn lemma_steps_do_what_was_planned(run: SignRun, action: SignAction)
    requires
        call_ensures(SignRun::action, (&run,), action),
    ensures
        run.phase is WriteCert && run.cert is Ok ==> (action matches SignAction::Write { path, data }
            && path@ == run.cert_path@ && data@ == run.cert->Ok_0@),
        run.phase is WriteKey && run.key is Ok ==> (action matches SignAction::Write { path, data }
            && path@ == run.key_path@ && data@ == run.key->Ok_0@),
        run.phase is Sign ==> (action matches SignAction::Run(command) && *command == run.sign),
        run.phase is Verify ==> (action matches SignAction::Run(command) && *command
            == run.verify),
{
}

/// The tool is not run before what it is pointed at was written: the certificate
/// for a certificate, and the certificate and then the key for KMS.
pub proof fn lemma_tools_wait_for_their_files(run: SignRun, event: SignEvent)
    requires
        !(run.phase is Sign),
        sign_next(run, event) == SignPhaseView::Sign,
    ensures
        event matches SignEvent::Did(Ok(_)),
        run.method == SigningMethod::GcloudKms ==> run.phase is WriteKey || run.phase is Sign,
        run.method != SigningMethod::GcloudKms ==> run.phase is WriteCert || run.phase is WriteKey,
{
}

/// The key for KMS is written only once the certificate was, and the certificate
/// only once the provider is there.
pub proof fn lemma_secrets_are_written_in_order(run: SignRun, event: SignEvent)
    requires
        sign_next(run, event) == SignPhaseView::WriteKey || sign_next(run, event)
            == SignPhaseView::WriteCert,
        sign_next(run, event) != run.phase@,
    ensures
        event matches SignEvent::Did(Ok(_)),
        match sign_next(run, event) {
            SignPhaseView::WriteKey => run.phase is WriteCert && run.key is Ok,
            _ => run.phase is EnsureProvider && run.cert is Ok,
        },
{
}

// ---------------------------------------------------------------------------
// The provider for KMS
// ---------------------------------------------------------------------------

/// Installing the provider hands on its files: what is downloaded is unpacked,
/// the installer that is looked for lies in what was unpacked and is the one that
/// is run, without asking, and the download and what was unpacked are removed.
/// All of it stays below the directory for temporary files.
pub proof fn lemma_the_downloaded_provider_is_installed(
    temp_dir: &str,
    style: PathStyle,
    start: ProviderSetup,
    setup: ProviderSetup,
    action: SetupAction,
)
    requires
        call_ensures(ProviderSetup::new, (temp_dir, style), start),
        setup.same_paths(start),
        call_ensures(ProviderSetup::action, (&setup,), action),
    ensures
        ({
            let zip_file = below(temp_dir@, "kmscng.zip"@, style);
            let unpacked = below(temp_dir@, "kmscng"@, style);
            let installer = below(
                below(unpacked, "kmscng-1.3-windows-amd64"@, style),
                "kmscng.msi"@,
                style,
            );
            match action {
                SetupAction::Download { url, to } => to@ == zip_file && url@
                    == "https://github.com/GoogleCloudPlatform/kms-integrations/releases/download/cng-v1.3/kmscng-1.3-windows-amd64.zip"@,
                SetupAction::Extract { zip, dir } => zip@ == zip_file && dir@ == unpacked,
                SetupAction::LookFor(path) => path@ == installer,
                SetupAction::Remove { file, dir } => file@ == zip_file && dir@ == unpacked,
                SetupAction::Run(command) => (setup.phase is Install ==> command@.program
                    == "msiexec"@ && command@.args == seq!["/i"@, installer, "/qn"@]) && (
                setup.phase is Check ==> command@.program == "reg"@ && command@.args == seq![
                    "query"@,
                    r"HKLM\SYSTEM\CurrentControlSet\Control\Cryptography\Providers\Google Cloud KMS Provider"@,
                ]),
                SetupAction::Finish(r) => setup.phase is Finished,
            }
        }),
        start.phase is Check,
{
}

/// The provider counts as installed only if the registry lists it or its
/// installer ended with code 0; else there is a reason.
pub proof fn lemma_providers_are_installed_or_not(setup: ProviderSetup, event: SetupEvent)
    requires
        !(setup.phase is Finished) && !(setup.phase is Remove),
        setup_next(setup, event) matches SetupPhaseView::Finished(Ok(_)) || setup_next(
            setup,
            event,
        ) matches SetupPhaseView::Remove(Ok(_)),
    ensures
        setup.phase is Check || setup.phase is Install,
        event matches SetupEvent::Ran(ToolRun::Exited { code, .. }) && code == Some(0i32),
{
}

/// No two switches of a tool are the same.
proof fn lemma_switches_differ()
    ensures
        "/f"@.len() == 2 && "/p"@.len() == 2 && "/fd"@.len() == 3 && "/tr"@.len() == 3
            && "/td"@.len() == 3 && "/kc"@.len() == 3 && "/csp"@.len() == 4,
        "-tr"@.len() == 3 && "-td"@.len() == 3 && "-kvu"@.len() == 4 && "-kvi"@.len() == 4
            && "-kvt"@.len() == 4 && "-kvs"@.len() == 4 && "-kvc"@.len() == 4 && "-kvcn"@.len()
            == 5,
        "/f"@[1] == 'f' && "/p"@[1] == 'p' && "/fd"@[1] == 'f' && "/tr"@[2] == 'r' && "/td"@[2]
            == 'd' && "/tr"@[1] == 't' && "/td"@[1] == 't' && "/kc"@[1] == 'k',
        "-tr"@[2] == 'r' && "-td"@[2] == 'd',
        "-kvu"@[3] == 'u' && "-kvi"@[3] == 'i' && "-kvt"@[3] == 't' && "-kvs"@[3] == 's'
            && "-kvc"@[3] == 'c',
{
    reveal_strlit("/f");
    reveal_strlit("/p");
    reveal_strlit("/fd");
    reveal_strlit("/tr");
    reveal_strlit("/td");
    reveal_strlit("/kc");
    reveal_strlit("/csp");
    reveal_strlit("-tr");
    reveal_strlit("-td");
    reveal_strlit("-kvu");
    reveal_strlit("-kvi");
    reveal_strlit("-kvt");
    reveal_strlit("-kvs");
    reveal_strlit("-kvc");
    reveal_strlit("-kvcn");
}

} // verus!
