//! Code signing: with a PFX certificate, Azure Trusted Signing, or a key in
//! Google Cloud KMS.
use crate::encoding::{bytes_verdict, decode_trimmed, decoded};
use crate::paths::{below, find_existing, first_existing, join_path, PathStyle};
use crate::process::{code_text, is_success, shown_code, text_pairs, ToolCommand, ToolRun};
use crate::queue::job::BuildCredentials;
use crate::text::{
    cat2, opt_text, or_text, push_text, signed_decimal, text_or, texts, verdict,
};
use vstd::prelude::*;
use vstd::string::*;

verus! {

/// How a file is signed.
#[derive(Debug, Clone, Copy, PartialEq, Eq, Structural)]
pub enum SigningMethod {
    Pfx,
    Azure,
    GcloudKms,
}

/// The method that the credentials allow; a certificate comes before Azure, and
/// Azure before a key in KMS.
pub open spec fn method_of(c: BuildCredentials) -> Option<SigningMethod> {
    if c.spec_has_pfx() {
        Some(SigningMethod::Pfx)
    } else if c.spec_has_azure() {
        Some(SigningMethod::Azure)
    } else if c.spec_has_gcloud_kms() {
        Some(SigningMethod::GcloudKms)
    } else {
        None
    }
}

/// Determine the signing method.
pub fn signing_method(credentials: &BuildCredentials) -> (r: Option<SigningMethod>)
    ensures
        r == method_of(*credentials),
{
    if credentials.has_pfx() {
        Some(SigningMethod::Pfx)
    } else if credentials.has_azure() {
        Some(SigningMethod::Azure)
    } else if credentials.has_gcloud_kms() {
        Some(SigningMethod::GcloudKms)
    } else {
        None
    }
}

// ---------------------------------------------------------------------------
// The commands
// ---------------------------------------------------------------------------

/// The arguments of signtool for signing with a certificate.
pub open spec fn pfx_args(
    pfx: Seq<char>,
    password: Seq<char>,
    timestamp_url: Seq<char>,
    file: Seq<char>,
) -> Seq<Seq<char>> {
    seq![
        "sign"@,
        "/f"@,
        pfx,
        "/p"@,
        password,
        "/fd"@,
        "sha256"@,
        "/tr"@,
        timestamp_url,
        "/td"@,
        "sha256"@,
        file,
    ]
}

/// The arguments of signtool for signing with a key in KMS.
pub open spec fn kms_args(
    timestamp_url: Seq<char>,
    cert: Seq<char>,
    key: Seq<char>,
    file: Seq<char>,
) -> Seq<Seq<char>> {
    seq![
        "sign"@,
        "/fd"@,
        "SHA256"@,
        "/tr"@,
        timestamp_url,
        "/td"@,
        "SHA256"@,
        "/f"@,
        cert,
        "/csp"@,
        "Google Cloud KMS Provider"@,
        "/kc"@,
        key,
        file,
    ]
}

/// The arguments of AzureSignTool.
pub open spec fn azure_args(c: BuildCredentials, file: Seq<char>) -> Seq<Seq<char>> {
    seq![
        "sign"@,
        "-kvu"@,
        or_text(c.azure_signing_endpoint, ""@),
        "-kvi"@,
        or_text(c.azure_client_id, ""@),
        "-kvt"@,
        or_text(c.azure_tenant_id, ""@),
        "-kvs"@,
        or_text(c.azure_client_secret, ""@),
        "-kvc"@,
        or_text(c.azure_signing_account, ""@),
        "-kvcn"@,
        or_text(c.azure_signing_profile, ""@),
        "-tr"@,
        c.spec_timestamp_url(),
        "-td"@,
        "sha256"@,
        file,
    ]
}

/// The arguments of signtool for verifying a file.
pub open spec fn verify_args(file: Seq<char>) -> Seq<Seq<char>> {
    seq!["verify"@, "/pa"@, file]
}

fn pfx_command(tool: &str, pfx: &str, password: &str, timestamp_url: &str, file: &str) -> (r:
    ToolCommand)
    ensures
        r@.program == tool@,
        r@.args == pfx_args(pfx@, password@, timestamp_url@, file@),
        r@.env.len() == 0,
{
    let mut args: Vec<String> = Vec::new();
    push_text(&mut args, "sign");
    push_text(&mut args, "/f");
    push_text(&mut args, pfx);
    push_text(&mut args, "/p");
    push_text(&mut args, password);
    push_text(&mut args, "/fd");
    push_text(&mut args, "sha256");
    push_text(&mut args, "/tr");
    push_text(&mut args, timestamp_url);
    push_text(&mut args, "/td");
    push_text(&mut args, "sha256");
    push_text(&mut args, file);
    assert(texts(args@) =~= pfx_args(pfx@, password@, timestamp_url@, file@));
    ToolCommand { program: tool.to_owned(), args, env: Vec::new() }
}

fn kms_command(
    tool: &str,
    timestamp_url: &str,
    cert: &str,
    key: &str,
    account: &str,
    file: &str,
) -> (r: ToolCommand)
    ensures
        r@.program == tool@,
        r@.args == kms_args(timestamp_url@, cert@, key@, file@),
        r@.env == seq![("GOOGLE_APPLICATION_CREDENTIALS"@, account@)],
{
    let mut args: Vec<String> = Vec::new();
    push_text(&mut args, "sign");
    push_text(&mut args, "/fd");
    push_text(&mut args, "SHA256");
    push_text(&mut args, "/tr");
    push_text(&mut args, timestamp_url);
    push_text(&mut args, "/td");
    push_text(&mut args, "SHA256");
    push_text(&mut args, "/f");
    push_text(&mut args, cert);
    push_text(&mut args, "/csp");
    push_text(&mut args, "Google Cloud KMS Provider");
    push_text(&mut args, "/kc");
    push_text(&mut args, key);
    push_text(&mut args, file);
    assert(texts(args@) =~= kms_args(timestamp_url@, cert@, key@, file@));
    let mut env: Vec<(String, String)> = Vec::new();
    env.push(("GOOGLE_APPLICATION_CREDENTIALS".to_owned(), account.to_owned()));
    assert(text_pairs(env@) =~= seq![("GOOGLE_APPLICATION_CREDENTIALS"@, account@)]);
    ToolCommand { program: tool.to_owned(), args, env }
}

fn azure_command(tool: &str, c: &BuildCredentials, file: &str) -> (r: ToolCommand)
    ensures
        r@.program == tool@,
        r@.args == azure_args(*c, file@),
        r@.env.len() == 0,
{
    let mut args: Vec<String> = Vec::new();
    push_text(&mut args, "sign");
    push_text(&mut args, "-kvu");
    push_text(&mut args, text_or(&c.azure_signing_endpoint, ""));
    push_text(&mut args, "-kvi");
    push_text(&mut args, text_or(&c.azure_client_id, ""));
    push_text(&mut args, "-kvt");
    push_text(&mut args, text_or(&c.azure_tenant_id, ""));
    push_text(&mut args, "-kvs");
    push_text(&mut args, text_or(&c.azure_client_secret, ""));
    push_text(&mut args, "-kvc");
    push_text(&mut args, text_or(&c.azure_signing_account, ""));
    push_text(&mut args, "-kvcn");
    push_text(&mut args, text_or(&c.azure_signing_profile, ""));
    push_text(&mut args, "-tr");
    push_text(&mut args, c.timestamp_url());
    push_text(&mut args, "-td");
    push_text(&mut args, "sha256");
    push_text(&mut args, file);
    assert(texts(args@) =~= azure_args(*c, file@));
    ToolCommand { program: tool.to_owned(), args, env: Vec::new() }
}

fn verify_command(tool: &str, file: &str) -> (r: ToolCommand)
    ensures
        r@.program == tool@,
        r@.args == verify_args(file@),
        r@.env.len() == 0,
{
    let mut args: Vec<String> = Vec::new();
    push_text(&mut args, "verify");
    push_text(&mut args, "/pa");
    push_text(&mut args, file);
    assert(texts(args@) =~= verify_args(file@));
    ToolCommand { program: tool.to_owned(), args, env: Vec::new() }
}

// ---------------------------------------------------------------------------
// Looking for AzureSignTool
// ---------------------------------------------------------------------------

/// A name in each of the directories.
pub open spec fn name_in(dirs: Seq<Seq<char>>, name: Seq<char>, style: PathStyle) -> Seq<Seq<char>>
{
    dirs.map_values(|d: Seq<char>| below(d, name, style))
}

/// Where AzureSignTool is looked for: under each of its names, in each of the
/// directories.
pub open spec fn azure_tool_places(dirs: Seq<Seq<char>>, style: PathStyle) -> Seq<Seq<char>> {
    name_in(dirs, "AzureSignTool.exe"@, style) + name_in(dirs, "azuresigntool.exe"@, style)
        + name_in(dirs, "AzureSignTool"@, style)
}

fn push_name_in(list: &mut Vec<String>, dirs: &Vec<String>, name: &str, style: PathStyle)
    ensures
        texts(final(list)@) == texts(old(list)@) + name_in(texts(dirs@), name@, style),
{
    let ghost start = texts(list@);
    let ghost all = name_in(texts(dirs@), name@, style);
    let mut i: usize = 0;
    assert(start + all.take(0) =~= start);
    while i < dirs.len()
        invariant
            i <= dirs@.len(),
            all == name_in(texts(dirs@), name@, style),
            texts(list@) == start + all.take(i as int),
        decreases dirs@.len() - i,
    {
        let path = join_path(&dirs[i], name, style);
        push_text(list, &path);
        assert(all[i as int] == path@);
        assert(texts(list@) =~= start + all.take(i + 1));
        i = i + 1;
    }
    assert(all.take(all.len() as int) =~= all);
}

/// The places of AzureSignTool, given the directories of PATH.
pub fn azure_tool_candidates(dirs: &Vec<String>, style: PathStyle) -> (r: Vec<String>)
    ensures
        texts(r@) == azure_tool_places(texts(dirs@), style),
{
    let mut r: Vec<String> = Vec::new();
    push_name_in(&mut r, dirs, "AzureSignTool.exe", style);
    push_name_in(&mut r, dirs, "azuresigntool.exe", style);
    push_name_in(&mut r, dirs, "AzureSignTool", style);
    assert(texts(r@) =~= azure_tool_places(texts(dirs@), style));
    r
}

/// Try to find AzureSignTool on PATH, given the directories of PATH and the
/// places that hold something.
pub fn which_azure_sign_tool(dirs: &Vec<String>, existing: &Vec<String>, style: PathStyle) -> (r:
    Option<String>)
    ensures
        opt_text(r) == first_existing(azure_tool_places(texts(dirs@), style), texts(existing@)),
{
    find_existing(&azure_tool_candidates(dirs, style), existing)
}

// ---------------------------------------------------------------------------
// Signing a file, step by step
// ---------------------------------------------------------------------------

/// Where signing a file stands.
pub enum SignPhase {
    /// The KMS provider has to be there.
    EnsureProvider,
    /// The certificate has to be written.
    WriteCert,
    /// The key of the service account has to be written.
    WriteKey,
    /// The tool has to be run.
    Sign,
    /// The secrets have to be removed; what the tool came to is kept.
    RemoveSecrets(Result<(), String>),
    /// The signature has to be verified.
    Verify,
    /// Signing is over.
    Finished(Result<(), String>),
}

/// Where signing a file stands.
pub enum SignPhaseView {
    EnsureProvider,
    WriteCert,
    WriteKey,
    Sign,
    RemoveSecrets(Result<(), Seq<char>>),
    Verify,
    Finished(Result<(), Seq<char>>),
}

impl View for SignPhase {
    type V = SignPhaseView;

    open spec fn view(&self) -> SignPhaseView {
        match *self {
            SignPhase::EnsureProvider => SignPhaseView::EnsureProvider,
            SignPhase::WriteCert => SignPhaseView::WriteCert,
            SignPhase::WriteKey => SignPhaseView::WriteKey,
            SignPhase::Sign => SignPhaseView::Sign,
            SignPhase::RemoveSecrets(r) => SignPhaseView::RemoveSecrets(verdict(r)),
            SignPhase::Verify => SignPhaseView::Verify,
            SignPhase::Finished(r) => SignPhaseView::Finished(verdict(r)),
        }
    }
}

/// What signing a file needs, and where it stands.
pub struct SignRun {
    pub phase: SignPhase,
    pub method: SigningMethod,
    pub sign: ToolCommand,
    pub verify: ToolCommand,
    /// The certificate and where it is written.
    pub cert_path: String,
    pub cert: Result<Vec<u8>, String>,
    /// The key of the service account and where it is written.
    pub key_path: String,
    pub key: Result<Vec<u8>, String>,
}

/// What is to be done next.
pub enum SignAction<'a> {
    /// See that the KMS provider is installed.
    EnsureProvider,
    /// Write a file.
    Write { path: &'a str, data: &'a Vec<u8> },
    /// Run a tool.
    Run(&'a ToolCommand),
    /// Overwrite what was read back of one file and remove it, and remove
    /// another one.
    Remove { wiped: &'a str, other: Option<&'a str> },
    /// Nothing.
    Finish(&'a Result<(), String>),
}

/// What came of it.
pub enum SignEvent {
    Did(Result<(), String>),
    Ran(ToolRun),
}

/// What running a signing tool came to, once it ran: its message begins with
/// the given text.
pub open spec fn tool_verdict(what: Seq<char>, run: ToolRun) -> Result<(), Seq<char>> {
    match run {
        ToolRun::NotRun(e) => Err(e@),
        ToolRun::Exited { code, stdout, stderr } => if code == Some(0i32) {
            Ok(())
        } else {
            Err(
                what + " failed (exit "@ + signed_decimal(shown_code(code)) + "):\n"@ + stdout@
                    + "\n"@ + stderr@,
            )
        },
    }
}

fn tool_outcome(what: &str, run: &ToolRun) -> (r: Result<(), String>)
    ensures
        verdict(r) == tool_verdict(what@, *run),
{
    match run {
        ToolRun::NotRun(e) => Err(e.clone()),
        ToolRun::Exited { code, stdout, stderr } => {
            if is_success(*code) {
                Ok(())
            } else {
                let mut s = what.to_owned();
                s.append(" failed (exit ");
                s.append(&code_text(*code));
                s.append("):\n");
                s.append(stdout);
                s.append("\n");
                s.append(stderr);
                Err(s)
            }
        },
    }
}

impl SigningMethod {
    /// How messages call the tool.
    pub open spec fn tool_name(self) -> Seq<char> {
        match self {
            SigningMethod::Pfx => "signtool sign"@,
            SigningMethod::Azure => "AzureSignTool"@,
            SigningMethod::GcloudKms => "signtool KMS sign"@,
        }
    }

    /// What a message about a tool that could not be run begins with.
    pub open spec fn not_run(self) -> Seq<char> {
        match self {
            SigningMethod::Pfx => "Failed to run signtool sign: "@,
            SigningMethod::Azure => "Failed to run AzureSignTool: "@,
            SigningMethod::GcloudKms => "Failed to run signtool with KMS: "@,
        }
    }

    /// What a message about a certificate that could not be written begins with.
    pub open spec fn not_written(self) -> Seq<char> {
        match self {
            SigningMethod::Pfx => "Failed to write temp PFX: "@,
            _ => "Failed to write temp cert: "@,
        }
    }

    fn tool_name_text(self) -> (s: &'static str)
        ensures
            s@ == self.tool_name(),
    {
        match self {
            SigningMethod::Pfx => "signtool sign",
            SigningMethod::Azure => "AzureSignTool",
            SigningMethod::GcloudKms => "signtool KMS sign",
        }
    }

    fn not_run_text(self) -> (s: &'static str)
        ensures
            s@ == self.not_run(),
    {
        match self {
            SigningMethod::Pfx => "Failed to run signtool sign: ",
            SigningMethod::Azure => "Failed to run AzureSignTool: ",
            SigningMethod::GcloudKms => "Failed to run signtool with KMS: ",
        }
    }

    fn not_written_text(self) -> (s: &'static str)
        ensures
            s@ == self.not_written(),
    {
        match self {
            SigningMethod::Pfx => "Failed to write temp PFX: ",
            _ => "Failed to write temp cert: ",
        }
    }
}

/// The step behind another one, unless what it needs could not be decoded.
pub open spec fn unless_undecoded(data: Result<Vec<u8>, String>, next: SignPhaseView) -> SignPhaseView {
    match data {
        Ok(_) => next,
        Err(e) => SignPhaseView::Finished(Err(e@)),
    }
}

/// The step behind one that may have left secrets on disk: they are removed
/// first. Only a signing in the cloud writes none.
pub open spec fn without_secrets(
    method: SigningMethod,
    result: Result<(), Seq<char>>,
) -> SignPhaseView {
    if method == SigningMethod::Azure {
        SignPhaseView::Finished(result)
    } else {
        SignPhaseView::RemoveSecrets(result)
    }
}

/// Where signing stands after an event. From the first file that is written on,
/// a failure ends it only once the files are removed. An event that does not
/// answer what was to be done changes nothing.
pub open spec fn sign_next(run: SignRun, event: SignEvent) -> SignPhaseView {
    match (run.phase, event) {
        (SignPhase::EnsureProvider, SignEvent::Did(Ok(_))) => unless_undecoded(
            run.cert,
            SignPhaseView::WriteCert,
        ),
        (SignPhase::EnsureProvider, SignEvent::Did(Err(e))) => SignPhaseView::Finished(Err(e@)),
        (SignPhase::WriteCert, SignEvent::Did(Ok(_))) => if run.method
            == SigningMethod::GcloudKms {
            match run.key {
                Ok(_) => SignPhaseView::WriteKey,
                Err(e) => SignPhaseView::RemoveSecrets(Err(e@)),
            }
        } else {
            SignPhaseView::Sign
        },
        (SignPhase::WriteCert, SignEvent::Did(Err(e))) => SignPhaseView::RemoveSecrets(
            Err(run.method.not_written() + e@),
        ),
        (SignPhase::WriteKey, SignEvent::Did(Ok(_))) => SignPhaseView::Sign,
        (SignPhase::WriteKey, SignEvent::Did(Err(e))) => SignPhaseView::RemoveSecrets(
            Err("Failed to write temp service account key: "@ + e@),
        ),
        (SignPhase::Sign, SignEvent::Ran(ToolRun::NotRun(e))) => without_secrets(
            run.method,
            Err(run.method.not_run() + e@),
        ),
        (SignPhase::Sign, SignEvent::Ran(ran)) => without_secrets(
            run.method,
            tool_verdict(run.method.tool_name(), ran),
        ),
        (SignPhase::RemoveSecrets(r), SignEvent::Did(_)) => match verdict(r) {
            Ok(_) => SignPhaseView::Verify,
            Err(e) => SignPhaseView::Finished(Err(e)),
        },
        (SignPhase::Verify, SignEvent::Ran(ToolRun::NotRun(e))) => SignPhaseView::Finished(
            Err("Failed to run signtool verify: "@ + e@),
        ),
        (SignPhase::Verify, SignEvent::Ran(_)) => SignPhaseView::Finished(Ok(())),
        _ => run.phase@,
    }
}

/// What is to be done where signing stands.
pub open spec fn is_sign_action(action: SignAction, run: SignRun) -> bool {
    match run.phase {
        SignPhase::EnsureProvider => action is EnsureProvider,
        SignPhase::WriteCert => action matches SignAction::Write { path, data } && path@
            == run.cert_path@ && Ok::<Seq<u8>, Seq<char>>(data@) == bytes_verdict(run.cert),
        SignPhase::WriteKey => action matches SignAction::Write { path, data } && path@
            == run.key_path@ && Ok::<Seq<u8>, Seq<char>>(data@) == bytes_verdict(run.key),
        SignPhase::Sign => action matches SignAction::Run(command) && *command == run.sign,
        SignPhase::RemoveSecrets(_) => action matches SignAction::Remove { wiped, other } && if run.method
            == SigningMethod::GcloudKms {
            wiped@ == run.key_path@ && (other matches Some(path) && path@ == run.cert_path@)
        } else {
            wiped@ == run.cert_path@ && other is None
        },
        SignPhase::Verify => action matches SignAction::Run(command) && *command == run.verify,
        SignPhase::Finished(result) => action matches SignAction::Finish(r) && verdict(*r)
            == verdict(result),
    }
}

impl SignRun {
    /// What a phase asks for is there: only a certificate or a key that was
    /// decoded is written. A signing in the cloud only runs its tool.
    pub open spec fn well_formed(self) -> bool {
        &&& self.method == SigningMethod::Azure ==> self.phase is Sign || self.phase is Finished
        &&& self.phase is WriteCert ==> self.cert is Ok
        &&& self.phase is WriteKey ==> self.key is Ok
    }

    /// All but the phase is as in another one.
    pub open spec fn same_plan(self, other: SignRun) -> bool {
        &&& self.method == other.method
        &&& self.sign == other.sign
        &&& self.verify == other.verify
        &&& self.cert_path == other.cert_path
        &&& self.cert == other.cert
        &&& self.key_path == other.key_path
        &&& self.key == other.key
    }

    /// What is to be done next.
    pub fn action(&self) -> (r: SignAction<'_>)
        requires
            self.well_formed(),
        ensures
            is_sign_action(r, *self),
    {
        match &self.phase {
            SignPhase::EnsureProvider => SignAction::EnsureProvider,
            SignPhase::WriteCert => match &self.cert {
                Ok(data) => SignAction::Write { path: self.cert_path.as_str(), data },
                // A certificate or a key is only written where it was decoded.
                Err(_) => SignAction::EnsureProvider,
            },
            SignPhase::WriteKey => match &self.key {
                Ok(data) => SignAction::Write { path: self.key_path.as_str(), data },
                Err(_) => SignAction::EnsureProvider,
            },
            SignPhase::Sign => SignAction::Run(&self.sign),
            SignPhase::RemoveSecrets(_) => if self.method == SigningMethod::GcloudKms {
                SignAction::Remove {
                    wiped: self.key_path.as_str(),
                    other: Some(self.cert_path.as_str()),
                }
            } else {
                SignAction::Remove { wiped: self.cert_path.as_str(), other: None }
            },
            SignPhase::Verify => SignAction::Run(&self.verify),
            SignPhase::Finished(r) => SignAction::Finish(r),
        }
    }

    /// Takes what came of the last step.
    pub fn advance(&mut self, event: SignEvent)
        requires
            old(self).well_formed(),
        ensures
            final(self).phase@ == sign_next(*old(self), event),
            final(self).same_plan(*old(self)),
            final(self).well_formed(),
    {
        let mut phase = SignPhase::Sign;
        std::mem::swap(&mut phase, &mut self.phase);
        let next = match (phase, event) {
            (SignPhase::EnsureProvider, SignEvent::Did(Ok(_))) => match &self.cert {
                Ok(_) => SignPhase::WriteCert,
                Err(e) => SignPhase::Finished(Err(e.clone())),
            },
            (SignPhase::EnsureProvider, SignEvent::Did(Err(e))) => SignPhase::Finished(Err(e)),
            (SignPhase::WriteCert, SignEvent::Did(Ok(_))) => if self.method
                == SigningMethod::GcloudKms {
                match &self.key {
                    Ok(_) => SignPhase::WriteKey,
                    Err(e) => SignPhase::RemoveSecrets(Err(e.clone())),
                }
            } else {
                SignPhase::Sign
            },
            (SignPhase::WriteCert, SignEvent::Did(Err(e))) => SignPhase::RemoveSecrets(
                Err(cat2(self.method.not_written_text(), &e)),
            ),
            (SignPhase::WriteKey, SignEvent::Did(Ok(_))) => SignPhase::Sign,
            (SignPhase::WriteKey, SignEvent::Did(Err(e))) => SignPhase::RemoveSecrets(
                Err(cat2("Failed to write temp service account key: ", &e)),
            ),
            (SignPhase::Sign, SignEvent::Ran(ran)) => {
                let outcome = match &ran {
                    ToolRun::NotRun(e) => Err(cat2(self.method.not_run_text(), e)),
                    ToolRun::Exited { .. } => tool_outcome(self.method.tool_name_text(), &ran),
                };
                if self.method == SigningMethod::Azure {
                    SignPhase::Finished(outcome)
                } else {
                    SignPhase::RemoveSecrets(outcome)
                }
            },
            (SignPhase::RemoveSecrets(r), SignEvent::Did(_)) => match r {
                Ok(_) => SignPhase::Verify,
                Err(e) => SignPhase::Finished(Err(e)),
            },
            (SignPhase::Verify, SignEvent::Ran(ToolRun::NotRun(e))) => SignPhase::Finished(
                Err(cat2("Failed to run signtool verify: ", &e)),
            ),
            (SignPhase::Verify, SignEvent::Ran(_)) => SignPhase::Finished(Ok(())),
            (other, _) => other,
        };
        self.phase = next;
    }
}

/// Why a file cannot be signed at all, if it cannot: there are no credentials,
/// the tool is missing, or the certificate is not Base64.
pub open spec fn sign_refusal(
    c: BuildCredentials,
    signtool: Option<Seq<char>>,
    azure_tool: Option<Seq<char>>,
) -> Option<Seq<char>> {
    match method_of(c) {
        None => Some(
            "No signing credentials provided (need PFX, Azure Trusted Signing, or Google Cloud KMS)"@,
        ),
        Some(SigningMethod::Azure) => if azure_tool is None {
            Some(
                "AzureSignTool.exe not found. Install via: dotnet tool install -g AzureSignTool"@,
            )
        } else {
            None
        },
        Some(SigningMethod::GcloudKms) => if signtool is None {
            Some("signtool.exe not found. Install Windows SDK."@)
        } else {
            None
        },
        Some(SigningMethod::Pfx) => if signtool is None {
            Some("signtool.exe not found. Install Windows SDK."@)
        } else {
            match pfx_bytes(c) {
                Ok(_) => None,
                Err(e) => Some(e),
            }
        },
    }
}

/// The certificate of the credentials.
pub open spec fn pfx_bytes(c: BuildCredentials) -> Result<Seq<u8>, Seq<char>> {
    decoded(or_text(c.windows_pfx_base64, ""@), "Invalid PFX base64: "@)
}

/// The certificate of the key in KMS.
pub open spec fn kms_cert_bytes(c: BuildCredentials) -> Result<Seq<u8>, Seq<char>> {
    decoded(or_text(c.gcloud_kms_cert_base64, ""@), "Invalid cert base64: "@)
}

/// The key of the service account.
pub open spec fn account_bytes(c: BuildCredentials) -> Result<Seq<u8>, Seq<char>> {
    decoded(
        or_text(c.gcloud_service_account_base64, ""@),
        "Invalid service account base64: "@,
    )
}

/// How signing a file with a certificate begins.
pub open spec fn is_pfx_start(
    run: SignRun,
    c: BuildCredentials,
    tool: Seq<char>,
    file: Seq<char>,
    tmpdir: Seq<char>,
    style: PathStyle,
) -> bool {
    &&& run.phase@ == SignPhaseView::WriteCert
    &&& run.method == SigningMethod::Pfx
    &&& run.cert_path@ == below(tmpdir, "signing.pfx"@, style)
    &&& bytes_verdict(run.cert) == pfx_bytes(c)
    &&& run.sign@.program == tool
    &&& run.sign@.args == pfx_args(
        below(tmpdir, "signing.pfx"@, style),
        or_text(c.windows_pfx_password, ""@),
        c.spec_timestamp_url(),
        file,
    )
    &&& run.sign@.env.len() == 0
    &&& run.verify@.program == tool
    &&& run.verify@.args == verify_args(file)
    &&& run.verify@.env.len() == 0
}

/// How signing a file with a key in KMS begins.
pub open spec fn is_kms_start(
    run: SignRun,
    c: BuildCredentials,
    tool: Seq<char>,
    file: Seq<char>,
    tmpdir: Seq<char>,
    style: PathStyle,
) -> bool {
    &&& run.phase@ == SignPhaseView::EnsureProvider
    &&& run.method == SigningMethod::GcloudKms
    &&& run.cert_path@ == below(tmpdir, "kms_signing.crt"@, style)
    &&& bytes_verdict(run.cert) == kms_cert_bytes(c)
    &&& run.key_path@ == below(tmpdir, "gcp_sa_key.json"@, style)
    &&& bytes_verdict(run.key) == account_bytes(c)
    &&& run.sign@.program == tool
    &&& run.sign@.args == kms_args(
        c.spec_timestamp_url(),
        below(tmpdir, "kms_signing.crt"@, style),
        or_text(c.gcloud_kms_key, ""@),
        file,
    )
    &&& run.sign@.env == seq![
        ("GOOGLE_APPLICATION_CREDENTIALS"@, below(tmpdir, "gcp_sa_key.json"@, style)),
    ]
    &&& run.verify@.program == tool
    &&& run.verify@.args == verify_args(file)
    &&& run.verify@.env.len() == 0
}

/// How signing a file with Azure begins.
pub open spec fn is_azure_start(
    run: SignRun,
    c: BuildCredentials,
    tool: Seq<char>,
    file: Seq<char>,
) -> bool {
    &&& run.phase@ == SignPhaseView::Sign
    &&& run.method == SigningMethod::Azure
    &&& run.sign@.program == tool
    &&& run.sign@.args == azure_args(c, file)
    &&& run.sign@.env.len() == 0
}

/// How signing a file begins.
pub open spec fn is_sign_start(
    run: SignRun,
    c: BuildCredentials,
    signtool: Option<Seq<char>>,
    azure_tool: Option<Seq<char>>,
    file: Seq<char>,
    tmpdir: Seq<char>,
    style: PathStyle,
) -> bool {
    match method_of(c) {
        Some(SigningMethod::Pfx) => signtool matches Some(tool) && is_pfx_start(
            run,
            c,
            tool,
            file,
            tmpdir,
            style,
        ),
        Some(SigningMethod::GcloudKms) => signtool matches Some(tool) && is_kms_start(
            run,
            c,
            tool,
            file,
            tmpdir,
            style,
        ),
        Some(SigningMethod::Azure) => azure_tool matches Some(tool) && is_azure_start(
            run,
            c,
            tool,
            file,
        ),
        None => false,
    }
}

/// Determine the signing method and begin signing the file.
pub fn sign_executable(
    file_path: &str,
    credentials: &BuildCredentials,
    tmpdir: &str,
    signtool: &Option<String>,
    azure_tool: &Option<String>,
    style: PathStyle,
) -> (r: Result<SignRun, String>)
    ensures
        match (r, sign_refusal(*credentials, opt_text(*signtool), opt_text(*azure_tool))) {
            (Err(e), Some(message)) => e@ == message,
            (Ok(run), None) => run.well_formed() && is_sign_start(
                run,
                *credentials,
                opt_text(*signtool),
                opt_text(*azure_tool),
                file_path@,
                tmpdir@,
                style,
            ),
            _ => false,
        },
{
    match signing_method(credentials) {
        Some(SigningMethod::Pfx) => match signtool {
            Some(tool) => start_pfx(file_path, credentials, tmpdir, tool, style),
            None => Err("signtool.exe not found. Install Windows SDK.".to_owned()),
        },
        Some(SigningMethod::Azure) => match azure_tool {
            Some(tool) => Ok(start_azure(file_path, credentials, tool)),
            None => Err(
                "AzureSignTool.exe not found. Install via: dotnet tool install -g AzureSignTool".to_owned(),
            ),
        },
        Some(SigningMethod::GcloudKms) => match signtool {
            Some(tool) => Ok(start_kms(file_path, credentials, tmpdir, tool, style)),
            None => Err("signtool.exe not found. Install Windows SDK.".to_owned()),
        },
        None => Err(
            "No signing credentials provided (need PFX, Azure Trusted Signing, or Google Cloud KMS)".to_owned(),
        ),
    }
}

/// Begins signing a file using signtool.exe with a PFX certificate.
fn start_pfx(
    file_path: &str,
    credentials: &BuildCredentials,
    tmpdir: &str,
    tool: &str,
    style: PathStyle,
) -> (r: Result<SignRun, String>)
    ensures
        match (r, pfx_bytes(*credentials)) {
            (Ok(run), Ok(_)) => run.well_formed() && is_pfx_start(
                run,
                *credentials,
                tool@,
                file_path@,
                tmpdir@,
                style,
            ),
            (Err(e), Err(message)) => e@ == message,
            _ => false,
        },
{
    let text = text_or(&credentials.windows_pfx_base64, "");
    let cert = match decode_trimmed(text, "Invalid PFX base64: ") {
        Ok(data) => data,
        Err(e) => return Err(e),
    };
    let cert_path = join_path(tmpdir, "signing.pfx", style);
    let password = text_or(&credentials.windows_pfx_password, "");
    let sign = pfx_command(tool, &cert_path, password, credentials.timestamp_url(), file_path);
    Ok(
        SignRun {
            phase: SignPhase::WriteCert,
            method: SigningMethod::Pfx,
            sign,
            verify: verify_command(tool, file_path),
            cert_path,
            cert: Ok(cert),
            key_path: String::new(),
            key: Ok(Vec::new()),
        },
    )
}

/// Begins signing a file using Google Cloud KMS via the CNG provider.
fn start_kms(
    file_path: &str,
    credentials: &BuildCredentials,
    tmpdir: &str,
    tool: &str,
    style: PathStyle,
) -> (run: SignRun)
    ensures
        run.well_formed(),
        is_kms_start(run, *credentials, tool@, file_path@, tmpdir@, style),
{
    let cert_path = join_path(tmpdir, "kms_signing.crt", style);
    let key_path = join_path(tmpdir, "gcp_sa_key.json", style);
    let sign = kms_command(
        tool,
        credentials.timestamp_url(),
        &cert_path,
        text_or(&credentials.gcloud_kms_key, ""),
        &key_path,
        file_path,
    );
    let cert = decode_trimmed(
        text_or(&credentials.gcloud_kms_cert_base64, ""),
        "Invalid cert base64: ",
    );
    let key = decode_trimmed(
        text_or(&credentials.gcloud_service_account_base64, ""),
        "Invalid service account base64: ",
    );
    SignRun {
        phase: SignPhase::EnsureProvider,
        method: SigningMethod::GcloudKms,
        sign,
        verify: verify_command(tool, file_path),
        cert_path,
        cert,
        key_path,
        key,
    }
}

/// Begins signing a file using Azure Trusted Signing (AzureSignTool).
fn start_azure(file_path: &str, credentials: &BuildCredentials, tool: &str) -> (run: SignRun)
    ensures
        run.well_formed(),
        is_azure_start(run, *credentials, tool@, file_path@),
{
    SignRun {
        phase: SignPhase::Sign,
        method: SigningMethod::Azure,
        sign: azure_command(tool, credentials, file_path),
        verify: ToolCommand { program: String::new(), args: Vec::new(), env: Vec::new() },
        cert_path: String::new(),
        cert: Ok(Vec::new()),
        key_path: String::new(),
        key: Ok(Vec::new()),
    }
}

// ---------------------------------------------------------------------------
// What holds of every signing
// ---------------------------------------------------------------------------

/// How many steps are left at most.
pub open spec fn steps_left(phase: SignPhaseView) -> nat {
    match phase {
        SignPhaseView::EnsureProvider => 6,
        SignPhaseView::WriteCert => 5,
        SignPhaseView::WriteKey => 4,
        SignPhaseView::Sign => 3,
        SignPhaseView::RemoveSecrets(_) => 2,
        SignPhaseView::Verify => 1,
        SignPhaseView::Finished(_) => 0,
    }
}

/// Whether an event answers what was to be done.
pub open spec fn answers(phase: SignPhaseView, event: SignEvent) -> bool {
    match phase {
        SignPhaseView::EnsureProvider => event is Did,
        SignPhaseView::WriteCert => event is Did,
        SignPhaseView::WriteKey => event is Did,
        SignPhaseView::Sign => event is Ran,
        SignPhaseView::RemoveSecrets(_) => event is Did,
        SignPhaseView::Verify => event is Ran,
        SignPhaseView::Finished(_) => false,
    }
}

/// Signing comes to an end: every answer brings it nearer.
pub proof fn lemma_signing_ends(run: SignRun, event: SignEvent)
    requires
        answers(run.phase@, event),
    ensures
        steps_left(sign_next(run, event)) < steps_left(run.phase@),
{
}

/// Whether a certificate or a key may lie on disk: from the moment that the
/// certificate is written. Only a signing in the cloud writes none.
pub open spec fn may_hold_secrets(phase: SignPhaseView, method: SigningMethod) -> bool {
    method != SigningMethod::Azure && match phase {
        SignPhaseView::WriteCert => true,
        SignPhaseView::WriteKey => true,
        SignPhaseView::Sign => true,
        _ => false,
    }
}

/// Where a certificate or a key may lie on disk, no step ends the signing or
/// goes on without them, whatever came of it: the next step either still holds
/// them or removes them.
pub proof fn lemma_secrets_are_removed(run: SignRun, event: SignEvent)
    requires
        may_hold_secrets(run.phase@, run.method),
    ensures
        may_hold_secrets(sign_next(run, event), run.method) || sign_next(run, event) is RemoveSecrets,
{
}

/// A signing is over, or goes on to verify, only where no secret was on disk
/// before the step, or by the step that removes them.
pub proof fn lemma_only_removing_ends_a_signing_with_secrets(run: SignRun, event: SignEvent)
    requires
        !(run.phase is Finished),
        sign_next(run, event) is Finished || sign_next(run, event) is Verify,
    ensures
        !may_hold_secrets(run.phase@, run.method),
        match run.phase {
            SignPhase::EnsureProvider => true,
            SignPhase::Sign => run.method == SigningMethod::Azure,
            SignPhase::RemoveSecrets(_) => true,
            SignPhase::Verify => true,
            _ => false,
        },
{
}

/// The step that removes secrets names every file that was written: the key and
/// the certificate of a signing with KMS, and the certificate of any other one.
pub proof fn lemma_removing_names_every_secret(run: SignRun, action: SignAction)
    requires
        run.phase is RemoveSecrets,
        is_sign_action(action, run),
    ensures
        action matches SignAction::Remove { wiped, other } && (wiped@ == run.cert_path@ || (
        other matches Some(path) && path@ == run.cert_path@)),
        run.method == SigningMethod::GcloudKms ==> (action matches SignAction::Remove { wiped, .. }
            && wiped@ == run.key_path@),
{
}

/// A signature that does not verify is no failure; only a verification that
/// could not be run is one.
pub proof fn lemma_verification_is_not_fatal(run: SignRun, ran: ToolRun)
    requires
        run.phase@ == SignPhaseView::Verify,
        ran is Exited,
    ensures
        sign_next(run, SignEvent::Ran(ran)) == SignPhaseView::Finished(Ok(())),
{
}

/// Signing succeeds only by way of a tool that exited with success.
pub proof fn lemma_success_needs_a_successful_tool(run: SignRun, event: SignEvent)
    requires
        run.phase@ == SignPhaseView::Sign,
        answers(run.phase@, event),
        sign_next(run, event) == SignPhaseView::Finished(Ok(())) || sign_next(run, event)
            == SignPhaseView::RemoveSecrets(Ok(())),
    ensures
        event matches SignEvent::Ran(ToolRun::Exited { code, .. }) && code == Some(0i32),
{
}

} // verus!
