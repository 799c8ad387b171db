//! Installing the Google Cloud KMS CNG provider where it is missing.
use crate::paths::{below, join_path, PathStyle};
use crate::process::{is_success, ToolCommand, ToolRun};
use crate::text::{cat2, push_text, texts, verdict};
use vstd::prelude::*;
use vstd::string::*;

verus! {

/// Where the provider is downloaded from.
pub const PROVIDER_URL: &'static str =
    "https://github.com/GoogleCloudPlatform/kms-integrations/releases/download/cng-v1.3/kmscng-1.3-windows-amd64.zip";

/// Where the registry lists the provider.
pub const PROVIDER_KEY: &'static str =
    r"HKLM\SYSTEM\CurrentControlSet\Control\Cryptography\Providers\Google Cloud KMS Provider";

/// Where installing the provider stands.
pub enum SetupPhase {
    /// The registry has to be asked for it.
    Check,
    /// It has to be downloaded.
    Download,
    /// The download has to be unpacked.
    Extract,
    /// The installer has to be looked for.
    LookForInstaller,
    /// The installer has to be run.
    Install,
    /// The download has to be removed; what the installer came to is kept.
    Remove(Result<(), String>),
    /// It is over.
    Finished(Result<(), String>),
}

/// Where installing the provider stands.
pub enum SetupPhaseView {
    Check,
    Download,
    Extract,
    LookForInstaller,
    Install,
    Remove(Result<(), Seq<char>>),
    Finished(Result<(), Seq<char>>),
}

impl View for SetupPhase {
    type V = SetupPhaseView;

    open spec fn view(&self) -> SetupPhaseView {
        match *self {
            SetupPhase::Check => SetupPhaseView::Check,
            SetupPhase::Download => SetupPhaseView::Download,
            SetupPhase::Extract => SetupPhaseView::Extract,
            SetupPhase::LookForInstaller => SetupPhaseView::LookForInstaller,
            SetupPhase::Install => SetupPhaseView::Install,
            SetupPhase::Remove(r) => SetupPhaseView::Remove(verdict(r)),
            SetupPhase::Finished(r) => SetupPhaseView::Finished(verdict(r)),
        }
    }
}

/// Installing the provider.
pub struct ProviderSetup {
    pub phase: SetupPhase,
    /// Where the download is kept.
    pub zip_path: String,
    /// Where it is unpacked.
    pub extract_dir: String,
    /// The installer in it.
    pub msi_path: String,
}

/// What is to be done next.
pub enum SetupAction {
    /// Run a program.
    Run(ToolCommand),
    /// Download a file.
    Download { url: String, to: String },
    /// Unpack a ZIP file.
    Extract { zip: String, dir: String },
    /// See whether a file is there.
    LookFor(String),
    /// Remove a file and a directory.
    Remove { file: String, dir: String },
    /// Nothing.
    Finish(Result<(), String>),
}

/// How a download went.
pub enum DownloadEnd {
    /// There was no answer.
    NotReached(String),
    /// The answer could not be read.
    NotRead(String),
    /// What came could not be written.
    NotWritten(String),
    /// It was written.
    Written,
}

/// What came of a step.
pub enum SetupEvent {
    Ran(ToolRun),
    Downloaded(DownloadEnd),
    Did(Result<(), String>),
    Found(bool),
}

/// Where it stands after an event. An event that does not answer what was to be
/// done changes nothing.
pub open spec fn setup_next(setup: ProviderSetup, event: SetupEvent) -> SetupPhaseView {
    match (setup.phase, event) {
        (SetupPhase::Check, SetupEvent::Ran(ToolRun::NotRun(e))) => SetupPhaseView::Finished(
            Err("Failed to check CNG provider registry: "@ + e@),
        ),
        (SetupPhase::Check, SetupEvent::Ran(ToolRun::Exited { code, .. })) => if code
            == Some(0i32) {
            SetupPhaseView::Finished(Ok(()))
        } else {
            SetupPhaseView::Download
        },
        (SetupPhase::Download, SetupEvent::Downloaded(end)) => match end {
            DownloadEnd::NotReached(e) => SetupPhaseView::Finished(
                Err("Failed to download CNG provider: "@ + e@),
            ),
            DownloadEnd::NotRead(e) => SetupPhaseView::Finished(
                Err("Failed to read CNG provider download: "@ + e@),
            ),
            DownloadEnd::NotWritten(e) => SetupPhaseView::Finished(
                Err("Failed to write CNG provider zip: "@ + e@),
            ),
            DownloadEnd::Written => SetupPhaseView::Extract,
        },
        (SetupPhase::Extract, SetupEvent::Did(r)) => match verdict(r) {
            Ok(_) => SetupPhaseView::LookForInstaller,
            Err(e) => SetupPhaseView::Finished(Err(e)),
        },
        (SetupPhase::LookForInstaller, SetupEvent::Found(found)) => if found {
            SetupPhaseView::Install
        } else {
            SetupPhaseView::Finished(Err("MSI not found at: "@ + setup.msi_path@))
        },
        (SetupPhase::Install, SetupEvent::Ran(ToolRun::NotRun(e))) => SetupPhaseView::Finished(
            Err("Failed to run msiexec: "@ + e@),
        ),
        (SetupPhase::Install, SetupEvent::Ran(ToolRun::Exited { code, stdout, stderr })) => if code
            == Some(0i32) {
            SetupPhaseView::Remove(Ok(()))
        } else {
            SetupPhaseView::Remove(Err("CNG provider install failed: "@ + stderr@))
        },
        (SetupPhase::Remove(r), SetupEvent::Did(_)) => SetupPhaseView::Finished(verdict(r)),
        _ => setup.phase@,
    }
}

/// What is to be done where it stands.
pub open spec fn is_setup_action(action: SetupAction, setup: ProviderSetup) -> bool {
    match setup.phase {
        SetupPhase::Check => action matches SetupAction::Run(command) && command@.program
            == "reg"@ && command@.args == seq!["query"@, PROVIDER_KEY@] && command@.env.len() == 0,
        SetupPhase::Download => action matches SetupAction::Download { url, to } && url@
            == PROVIDER_URL@ && to@ == setup.zip_path@,
        SetupPhase::Extract => action matches SetupAction::Extract { zip, dir } && zip@
            == setup.zip_path@ && dir@ == setup.extract_dir@,
        SetupPhase::LookForInstaller => action matches SetupAction::LookFor(path) && path@
            == setup.msi_path@,
        SetupPhase::Install => action matches SetupAction::Run(command) && command@.program
            == "msiexec"@ && command@.args == seq!["/i"@, setup.msi_path@, "/qn"@]
            && command@.env.len() == 0,
        SetupPhase::Remove(_) => action matches SetupAction::Remove { file, dir } && file@
            == setup.zip_path@ && dir@ == setup.extract_dir@,
        SetupPhase::Finished(result) => action matches SetupAction::Finish(r) && verdict(r)
            == verdict(result),
    }
}

impl ProviderSetup {
    /// The paths are as in another one.
    pub open spec fn same_paths(self, other: ProviderSetup) -> bool {
        &&& self.zip_path == other.zip_path
        &&& self.extract_dir == other.extract_dir
        &&& self.msi_path == other.msi_path
    }

    /// Begins by asking whether the provider is there; a download goes below
    /// the directory for temporary files.
    pub fn new(temp_dir: &str, style: PathStyle) -> (r: Self)
        ensures
            r.phase@ == SetupPhaseView::Check,
            r.zip_path@ == below(temp_dir@, "kmscng.zip"@, style),
            r.extract_dir@ == below(temp_dir@, "kmscng"@, style),
            r.msi_path@ == below(
                below(below(temp_dir@, "kmscng"@, style), "kmscng-1.3-windows-amd64"@, style),
                "kmscng.msi"@,
                style,
            ),
    {
        let extract_dir = join_path(temp_dir, "kmscng", style);
        let msi_path = join_path(
            &join_path(&extract_dir, "kmscng-1.3-windows-amd64", style),
            "kmscng.msi",
            style,
        );
        ProviderSetup {
            phase: SetupPhase::Check,
            zip_path: join_path(temp_dir, "kmscng.zip", style),
            extract_dir,
            msi_path,
        }
    }

    /// What is to be done next.
    pub fn action(&self) -> (r: SetupAction)
        ensures
            is_setup_action(r, *self),
    {
        match &self.phase {
            SetupPhase::Check => {
                let mut args: Vec<String> = Vec::new();
                push_text(&mut args, "query");
                push_text(&mut args, PROVIDER_KEY);
                assert(texts(args@) =~= seq!["query"@, PROVIDER_KEY@]);
                SetupAction::Run(
                    ToolCommand { program: "reg".to_owned(), args, env: Vec::new() },
                )
            },
            SetupPhase::Download => SetupAction::Download {
                url: PROVIDER_URL.to_owned(),
                to: self.zip_path.clone(),
            },
            SetupPhase::Extract => SetupAction::Extract {
                zip: self.zip_path.clone(),
                dir: self.extract_dir.clone(),
            },
            SetupPhase::LookForInstaller => SetupAction::LookFor(self.msi_path.clone()),
            SetupPhase::Install => {
                let mut args: Vec<String> = Vec::new();
                push_text(&mut args, "/i");
                push_text(&mut args, &self.msi_path);
                push_text(&mut args, "/qn");
                assert(texts(args@) =~= seq!["/i"@, self.msi_path@, "/qn"@]);
                SetupAction::Run(
                    ToolCommand { program: "msiexec".to_owned(), args, env: Vec::new() },
                )
            },
            SetupPhase::Remove(_) => SetupAction::Remove {
                file: self.zip_path.clone(),
                dir: self.extract_dir.clone(),
            },
            SetupPhase::Finished(r) => SetupAction::Finish(
                match r {
                    Ok(_) => Ok(()),
                    Err(e) => Err(e.clone()),
                },
            ),
        }
    }

    /// Takes what came of the last step.
    pub fn advance(&mut self, event: SetupEvent)
        ensures
            final(self).phase@ == setup_next(*old(self), event),
            final(self).same_paths(*old(self)),
    {
        let mut phase = SetupPhase::Check;
        std::mem::swap(&mut phase, &mut self.phase);
        let next = match (phase, event) {
            (SetupPhase::Check, SetupEvent::Ran(ToolRun::NotRun(e))) => SetupPhase::Finished(
                Err(cat2("Failed to check CNG provider registry: ", &e)),
            ),
            (SetupPhase::Check, SetupEvent::Ran(ToolRun::Exited { code, .. })) => if is_success(
                code,
            ) {
                SetupPhase::Finished(Ok(()))
            } else {
                SetupPhase::Download
            },
            (SetupPhase::Download, SetupEvent::Downloaded(end)) => match end {
                DownloadEnd::NotReached(e) => SetupPhase::Finished(
                    Err(cat2("Failed to download CNG provider: ", &e)),
                ),
                DownloadEnd::NotRead(e) => SetupPhase::Finished(
                    Err(cat2("Failed to read CNG provider download: ", &e)),
                ),
                DownloadEnd::NotWritten(e) => SetupPhase::Finished(
                    Err(cat2("Failed to write CNG provider zip: ", &e)),
                ),
                DownloadEnd::Written => SetupPhase::Extract,
            },
            (SetupPhase::Extract, SetupEvent::Did(r)) => match r {
                Ok(_) => SetupPhase::LookForInstaller,
                Err(e) => SetupPhase::Finished(Err(e)),
            },
            (SetupPhase::LookForInstaller, SetupEvent::Found(found)) => if found {
                SetupPhase::Install
            } else {
                SetupPhase::Finished(Err(cat2("MSI not found at: ", &self.msi_path)))
            },
            (SetupPhase::Install, SetupEvent::Ran(ToolRun::NotRun(e))) => SetupPhase::Finished(
                Err(cat2("Failed to run msiexec: ", &e)),
            ),
            (SetupPhase::Install, SetupEvent::Ran(ToolRun::Exited { code, stdout: _, stderr })) =>
            if is_success(code) {
                SetupPhase::Remove(Ok(()))
            } else {
                SetupPhase::Remove(Err(cat2("CNG provider install failed: ", &stderr)))
            },
            (SetupPhase::Remove(r), SetupEvent::Did(_)) => SetupPhase::Finished(r),
            (other, _) => other,
        };
        self.phase = next;
    }
}

/// Where the registry lists the provider, nothing is downloaded or installed.
pub proof fn lemma_installed_provider_is_kept(setup: ProviderSetup, event: SetupEvent)
    requires
        setup.phase@ == SetupPhaseView::Check,
        event matches SetupEvent::Ran(ToolRun::Exited { code, .. }) && code == Some(0i32),
    ensures
        setup_next(setup, event) == SetupPhaseView::Finished(Ok(())),
{
}

/// Once the installer has run, whatever came of it, the download is removed.
pub proof fn lemma_download_is_removed(setup: ProviderSetup, event: SetupEvent)
    requires
        setup.phase@ == SetupPhaseView::Install,
        event matches SetupEvent::Ran(ToolRun::Exited { .. }),
    ensures
        setup_next(setup, event) is Remove,
{
}

} // verus!
