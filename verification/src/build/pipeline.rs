//! A build from the archive of a project to the finished artifact, step by step.
//!
//! The build says what is to be done next; the program around it does that and
//! reports what came of it. A project that brings a compiled executable along
//! is only bundled, signed and packaged.
use crate::build::validate::{manifest_verdict, validate_manifest_for};
use crate::paths::{
    below, join_path, path_has_parent, path_is_absolute, stays_below, PathStyle,
};
use crate::queue::job::{BuildCredentials, BuildManifest};
use crate::text::{
    cat2, cat3, cat4, copy_opt, opt_text, or_text, push_text, same_text, text_or, text_verdict,
    texts, verdict,
};
use crate::ws::messages::{send_progress, send_stage, ServerMessage, StageName};
use vstd::prelude::*;
use vstd::string::*;

verus! {

/// A job as the pipeline takes it.
pub struct BuildRequest {
    pub manifest: BuildManifest,
    pub credentials: BuildCredentials,
    pub tarball_path: String,
    pub job_id: String,
}

/// Metadata from a precompiled bundle created by the Linux cross-compilation worker.
#[derive(Debug)]
pub struct PrecompiledMetadata {
    pub perry_version: String,
    pub compiled_by: String,
    pub compile_timestamp: String,
}

/// Paths to files extracted from a precompiled bundle.
#[derive(Debug)]
pub struct PrecompiledBundle {
    pub exe_path: String,
    pub ico_path: Option<String>,
    pub dll_dir: Option<String>,
}

/// What a precompiled bundle holds.
#[derive(Debug, Clone, Copy, PartialEq, Eq, Structural)]
pub struct BundleFiles {
    pub exe: bool,
    pub ico: bool,
    pub dll_dir: bool,
}

/// How a build is handed out.
#[derive(Debug, Clone, Copy, PartialEq, Eq, Structural)]
pub enum Distribution {
    Installer,
    Msix,
    Portable,
}

// ---------------------------------------------------------------------------
// Archives
// ---------------------------------------------------------------------------

/// What comes of the path of an archive's entry: one that is absolute or steps
/// up is refused.
pub open spec fn entry_path_verdict(path: Seq<char>, style: PathStyle) -> Result<(), Seq<char>> {
    if stays_below(path, style) {
        Ok(())
    } else {
        Err("Tarball contains unsafe path (path traversal rejected): "@ + path)
    }
}

/// Checks the path of an archive's entry before it is unpacked.
pub fn check_entry_path(path: &str, style: PathStyle) -> (r: Result<(), String>)
    ensures
        verdict(r) == entry_path_verdict(path@, style),
{
    if path_is_absolute(path, style) || path_has_parent(path, style) {
        Err(cat2("Tarball contains unsafe path (path traversal rejected): ", path))
    } else {
        Ok(())
    }
}

// ---------------------------------------------------------------------------
// Precompiled bundles
// ---------------------------------------------------------------------------

/// The directory of a precompiled bundle.
pub open spec fn precompiled_dir(project_dir: Seq<char>, style: PathStyle) -> Seq<char> {
    below(project_dir, "perry-precompiled"@, style)
}

/// The file that tells a precompiled bundle from sources.
pub open spec fn metadata_file(project_dir: Seq<char>, style: PathStyle) -> Seq<char> {
    below(precompiled_dir(project_dir, style), "metadata.json"@, style)
}

/// The sentinel is `perry-precompiled/metadata.json` which never exists in normal source tarballs.
pub fn metadata_path(project_dir: &str, style: PathStyle) -> (r: String)
    ensures
        r@ == metadata_file(project_dir@, style),
{
    join_path(&join_path(project_dir, "perry-precompiled", style), "metadata.json", style)
}

/// Where the executable of a precompiled bundle stands.
pub open spec fn precompiled_exe(
    project_dir: Seq<char>,
    app_name: Seq<char>,
    style: PathStyle,
) -> Seq<char> {
    below(precompiled_dir(project_dir, style), app_name + ".exe"@, style)
}

/// Where the icon of a precompiled bundle stands.
pub open spec fn precompiled_ico(project_dir: Seq<char>, style: PathStyle) -> Seq<char> {
    below(precompiled_dir(project_dir, style), "app.ico"@, style)
}

/// Where the DLLs of a precompiled bundle stand.
pub open spec fn precompiled_dlls(project_dir: Seq<char>, style: PathStyle) -> Seq<char> {
    below(precompiled_dir(project_dir, style), "dlls"@, style)
}

impl PrecompiledBundle {
    /// The paths of what a precompiled bundle holds.
    pub open spec fn is_bundle_in(
        self,
        project_dir: Seq<char>,
        app_name: Seq<char>,
        files: BundleFiles,
        style: PathStyle,
    ) -> bool {
        &&& self.exe_path@ == precompiled_exe(project_dir, app_name, style)
        &&& opt_text(self.ico_path) == (if files.ico {
            Some(precompiled_ico(project_dir, style))
        } else {
            None
        })
        &&& opt_text(self.dll_dir) == (if files.dll_dir {
            Some(precompiled_dlls(project_dir, style))
        } else {
            None
        })
    }
}

/// Extract paths from a precompiled bundle directory.
pub fn unpack_precompiled_bundle(
    project_dir: &str,
    app_name: &str,
    files: BundleFiles,
    style: PathStyle,
) -> (r: Result<PrecompiledBundle, String>)
    ensures
        match r {
            Ok(bundle) => files.exe && bundle.is_bundle_in(
                project_dir@,
                app_name@,
                files,
                style,
            ),
            Err(e) => !files.exe && e@ == "Precompiled bundle missing "@ + app_name@ + ".exe"@,
        },
{
    if !files.exe {
        return Err(cat3("Precompiled bundle missing ", app_name, ".exe"));
    }
    let dir = join_path(project_dir, "perry-precompiled", style);
    let exe_path = join_path(&dir, &cat2(app_name, ".exe"), style);
    let ico_path = if files.ico {
        Some(join_path(&dir, "app.ico", style))
    } else {
        None
    };
    let dll_dir = if files.dll_dir {
        Some(join_path(&dir, "dlls", style))
    } else {
        None
    };
    Ok(PrecompiledBundle { exe_path, ico_path, dll_dir })
}

// ---------------------------------------------------------------------------
// Distribution
// ---------------------------------------------------------------------------

/// The distribution mode that a manifest names; an installer where it names none.
pub open spec fn mode_text(m: BuildManifest) -> Seq<char> {
    or_text(m.windows_distribute, "installer"@)
}

/// The distribution of a manifest. Any name but two means an installer.
pub open spec fn distribution_of(m: BuildManifest) -> Distribution {
    if mode_text(m) == "msix"@ {
        Distribution::Msix
    } else if mode_text(m) == "portable"@ {
        Distribution::Portable
    } else {
        Distribution::Installer
    }
}

/// The distribution of a manifest.
pub fn distribution(manifest: &BuildManifest) -> (r: Distribution)
    ensures
        r == distribution_of(*manifest),
{
    let mode = text_or(&manifest.windows_distribute, "installer");
    if same_text(mode, "msix") {
        Distribution::Msix
    } else if same_text(mode, "portable") {
        Distribution::Portable
    } else {
        Distribution::Installer
    }
}

impl Distribution {
    /// What the name of a package ends with.
    pub open spec fn suffix(self) -> Seq<char> {
        match self {
            Distribution::Installer => "-Setup.exe"@,
            Distribution::Msix => ".msix"@,
            Distribution::Portable => ".zip"@,
        }
    }

    /// The extension of a package.
    pub open spec fn extension(self) -> Seq<char> {
        match self {
            Distribution::Installer => "exe"@,
            Distribution::Msix => "msix"@,
            Distribution::Portable => "zip"@,
        }
    }

    fn suffix_text(self) -> (r: &'static str)
        ensures
            r@ == self.suffix(),
    {
        match self {
            Distribution::Installer => "-Setup.exe",
            Distribution::Msix => ".msix",
            Distribution::Portable => ".zip",
        }
    }

    fn extension_text(self) -> (r: &'static str)
        ensures
            r@ == self.extension(),
    {
        match self {
            Distribution::Installer => "exe",
            Distribution::Msix => "msix",
            Distribution::Portable => "zip",
        }
    }
}

/// The name of the finished artifact.
pub open spec fn artifact_name(m: BuildManifest, job_id: Seq<char>) -> Seq<char> {
    m.app_name@ + "-"@ + job_id + "."@ + distribution_of(m).extension()
}

fn artifact_name_text(manifest: &BuildManifest, job_id: &str) -> (r: String)
    ensures
        r@ == artifact_name(*manifest, job_id@),
{
    let mut s = cat4(&manifest.app_name, "-", job_id, ".");
    s.append(distribution(manifest).extension_text());
    s
}

// ---------------------------------------------------------------------------
// The steps
// ---------------------------------------------------------------------------

/// Where a build stands.
pub enum Phase {
    /// The directory of the build has to be made.
    CreateTmpdir,
    /// The directory of the project has to be made.
    CreateProjectDir,
    /// The archive has to be unpacked.
    Extract,
    /// A precompiled bundle has to be looked for.
    Detect,
    /// The directory for the compiler's output has to be made.
    CreateOutputDir,
    /// The project has to be compiled.
    Compile,
    /// The executable has to be looked for.
    LookForBinary,
    /// The icon has to be made, if the project has one.
    MakeIcon,
    /// The bundle has to be made.
    Bundle,
    /// The files of the precompiled bundle have to be looked for.
    Unpack,
    /// The directory of the bundle has to be made.
    CreateBundleDir,
    /// The precompiled executable has to be copied.
    CopyExe,
    /// The precompiled DLLs have to be copied.
    CopyDlls,
    /// The directories of assets have to be copied.
    CopyAssets,
    /// The resources have to be embedded.
    FinalizeBundle,
    /// The executable has to be signed.
    Sign,
    /// The package has to be made.
    Package,
    /// The package has to be signed.
    SignPackage,
    /// The directory for artifacts has to be made.
    CreateArtifactDir,
    /// The package has to be copied there.
    CopyArtifact,
    /// The directory of the build has to be removed; what the build came to is
    /// kept.
    Cleanup(Result<String, String>),
    /// The build is over.
    Finished(Result<String, String>),
}

/// Where a build stands.
pub enum PhaseView {
    CreateTmpdir,
    CreateProjectDir,
    Extract,
    Detect,
    CreateOutputDir,
    Compile,
    LookForBinary,
    MakeIcon,
    Bundle,
    Unpack,
    CreateBundleDir,
    CopyExe,
    CopyDlls,
    CopyAssets,
    FinalizeBundle,
    Sign,
    Package,
    SignPackage,
    CreateArtifactDir,
    CopyArtifact,
    Cleanup(Result<Seq<char>, Seq<char>>),
    Finished(Result<Seq<char>, Seq<char>>),
}

impl View for Phase {
    type V = PhaseView;

    open spec fn view(&self) -> PhaseView {
        match *self {
            Phase::CreateTmpdir => PhaseView::CreateTmpdir,
            Phase::CreateProjectDir => PhaseView::CreateProjectDir,
            Phase::Extract => PhaseView::Extract,
            Phase::Detect => PhaseView::Detect,
            Phase::CreateOutputDir => PhaseView::CreateOutputDir,
            Phase::Compile => PhaseView::Compile,
            Phase::LookForBinary => PhaseView::LookForBinary,
            Phase::MakeIcon => PhaseView::MakeIcon,
            Phase::Bundle => PhaseView::Bundle,
            Phase::Unpack => PhaseView::Unpack,
            Phase::CreateBundleDir => PhaseView::CreateBundleDir,
            Phase::CopyExe => PhaseView::CopyExe,
            Phase::CopyDlls => PhaseView::CopyDlls,
            Phase::CopyAssets => PhaseView::CopyAssets,
            Phase::FinalizeBundle => PhaseView::FinalizeBundle,
            Phase::Sign => PhaseView::Sign,
            Phase::Package => PhaseView::Package,
            Phase::SignPackage => PhaseView::SignPackage,
            Phase::CreateArtifactDir => PhaseView::CreateArtifactDir,
            Phase::CopyArtifact => PhaseView::CopyArtifact,
            Phase::Cleanup(r) => PhaseView::Cleanup(text_verdict(r)),
            Phase::Finished(r) => PhaseView::Finished(text_verdict(r)),
        }
    }
}

/// A build.
pub struct Build {
    pub phase: Phase,
    /// The directory for temporary files.
    pub temp_dir: String,
    /// The directory of the build.
    pub tmpdir: String,
    pub style: PathStyle,
    /// The precompiled bundle, once its files are known.
    pub bundle: Option<PrecompiledBundle>,
}

/// What came of a step.
pub enum BuildEvent {
    /// It was done, or it failed.
    Did(Result<(), String>),
    /// A precompiled bundle was found or not.
    Detected(bool),
    /// What was looked for is there or not.
    Found(bool),
    /// What the precompiled bundle holds.
    Unpacked(BundleFiles),
}

/// What a message of the build says.
pub enum Note {
    /// A stage begins, with that text.
    Stage(StageName, Seq<char>),
    /// A stage is so many percent done.
    Progress(StageName, int),
    /// Something else.
    Other,
}

/// What a message of the build says.
pub open spec fn note(m: ServerMessage) -> Note {
    match m {
        ServerMessage::Stage { stage, message } => Note::Stage(stage, message@),
        ServerMessage::Progress { stage, percent, message: None } => Note::Progress(
            stage,
            percent as int,
        ),
        _ => Note::Other,
    }
}

/// What messages of the build say.
pub open spec fn notes(list: Seq<ServerMessage>) -> Seq<Note> {
    list.map_values(|m: ServerMessage| note(m))
}

/// A stage is done.
pub open spec fn done(stage: StageName) -> Note {
    Note::Progress(stage, 100)
}

/// The step that ends a build with an error.
pub open spec fn failed(e: Seq<char>) -> PhaseView {
    PhaseView::Cleanup(Err(e))
}

/// A step that is taken unless the build was cancelled.
pub open spec fn unless_cancelled(cancelled: bool, next: PhaseView) -> PhaseView {
    if cancelled {
        failed("Build cancelled"@)
    } else {
        next
    }
}

/// A step behind one that was done; where it failed, the build fails with the
/// reason.
pub open spec fn if_done(r: Result<(), String>, next: PhaseView) -> PhaseView {
    match r {
        Ok(_) => next,
        Err(e) => failed(e@),
    }
}

/// A step behind one that was done; where it failed, the build fails with the
/// reason behind the given text.
pub open spec fn if_done_else(r: Result<(), String>, what: Seq<char>, next: PhaseView) -> PhaseView {
    match r {
        Ok(_) => next,
        Err(e) => failed(what + e@),
    }
}

/// What is announced once the archive is unpacked.
pub open spec fn extracted_notes(precompiled: bool) -> Seq<Note> {
    if precompiled {
        seq![
            Note::Stage(StageName::Extracting, "Precompiled bundle extracted"@),
            done(StageName::Extracting),
            Note::Stage(
                StageName::Compiling,
                "Skipping compilation (precompiled by Linux worker)"@,
            ),
            done(StageName::Compiling),
            Note::Stage(StageName::GeneratingAssets, "Using precompiled assets"@),
            done(StageName::GeneratingAssets),
        ]
    } else {
        seq![
            Note::Stage(StageName::Extracting, "Project already extracted"@),
            done(StageName::Extracting),
            Note::Stage(StageName::Compiling, "Compiling TypeScript to native"@),
        ]
    }
}

/// What is announced as the bundle is begun.
pub open spec fn bundling_note() -> Note {
    Note::Stage(StageName::Bundling, "Embedding resources into executable"@)
}

/// What is announced as the package is begun.
pub open spec fn packaging_note(m: BuildManifest) -> Note {
    Note::Stage(StageName::Packaging, "Creating "@ + mode_text(m) + " package"@)
}

/// What is announced once the package is done.
pub open spec fn published_notes() -> Seq<Note> {
    seq![
        done(StageName::Packaging),
        Note::Stage(StageName::Publishing, "Skipping store upload (not configured)"@),
        done(StageName::Publishing),
    ]
}

/// Where the finished artifact goes.
pub open spec fn artifact_path(b: Build, r: BuildRequest) -> Seq<char> {
    below(
        below(b.temp_dir@, "perry-artifacts"@, b.style),
        artifact_name(r.manifest, r.job_id@),
        b.style,
    )
}

/// Where a build stands after an event. Where the build's directory cannot be
/// made the build ends at once; behind that the directory is removed first. An
/// event that does not answer what was to be done changes
/// nothing.
pub open spec fn next_phase(
    phase: PhaseView,
    m: BuildManifest,
    artifact: Seq<char>,
    event: BuildEvent,
    cancelled: bool,
) -> PhaseView {
    match (phase, event) {
        (PhaseView::CreateTmpdir, BuildEvent::Did(Ok(_))) => PhaseView::CreateProjectDir,
        (PhaseView::CreateTmpdir, BuildEvent::Did(Err(e))) => PhaseView::Finished(
            Err("Failed to create tmpdir: "@ + e@),
        ),
        (PhaseView::CreateProjectDir, BuildEvent::Did(d)) => if_done_else(
            d,
            "Failed to create project dir: "@,
            PhaseView::Extract,
        ),
        (PhaseView::Extract, BuildEvent::Did(d)) => if_done(d, PhaseView::Detect),
        (PhaseView::Detect, BuildEvent::Detected(true)) => PhaseView::Unpack,
        (PhaseView::Detect, BuildEvent::Detected(false)) => unless_cancelled(
            cancelled,
            PhaseView::CreateOutputDir,
        ),
        (PhaseView::CreateOutputDir, BuildEvent::Did(d)) => if_done_else(d, "Failed to create output dir: "@,
            PhaseView::Compile,
        ),
        (PhaseView::Compile, BuildEvent::Did(d)) => if_done(d, PhaseView::LookForBinary),
        (PhaseView::LookForBinary, BuildEvent::Found(true)) => unless_cancelled(
            cancelled,
            PhaseView::MakeIcon,
        ),
        (PhaseView::LookForBinary, BuildEvent::Found(false)) => failed(
            "Compiler produced no output .exe binary"@,
        ),
        (PhaseView::MakeIcon, BuildEvent::Did(d)) => if_done(d, unless_cancelled(cancelled, PhaseView::Bundle),
        ),
        (PhaseView::Bundle, BuildEvent::Did(d)) => if_done(d, unless_cancelled(cancelled, PhaseView::Sign),
        ),
        (PhaseView::Unpack, BuildEvent::Unpacked(files)) => if files.exe {
            unless_cancelled(cancelled, PhaseView::CreateBundleDir)
        } else {
            failed("Precompiled bundle missing "@ + m.app_name@ + ".exe"@)
        },
        (PhaseView::CreateBundleDir, BuildEvent::Did(d)) => if_done_else(d, "Failed to create bundle dir: "@,
            PhaseView::CopyExe,
        ),
        (PhaseView::CopyExe, BuildEvent::Did(d)) => if_done_else(d, "Failed to copy exe to bundle: "@,
            PhaseView::CopyDlls,
        ),
        (PhaseView::CopyDlls, BuildEvent::Did(d)) => if_done_else(d, "Failed to copy DLL: "@,
            PhaseView::CopyAssets,
        ),
        (PhaseView::CopyAssets, BuildEvent::Did(_)) => PhaseView::FinalizeBundle,
        (PhaseView::FinalizeBundle, BuildEvent::Did(d)) => if_done(d, unless_cancelled(cancelled, PhaseView::Sign),
        ),
        (PhaseView::Sign, BuildEvent::Did(_)) => unless_cancelled(cancelled, PhaseView::Package),
        (PhaseView::Package, BuildEvent::Did(d)) => if_done(d, if distribution_of(m) == Distribution::Portable {
                PhaseView::CreateArtifactDir
            } else {
                PhaseView::SignPackage
            },
        ),
        (PhaseView::SignPackage, BuildEvent::Did(_)) => PhaseView::CreateArtifactDir,
        (PhaseView::CreateArtifactDir, BuildEvent::Did(d)) => if_done_else(d, "Failed to create artifact dir: "@,
            PhaseView::CopyArtifact,
        ),
        (PhaseView::CopyArtifact, BuildEvent::Did(d)) => if_done_else(d, "Failed to copy artifact: "@,
            PhaseView::Cleanup(Ok(artifact)),
        ),
        (PhaseView::Cleanup(result), BuildEvent::Did(_)) => PhaseView::Finished(result),
        _ => phase,
    }
}

/// Where a build stands after an event.
pub open spec fn build_next(b: Build, r: BuildRequest, event: BuildEvent, cancelled: bool) -> PhaseView {
    next_phase(b.phase@, r.manifest, artifact_path(b, r), event, cancelled)
}

/// How a build stands after an event: only the phase moves on, but for the files
/// of a precompiled bundle, which are kept once they are known.
pub open spec fn advances(
    b: Build,
    r: BuildRequest,
    event: BuildEvent,
    cancelled: bool,
    next: Build,
) -> bool {
    &&& next.phase@ == build_next(b, r, event, cancelled)
    &&& next.same_places(b)
    &&& next.well_formed()
    &&& match (b.phase, event) {
        (Phase::Unpack, BuildEvent::Unpacked(files)) if files.exe => next.bundle matches Some(
            bundle,
        ) && bundle.is_bundle_in(b.project_dir(), r.manifest.app_name@, files, b.style),
        _ => next.bundle == b.bundle,
    }
}

/// What is announced after an event.
pub open spec fn phase_notes(phase: PhaseView, m: BuildManifest, event: BuildEvent) -> Seq<Note> {
    match (phase, event) {
        (PhaseView::Detect, BuildEvent::Detected(precompiled)) => extracted_notes(precompiled),
        (PhaseView::LookForBinary, BuildEvent::Found(true)) => seq![
            done(StageName::Compiling),
            Note::Stage(StageName::GeneratingAssets, "Generating Windows icon"@),
        ],
        (PhaseView::MakeIcon, BuildEvent::Did(Ok(_))) => seq![
            done(StageName::GeneratingAssets),
            bundling_note(),
        ],
        (PhaseView::Unpack, BuildEvent::Unpacked(files)) => if files.exe {
            seq![bundling_note()]
        } else {
            Seq::empty()
        },
        (PhaseView::Bundle, BuildEvent::Did(Ok(_))) => seq![
            done(StageName::Bundling),
            Note::Stage(StageName::Signing, "Signing executable"@),
        ],
        (PhaseView::FinalizeBundle, BuildEvent::Did(Ok(_))) => seq![
            done(StageName::Bundling),
            Note::Stage(StageName::Signing, "Signing executable"@),
        ],
        (PhaseView::Sign, BuildEvent::Did(_)) => seq![
            done(StageName::Signing),
            packaging_note(m),
        ],
        (PhaseView::Package, BuildEvent::Did(Ok(_))) => if distribution_of(m)
            == Distribution::Portable {
            published_notes()
        } else {
            Seq::empty()
        },
        (PhaseView::SignPackage, BuildEvent::Did(_)) => published_notes(),
        _ => Seq::empty(),
    }
}

/// What is announced after an event.
pub open spec fn build_notes(b: Build, r: BuildRequest, event: BuildEvent) -> Seq<Note> {
    phase_notes(b.phase@, r.manifest, event)
}

fn push_stage(list: &mut Vec<ServerMessage>, stage: StageName, message: &str)
    ensures
        notes(final(list)@) == notes(old(list)@).push(Note::Stage(stage, message@)),
{
    list.push(send_stage(stage, message));
    assert(notes(list@) =~= notes(old(list)@).push(Note::Stage(stage, message@)));
}

fn push_done(list: &mut Vec<ServerMessage>, stage: StageName)
    ensures
        notes(final(list)@) == notes(old(list)@).push(done(stage)),
{
    list.push(send_progress(stage, 100));
    assert(notes(list@) =~= notes(old(list)@).push(done(stage)));
}

fn check_cancelled(cancelled: bool, next: Phase) -> (r: Phase)
    ensures
        r@ == unless_cancelled(cancelled, next@),
{
    if cancelled {
        Phase::Cleanup(Err("Build cancelled".to_owned()))
    } else {
        next
    }
}

fn after(done: Result<(), String>, next: Phase) -> (r: Phase)
    ensures
        r@ == if_done(done, next@),
{
    match done {
        Ok(_) => next,
        Err(e) => Phase::Cleanup(Err(e)),
    }
}

fn after_else(done: Result<(), String>, what: &str, next: Phase) -> (r: Phase)
    ensures
        r@ == if_done_else(done, what@, next@),
{
    match done {
        Ok(_) => next,
        Err(e) => Phase::Cleanup(Err(cat2(what, &e))),
    }
}

impl Build {
    /// Begins a build whose manifest is in order; `tmpdir` is the directory to
    /// work in, below the directory for temporary files.
    fn new(temp_dir: &str, tmpdir: &str, style: PathStyle) -> (b: Build)
        ensures
            b.phase@ == PhaseView::CreateTmpdir,
            b.temp_dir@ == temp_dir@,
            b.tmpdir@ == tmpdir@,
            b.style == style,
            b.bundle is None,
    {
        Build {
            phase: Phase::CreateTmpdir,
            temp_dir: temp_dir.to_owned(),
            tmpdir: tmpdir.to_owned(),
            style,
            bundle: None,
        }
    }

    /// Where the project is unpacked.
    pub open spec fn project_dir(self) -> Seq<char> {
        below(self.tmpdir@, "project"@, self.style)
    }

    fn project_path(&self) -> (s: String)
        ensures
            s@ == self.project_dir(),
    {
        join_path(&self.tmpdir, "project", self.style)
    }

    /// All but the phase is as in another one.
    pub open spec fn same_places(self, other: Build) -> bool {
        &&& self.temp_dir == other.temp_dir
        &&& self.tmpdir == other.tmpdir
        &&& self.style == other.style
    }

    /// Between the unpacking of a precompiled bundle and its signing, the
    /// bundle's files are known.
    pub open spec fn well_formed(self) -> bool {
        match self.phase {
            Phase::CreateBundleDir => self.bundle is Some,
            Phase::CopyExe => self.bundle is Some,
            Phase::CopyDlls => self.bundle is Some,
            Phase::CopyAssets => self.bundle is Some,
            Phase::FinalizeBundle => self.bundle is Some,
            _ => true,
        }
    }

    /// Takes what came of the last step, and gives the messages to send.
    /// `cancelled` says whether the build has been cancelled by now.
    pub fn advance(&mut self, request: &BuildRequest, event: BuildEvent, cancelled: bool) -> (sent:
        Vec<ServerMessage>)
        requires
            old(self).well_formed(),
        ensures
            final(self).phase@ == build_next(*old(self), *request, event, cancelled),
            notes(sent@) == build_notes(*old(self), *request, event),
            advances(*old(self), *request, event, cancelled, *final(self)),
            final(self).same_places(*old(self)),
            final(self).well_formed(),
            match (old(self).phase, event) {
                (Phase::Unpack, BuildEvent::Unpacked(files)) if files.exe =>
                final(self).bundle matches Some(bundle) && bundle.is_bundle_in(
                    old(self).project_dir(),
                    request.manifest.app_name@,
                    files,
                    old(self).style,
                ),
                _ => final(self).bundle == old(self).bundle,
            },
    {
        let m = &request.manifest;
        let mut sent: Vec<ServerMessage> = Vec::new();
        assert(notes(sent@) =~= Seq::<Note>::empty());
        let mut phase = Phase::Detect;
        std::mem::swap(&mut phase, &mut self.phase);
        let next = match (phase, event) {
            (Phase::CreateTmpdir, BuildEvent::Did(Ok(_))) => Phase::CreateProjectDir,
            (Phase::CreateTmpdir, BuildEvent::Did(Err(e))) => Phase::Finished(
                Err(cat2("Failed to create tmpdir: ", &e)),
            ),
            (Phase::CreateProjectDir, BuildEvent::Did(d)) => after_else(
                d,
                "Failed to create project dir: ",
                Phase::Extract,
            ),
            (Phase::Extract, BuildEvent::Did(d)) => after(d, Phase::Detect),
            (Phase::Detect, BuildEvent::Detected(precompiled)) => {
                if precompiled {
                    push_stage(&mut sent, StageName::Extracting, "Precompiled bundle extracted");
                    push_done(&mut sent, StageName::Extracting);
                    push_stage(
                        &mut sent,
                        StageName::Compiling,
                        "Skipping compilation (precompiled by Linux worker)",
                    );
                    push_done(&mut sent, StageName::Compiling);
                    push_stage(&mut sent, StageName::GeneratingAssets, "Using precompiled assets");
                    push_done(&mut sent, StageName::GeneratingAssets);
                    assert(notes(sent@) =~= extracted_notes(true));
                    Phase::Unpack
                } else {
                    push_stage(&mut sent, StageName::Extracting, "Project already extracted");
                    push_done(&mut sent, StageName::Extracting);
                    push_stage(&mut sent, StageName::Compiling, "Compiling TypeScript to native");
                    assert(notes(sent@) =~= extracted_notes(false));
                    check_cancelled(cancelled, Phase::CreateOutputDir)
                }
            },
            (Phase::CreateOutputDir, BuildEvent::Did(d)) => after_else(d, "Failed to create output dir: ",
                Phase::Compile,
            ),
            (Phase::Compile, BuildEvent::Did(d)) => after(d, Phase::LookForBinary),
            (Phase::LookForBinary, BuildEvent::Found(found)) => {
                if found {
                    push_done(&mut sent, StageName::Compiling);
                    push_stage(&mut sent, StageName::GeneratingAssets, "Generating Windows icon");
                    check_cancelled(cancelled, Phase::MakeIcon)
                } else {
                    Phase::Cleanup(Err("Compiler produced no output .exe binary".to_owned()))
                }
            },
            (Phase::MakeIcon, BuildEvent::Did(d)) => {
                if d.is_ok() {
                    push_done(&mut sent, StageName::GeneratingAssets);
                    push_stage(
                        &mut sent,
                        StageName::Bundling,
                        "Embedding resources into executable",
                    );
                }
                after(d, check_cancelled(cancelled, Phase::Bundle))
            },
            (Phase::Bundle, BuildEvent::Did(d)) => {
                if d.is_ok() {
                    push_done(&mut sent, StageName::Bundling);
                    push_stage(&mut sent, StageName::Signing, "Signing executable");
                }
                after(d, check_cancelled(cancelled, Phase::Sign))
            },
            (Phase::Unpack, BuildEvent::Unpacked(files)) => {
                let project = self.project_path();
                match unpack_precompiled_bundle(&project, &m.app_name, files, self.style) {
                    Ok(bundle) => {
                        push_stage(
                            &mut sent,
                            StageName::Bundling,
                            "Embedding resources into executable",
                        );
                        self.bundle = Some(bundle);
                        check_cancelled(cancelled, Phase::CreateBundleDir)
                    },
                    Err(e) => Phase::Cleanup(Err(e)),
                }
            },
            (Phase::CreateBundleDir, BuildEvent::Did(d)) => after_else(d, "Failed to create bundle dir: ",
                Phase::CopyExe,
            ),
            (Phase::CopyExe, BuildEvent::Did(d)) => after_else(d, "Failed to copy exe to bundle: ",
                Phase::CopyDlls,
            ),
            (Phase::CopyDlls, BuildEvent::Did(d)) => after_else(d, "Failed to copy DLL: ",
                Phase::CopyAssets,
            ),
            (Phase::CopyAssets, BuildEvent::Did(_)) => Phase::FinalizeBundle,
            (Phase::FinalizeBundle, BuildEvent::Did(d)) => {
                if d.is_ok() {
                    push_done(&mut sent, StageName::Bundling);
                    push_stage(&mut sent, StageName::Signing, "Signing executable");
                }
                after(d, check_cancelled(cancelled, Phase::Sign))
            },
            (Phase::Sign, BuildEvent::Did(_)) => {
                push_done(&mut sent, StageName::Signing);
                let mode = text_or(&m.windows_distribute, "installer");
                let message = cat3("Creating ", mode, " package");
                push_stage(&mut sent, StageName::Packaging, &message);
                check_cancelled(cancelled, Phase::Package)
            },
            (Phase::Package, BuildEvent::Did(d)) => {
                if distribution(m) == Distribution::Portable {
                    if d.is_ok() {
                        push_published(&mut sent);
                    }
                    after(d, Phase::CreateArtifactDir)
                } else {
                    after(d, Phase::SignPackage)
                }
            },
            (Phase::SignPackage, BuildEvent::Did(_)) => {
                push_published(&mut sent);
                Phase::CreateArtifactDir
            },
            (Phase::CreateArtifactDir, BuildEvent::Did(d)) => after_else(d, "Failed to create artifact dir: ",
                Phase::CopyArtifact,
            ),
            (Phase::CopyArtifact, BuildEvent::Did(d)) => after_else(d, "Failed to copy artifact: ",
                Phase::Cleanup(Ok(self.artifact_file(request))),
            ),
            (Phase::Cleanup(result), BuildEvent::Did(_)) => Phase::Finished(result),
            (other, _) => other,
        };
        self.phase = next;
        assert(notes(sent@) =~= build_notes(*old(self), *request, event));
        sent
    }

    fn artifact_file(&self, request: &BuildRequest) -> (s: String)
        ensures
            s@ == artifact_path(*self, *request),
    {
        let dir = join_path(&self.temp_dir, "perry-artifacts", self.style);
        join_path(&dir, &artifact_name_text(&request.manifest, &request.job_id), self.style)
    }
}

fn push_published(list: &mut Vec<ServerMessage>)
    ensures
        notes(final(list)@) == notes(old(list)@) + published_notes(),
{
    push_done(list, StageName::Packaging);
    push_stage(list, StageName::Publishing, "Skipping store upload (not configured)");
    push_done(list, StageName::Publishing);
    assert(notes(list@) =~= notes(old(list)@) + published_notes());
}

// ---------------------------------------------------------------------------
// What is to be done
// ---------------------------------------------------------------------------

/// What is to be done next.
#[allow(inconsistent_fields)]
pub enum BuildAction {
    /// Make a directory.
    CreateDir(String),
    /// Unpack an archive.
    Extract { tarball: String, dest: String },
    /// See whether there is metadata of a precompiled bundle.
    Detect { metadata: String },
    /// Compile the project, in a container if `isolated`.
    Compile { project_dir: String, output: String, isolated: bool },
    /// See whether a file is there.
    LookFor(String),
    /// Make an icon of an image, if there is one.
    MakeIcon { source: Option<String>, output: String },
    /// Make the bundle of an executable; the icon is embedded if it is there.
    Bundle { binary: String, ico: String, bundle_dir: String },
    /// See which of the files of a precompiled bundle are there.
    Unpack { exe: String, ico: String, dll_dir: String },
    /// Copy a file.
    Copy { from: String, to: String },
    /// Copy the files of a directory, if there is one.
    CopyFiles { from: Option<String>, to: String },
    /// Copy directories with all that is in them, as far as they are there.
    CopyDirs { from: String, names: Vec<String>, to: String },
    /// Embed the resources into the executable of a bundle.
    FinalizeBundle { bundle_dir: String, ico: Option<String> },
    /// Sign a file, on the host.
    Sign { file: String },
    /// Make a package, in a container if `isolated`.
    Package { kind: Distribution, bundle_dir: String, output: String, isolated: bool },
    /// Remove the build's directory.
    Cleanup(String),
    /// Nothing.
    Finish,
}

/// The directories of assets that a precompiled bundle may bring along.
pub const ASSET_DIRS: [&'static str; 4] = ["assets", "logo", "resources", "images"];

impl Build {
    /// Where the compiler puts its output.
    pub open spec fn output_dir(self) -> Seq<char> {
        below(self.tmpdir@, "output"@, self.style)
    }

    /// The executable that the compiler makes.
    pub open spec fn binary(self, m: BuildManifest) -> Seq<char> {
        below(self.output_dir(), m.app_name@ + ".exe"@, self.style)
    }

    /// The icon of the executable.
    pub open spec fn icon(self) -> Seq<char> {
        below(self.tmpdir@, "app.ico"@, self.style)
    }

    /// The directory of the bundle.
    pub open spec fn bundle_dir(self) -> Seq<char> {
        below(self.tmpdir@, "bundle"@, self.style)
    }

    /// The executable in the bundle.
    pub open spec fn bundled_exe(self, m: BuildManifest) -> Seq<char> {
        below(self.bundle_dir(), m.app_name@ + ".exe"@, self.style)
    }

    /// The package.
    pub open spec fn package(self, m: BuildManifest) -> Seq<char> {
        below(self.tmpdir@, m.app_name@ + distribution_of(m).suffix(), self.style)
    }

    /// The image that the icon is made of.
    pub open spec fn icon_source(self, m: BuildManifest) -> Option<Seq<char>> {
        match m.icon {
            Some(name) => Some(below(self.project_dir(), name@, self.style)),
            None => None,
        }
    }

    fn output_path(&self) -> (s: String)
        ensures
            s@ == self.output_dir(),
    {
        join_path(&self.tmpdir, "output", self.style)
    }

    fn binary_path(&self, m: &BuildManifest) -> (s: String)
        ensures
            s@ == self.binary(*m),
    {
        join_path(&self.output_path(), &cat2(&m.app_name, ".exe"), self.style)
    }

    fn icon_path(&self) -> (s: String)
        ensures
            s@ == self.icon(),
    {
        join_path(&self.tmpdir, "app.ico", self.style)
    }

    fn bundle_path(&self) -> (s: String)
        ensures
            s@ == self.bundle_dir(),
    {
        join_path(&self.tmpdir, "bundle", self.style)
    }

    fn bundled_exe_path(&self, m: &BuildManifest) -> (s: String)
        ensures
            s@ == self.bundled_exe(*m),
    {
        join_path(&self.bundle_path(), &cat2(&m.app_name, ".exe"), self.style)
    }

    fn package_path(&self, m: &BuildManifest) -> (s: String)
        ensures
            s@ == self.package(*m),
    {
        let name = cat2(&m.app_name, distribution(m).suffix_text());
        join_path(&self.tmpdir, &name, self.style)
    }
}

/// The texts of a list of literals.
pub open spec fn literal_texts(list: Seq<&'static str>) -> Seq<Seq<char>> {
    list.map_values(|s: &'static str| s@)
}

/// Whether a step runs in a container: where isolation is on, and a tool of its
/// own makes the package.
pub open spec fn is_isolated_package(kind: Distribution, isolation: bool) -> bool {
    isolation && kind != Distribution::Portable
}

/// What is to be done where a build stands. `isolation` says whether steps run
/// in containers; signing never does.
pub open spec fn is_build_action(
    action: BuildAction,
    b: Build,
    r: BuildRequest,
    isolation: bool,
) -> bool {
    let m = r.manifest;
    match b.phase {
        Phase::CreateTmpdir => action matches BuildAction::CreateDir(p) && p@ == b.tmpdir@,
        Phase::CreateProjectDir => action matches BuildAction::CreateDir(p) && p@
            == b.project_dir(),
        Phase::Extract => action matches BuildAction::Extract { tarball, dest } && tarball@
            == r.tarball_path@ && dest@ == b.project_dir(),
        Phase::Detect => action matches BuildAction::Detect { metadata } && metadata@
            == metadata_file(b.project_dir(), b.style),
        Phase::CreateOutputDir => action matches BuildAction::CreateDir(p) && p@ == b.output_dir(),
        Phase::Compile => action matches BuildAction::Compile { project_dir, output, isolated }
            && project_dir@ == b.project_dir() && output@ == b.binary(m) && isolated == isolation,
        Phase::LookForBinary => action matches BuildAction::LookFor(p) && p@ == b.binary(m),
        Phase::MakeIcon => action matches BuildAction::MakeIcon { source, output } && opt_text(
            source,
        ) == b.icon_source(m) && output@ == b.icon(),
        Phase::Bundle => action matches BuildAction::Bundle { binary, ico, bundle_dir } && binary@
            == b.binary(m) && ico@ == b.icon() && bundle_dir@ == b.bundle_dir(),
        Phase::Unpack => action matches BuildAction::Unpack { exe, ico, dll_dir } && exe@
            == precompiled_exe(b.project_dir(), m.app_name@, b.style) && ico@ == precompiled_ico(
            b.project_dir(),
            b.style,
        ) && dll_dir@ == precompiled_dlls(b.project_dir(), b.style),
        Phase::CreateBundleDir => action matches BuildAction::CreateDir(p) && p@ == b.bundle_dir(),
        Phase::CopyExe => action matches BuildAction::Copy { from, to } && from@
            == b.bundle->Some_0.exe_path@ && to@ == b.bundled_exe(m),
        Phase::CopyDlls => action matches BuildAction::CopyFiles { from, to } && opt_text(from)
            == opt_text(b.bundle->Some_0.dll_dir) && to@ == b.bundle_dir(),
        Phase::CopyAssets => action matches BuildAction::CopyDirs { from, names, to } && from@
            == precompiled_dir(b.project_dir(), b.style) && texts(names@)
            == literal_texts(ASSET_DIRS@) && to@ == b.bundle_dir(),
        Phase::FinalizeBundle => action matches BuildAction::FinalizeBundle { bundle_dir, ico }
            && bundle_dir@ == b.bundle_dir() && opt_text(ico) == opt_text(
            b.bundle->Some_0.ico_path,
        ),
        Phase::Sign => action matches BuildAction::Sign { file } && file@ == b.bundled_exe(m),
        Phase::Package => action matches BuildAction::Package {
            kind,
            bundle_dir,
            output,
            isolated,
        } && kind == distribution_of(m) && bundle_dir@ == b.bundle_dir() && output@ == b.package(m)
            && isolated == is_isolated_package(kind, isolation),
        Phase::SignPackage => action matches BuildAction::Sign { file } && file@ == b.package(m),
        Phase::CreateArtifactDir => action matches BuildAction::CreateDir(p) && p@ == below(
            b.temp_dir@,
            "perry-artifacts"@,
            b.style,
        ),
        Phase::CopyArtifact => action matches BuildAction::Copy { from, to } && from@ == b.package(
            m,
        ) && to@ == artifact_path(b, r),
        Phase::Cleanup(_) => action matches BuildAction::Cleanup(p) && p@ == b.tmpdir@,
        Phase::Finished(_) => action is Finish,
    }
}

fn asset_dirs() -> (r: Vec<String>)
    ensures
        texts(r@) == literal_texts(ASSET_DIRS@),
{
    let ghost all = literal_texts(ASSET_DIRS@);
    let mut r: Vec<String> = Vec::new();
    let mut i: usize = 0;
    assert(texts(r@) =~= all.take(0));
    while i < ASSET_DIRS.len()
        invariant
            i <= ASSET_DIRS@.len(),
            all == literal_texts(ASSET_DIRS@),
            texts(r@) == all.take(i as int),
        decreases ASSET_DIRS@.len() - i,
    {
        push_text(&mut r, ASSET_DIRS[i]);
        assert(texts(r@) =~= all.take(i + 1));
        i = i + 1;
    }
    assert(all.take(all.len() as int) =~= all);
    r
}

impl Build {
    /// What is to be done next. `isolation` says whether steps run in
    /// containers.
    pub fn action(&self, request: &BuildRequest, isolation: bool) -> (r: BuildAction)
        requires
            self.well_formed(),
        ensures
            is_build_action(r, *self, *request, isolation),
    {
        let m = &request.manifest;
        match &self.phase {
            Phase::CreateTmpdir => BuildAction::CreateDir(self.tmpdir.clone()),
            Phase::CreateProjectDir => BuildAction::CreateDir(self.project_path()),
            Phase::Extract => BuildAction::Extract {
                tarball: request.tarball_path.clone(),
                dest: self.project_path(),
            },
            Phase::Detect => BuildAction::Detect {
                metadata: metadata_path(&self.project_path(), self.style),
            },
            Phase::CreateOutputDir => BuildAction::CreateDir(self.output_path()),
            Phase::Compile => BuildAction::Compile {
                project_dir: self.project_path(),
                output: self.binary_path(m),
                isolated: isolation,
            },
            Phase::LookForBinary => BuildAction::LookFor(self.binary_path(m)),
            Phase::MakeIcon => {
                let source = match &m.icon {
                    Some(name) => Some(join_path(&self.project_path(), name, self.style)),
                    None => None,
                };
                BuildAction::MakeIcon { source, output: self.icon_path() }
            },
            Phase::Bundle => BuildAction::Bundle {
                binary: self.binary_path(m),
                ico: self.icon_path(),
                bundle_dir: self.bundle_path(),
            },
            Phase::Unpack => {
                let dir = join_path(&self.project_path(), "perry-precompiled", self.style);
                BuildAction::Unpack {
                    exe: join_path(&dir, &cat2(&m.app_name, ".exe"), self.style),
                    ico: join_path(&dir, "app.ico", self.style),
                    dll_dir: join_path(&dir, "dlls", self.style),
                }
            },
            Phase::CreateBundleDir => BuildAction::CreateDir(self.bundle_path()),
            Phase::CopyExe => {
                let from = match &self.bundle {
                    Some(bundle) => bundle.exe_path.clone(),
                    None => String::new(),
                };
                BuildAction::Copy { from, to: self.bundled_exe_path(m) }
            },
            Phase::CopyDlls => {
                let from = match &self.bundle {
                    Some(bundle) => copy_opt(&bundle.dll_dir),
                    None => None,
                };
                BuildAction::CopyFiles { from, to: self.bundle_path() }
            },
            Phase::CopyAssets => BuildAction::CopyDirs {
                from: join_path(&self.project_path(), "perry-precompiled", self.style),
                names: asset_dirs(),
                to: self.bundle_path(),
            },
            Phase::FinalizeBundle => {
                let ico = match &self.bundle {
                    Some(bundle) => copy_opt(&bundle.ico_path),
                    None => None,
                };
                BuildAction::FinalizeBundle { bundle_dir: self.bundle_path(), ico }
            },
            Phase::Sign => BuildAction::Sign { file: self.bundled_exe_path(m) },
            Phase::Package => {
                let kind = distribution(m);
                BuildAction::Package {
                    kind,
                    bundle_dir: self.bundle_path(),
                    output: self.package_path(m),
                    isolated: isolation && kind != Distribution::Portable,
                }
            },
            Phase::SignPackage => BuildAction::Sign { file: self.package_path(m) },
            Phase::CreateArtifactDir => BuildAction::CreateDir(
                join_path(&self.temp_dir, "perry-artifacts", self.style),
            ),
            Phase::CopyArtifact => BuildAction::Copy {
                from: self.package_path(m),
                to: self.artifact_file(request),
            },
            Phase::Cleanup(_) => BuildAction::Cleanup(self.tmpdir.clone()),
            Phase::Finished(_) => BuildAction::Finish,
        }
    }

    /// What the build came to, once it is over.
    pub fn result(&self) -> (r: Option<Result<String, String>>)
        ensures
            match self.phase@ {
                PhaseView::Finished(result) => r matches Some(given) && text_verdict(given)
                    == result,
                _ => r is None,
            },
    {
        match &self.phase {
            Phase::Finished(Ok(path)) => Some(Ok(path.clone())),
            Phase::Finished(Err(e)) => Some(Err(e.clone())),
            _ => None,
        }
    }
}

/// Begins the build of a request: where the manifest is not in order there is
/// none.
pub fn execute_build(
    request: &BuildRequest,
    temp_dir: &str,
    tmpdir: &str,
    style: PathStyle,
) -> (r: Result<Build, String>)
    ensures
        match (r, manifest_verdict(request.manifest, style)) {
            (Ok(b), Ok(_)) => {
                &&& b.phase@ == PhaseView::CreateTmpdir
                &&& b.temp_dir@ == temp_dir@
                &&& b.tmpdir@ == tmpdir@
                &&& b.style == style
                &&& b.bundle is None
                &&& b.well_formed()
            },
            (Err(e), Err(message)) => e@ == message,
            _ => false,
        },
{
    match validate_manifest_for(&request.manifest, style) {
        Ok(_) => Ok(Build::new(temp_dir, tmpdir, style)),
        Err(e) => Err(e),
    }
}

} // verus!
