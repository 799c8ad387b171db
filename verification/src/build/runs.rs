//! What holds of a build as a whole: which files go from which step to which.
use crate::build::guarantees::{answers, steps_left};
use crate::build::pipeline::{
    advances, check_entry_path, execute_build, unpack_precompiled_bundle, Build, BuildAction,
    BuildEvent, BuildRequest, BundleFiles, Distribution, PhaseView, PrecompiledBundle,
};
use crate::build::validate::{validate_manifest_for, validate_relative_path_for};
use crate::paths::{below, has_parent, is_absolute, PathStyle};
use crate::text::{ends_with, opt_text, or_text, texts};
use vstd::prelude::*;

verus! {

/// One turn of a build: what was to be done where it stood, what came of it, and
/// how the build stood then.
pub struct Turn {
    pub before: Build,
    pub action: BuildAction,
    pub event: BuildEvent,
    pub cancelled: bool,
    pub after: Build,
}

/// Whether turns follow each other from the beginning of a build.
pub open spec fn is_run(turns: Seq<Turn>, r: BuildRequest, isolation: bool) -> bool {
    &&& turns.len() > 0
    &&& turns[0].before.phase@ == PhaseView::CreateTmpdir
    &&& forall|i: int|
        0 <= i < turns.len() ==> {
            let t = #[trigger] turns[i];
            &&& t.before.well_formed()
            &&& call_ensures(Build::action, (&t.before, &r, isolation), t.action)
            &&& advances(t.before, r, t.event, t.cancelled, t.after)
        }
    &&& forall|i: int, j: int|
        0 <= i && j == i + 1 && j < turns.len() ==> (#[trigger] turns[j]).before == (
        #[trigger] turns[i]).after
}

/// Whether turns are a build that succeeded with the given artifact.
pub open spec fn succeeded(
    turns: Seq<Turn>,
    r: BuildRequest,
    isolation: bool,
    artifact: Seq<char>,
) -> bool {
    is_run(turns, r, isolation) && turns.last().after.phase@ == PhaseView::Finished(
        Ok::<Seq<char>, Seq<char>>(artifact),
    )
}

/// The directory that a build was begun with.
pub open spec fn workplace(turns: Seq<Turn>) -> Seq<char> {
    turns[0].before.tmpdir@
}

/// A place in the directory of a build.
pub open spec fn place(turns: Seq<Turn>, name: Seq<char>) -> Seq<char> {
    below(workplace(turns), name, turns[0].before.style)
}

/// A place in the precompiled bundle of a project.
pub open spec fn bundled(turns: Seq<Turn>, name: Seq<char>) -> Seq<char> {
    let style = turns[0].before.style;
    below(below(place(turns, "project"@), "perry-precompiled"@, style), name, style)
}

/// Whether a step was done.
pub open spec fn was_done(t: Turn) -> bool {
    t.event matches BuildEvent::Did(Ok(_))
}

// ---------------------------------------------------------------------------
// Looking back
// ---------------------------------------------------------------------------

/// A build keeps its places.
proof fn lemma_places_stay(turns: Seq<Turn>, r: BuildRequest, isolation: bool, i: int)
    requires
        is_run(turns, r, isolation),
        0 <= i < turns.len(),
    ensures
        turns[i].before.same_places(turns[0].before),
        turns[i].after.same_places(turns[0].before),
    decreases i,
{
    if i > 0 {
        lemma_places_stay(turns, r, isolation, i - 1);
        assert(turns[i].before == turns[i - 1].after);
    }
}

/// The turn in which a build came to where it stands.
proof fn lemma_entered(
    turns: Seq<Turn>,
    r: BuildRequest,
    isolation: bool,
    i: int,
    phase: PhaseView,
) -> (j: int)
    requires
        is_run(turns, r, isolation),
        0 <= i < turns.len(),
        turns[i].before.phase@ == phase,
        !(phase is CreateTmpdir),
    ensures
        0 <= j < i,
        turns[j].before.phase@ != phase,
        turns[j].after.phase@ == phase,
        phase is Unpack || turns[j].after.bundle == turns[i].before.bundle,
    decreases i,
{
    assert(turns[i].before == turns[i - 1].after);
    if turns[i - 1].before.phase@ == phase {
        lemma_entered(turns, r, isolation, i - 1, phase)
    } else {
        i - 1
    }
}

/// No step is left for later: once a step was answered, fewer are left for good.
proof fn lemma_onward(turns: Seq<Turn>, r: BuildRequest, isolation: bool, i: int, j: int)
    requires
        is_run(turns, r, isolation),
        0 <= i < j < turns.len(),
    ensures
        steps_left(turns[j].before.phase@) <= steps_left(turns[i].after.phase@),
    decreases j,
{
    assert(turns[j].before == turns[j - 1].after);
    if i < j - 1 {
        lemma_onward(turns, r, isolation, i, j - 1);
        let t = turns[j - 1];
        if answers(t.before.phase@, t.event) {
        } else {
            assert(t.after.phase@ == t.before.phase@);
        }
    }
}

/// A step is answered once.
#[verifier::spinoff_prover]
#[verifier::rlimit(40)]
proof fn lemma_answered_once(turns: Seq<Turn>, r: BuildRequest, isolation: bool, i: int, j: int)
    requires
        is_run(turns, r, isolation),
        0 <= i < turns.len(),
        0 <= j < turns.len(),
        turns[i].before.phase@ == turns[j].before.phase@,
        answers(turns[i].before.phase@, turns[i].event),
        answers(turns[j].before.phase@, turns[j].event),
    ensures
        i == j,
{
    if i < j {
        lemma_onward(turns, r, isolation, i, j);
    } else if j < i {
        lemma_onward(turns, r, isolation, j, i);
    }
}

/// The turns of a build from its end back to the signing of the executable.
#[verifier::spinoff_prover]
#[verifier::rlimit(40)]
proof fn lemma_last_turns(turns: Seq<Turn>, r: BuildRequest, isolation: bool, artifact: Seq<char>) -> (f:
    (int, int, int, int, int))
    requires
        succeeded(turns, r, isolation, artifact),
    ensures
        0 <= f.0 < f.1 <= f.2 < f.3 < f.4 < turns.len(),
        turns[f.0].before.phase@ == PhaseView::Sign,
        turns[f.0].event is Did,
        turns[f.1].before.phase@ == PhaseView::Package,
        was_done(turns[f.1]),
        or_text(r.manifest.windows_distribute, "installer"@) == "portable"@ ==> f.1 == f.2,
        or_text(r.manifest.windows_distribute, "installer"@) != "portable"@ ==> f.1 < f.2
            && turns[f.2].before.phase@ == PhaseView::SignPackage && turns[f.2].event is Did,
        turns[f.3].before.phase@ == PhaseView::CopyArtifact,
        was_done(turns[f.3]),
        turns[f.4].before.phase@ == PhaseView::Cleanup(Ok::<Seq<char>, Seq<char>>(artifact)),
        turns[f.4].event is Did,
        turns[f.3].after.phase@ == turns[f.4].before.phase@,
{
    lemma_texts_differ();
    let last = turns.len() - 1;
    let end = turns[last].after.phase@;
    let cleaned = if turns[last].before.phase@ == end {
        lemma_entered(turns, r, isolation, last, end)
    } else {
        last
    };
    assert(turns[cleaned].before.phase@ == PhaseView::Cleanup(
        Ok::<Seq<char>, Seq<char>>(artifact),
    ));
    let copied = lemma_entered(turns, r, isolation, cleaned, turns[cleaned].before.phase@);
    assert(turns[copied].before.phase@ == PhaseView::CopyArtifact);
    let made = lemma_entered(turns, r, isolation, copied, PhaseView::CopyArtifact);
    assert(turns[made].before.phase@ == PhaseView::CreateArtifactDir);
    let signed = lemma_entered(turns, r, isolation, made, PhaseView::CreateArtifactDir);
    let packaged = if turns[signed].before.phase@ == PhaseView::SignPackage {
        lemma_entered(turns, r, isolation, signed, PhaseView::SignPackage)
    } else {
        signed
    };
    assert(turns[packaged].before.phase@ == PhaseView::Package);
    let exe = lemma_entered(turns, r, isolation, packaged, PhaseView::Package);
    (exe, packaged, signed, copied, cleaned)
}

proof fn lemma_texts_differ()
    ensures
        "msix"@ != "portable"@,
        "installer"@ != "portable"@,
        "installer"@ != "msix"@,
{
    reveal_strlit("msix");
    reveal_strlit("portable");
    reveal_strlit("installer");
    assert("msix"@.len() == 4);
    assert("portable"@.len() == 8);
    assert("installer"@.len() == 9);
}

/// The turns from the making of the project's directory to where it is seen
/// whether the project was compiled.
proof fn lemma_first_turns(turns: Seq<Turn>, r: BuildRequest, isolation: bool, detected: int) -> (f:
    (int, int, int))
    requires
        is_run(turns, r, isolation),
        0 <= detected < turns.len(),
        turns[detected].before.phase@ == PhaseView::Detect,
    ensures
        0 <= f.0 < f.1 < f.2 < detected,
        turns[f.0].before.phase@ == PhaseView::CreateTmpdir,
        was_done(turns[f.0]),
        turns[f.1].before.phase@ == PhaseView::CreateProjectDir,
        was_done(turns[f.1]),
        turns[f.2].before.phase@ == PhaseView::Extract,
        was_done(turns[f.2]),
{
    let extracted = lemma_entered(turns, r, isolation, detected, PhaseView::Detect);
    let made = lemma_entered(turns, r, isolation, extracted, PhaseView::Extract);
    let begun = lemma_entered(turns, r, isolation, made, PhaseView::CreateProjectDir);
    (begun, made, extracted)
}

// ---------------------------------------------------------------------------
// Any build
// ---------------------------------------------------------------------------

/// The package that a build hands out is the one that it made of its bundle: the
/// executable in the bundle is signed, the bundle is packaged, the package is
/// signed unless it is portable, and that package is copied to where the result
/// says the artifact is. Then the directory of the build is removed.
#[verifier::spinoff_prover]
#[verifier::rlimit(40)]
pub proof fn lemma_the_artifact_is_the_package(
    turns: Seq<Turn>,
    r: BuildRequest,
    isolation: bool,
    artifact: Seq<char>,
) -> (f: (int, int, int, int, int))
    requires
        succeeded(turns, r, isolation, artifact),
    ensures
        0 <= f.0 < f.1 <= f.2 < f.3 < f.4 < turns.len(),
        turns[f.0].action matches BuildAction::Sign { file } && file@ == below(
            place(turns, "bundle"@),
            r.manifest.app_name@ + ".exe"@,
            turns[0].before.style,
        ),
        turns[f.1].action matches BuildAction::Package { kind, bundle_dir, output, isolated }
            && bundle_dir@ == place(turns, "bundle"@) && kind == (if or_text(
            r.manifest.windows_distribute,
            "installer"@,
        ) == "msix"@ {
            Distribution::Msix
        } else if or_text(r.manifest.windows_distribute, "installer"@) == "portable"@ {
            Distribution::Portable
        } else {
            Distribution::Installer
        }) && output@ == place(
            turns,
            r.manifest.app_name@ + (match kind {
                Distribution::Installer => "-Setup.exe"@,
                Distribution::Msix => ".msix"@,
                Distribution::Portable => ".zip"@,
            }),
        ) && isolated == (isolation && kind != Distribution::Portable) && (f.1 == f.2 <==> kind
            == Distribution::Portable) && (turns[f.3].action matches BuildAction::Copy { from, to }
            && from@ == output@ && to@ == artifact) && (f.1 < f.2 ==> (
        turns[f.2].action matches BuildAction::Sign { file } && file@ == output@)),
        was_done(turns[f.1]),
        was_done(turns[f.3]),
        turns[f.4].action matches BuildAction::Cleanup(dir) && dir@ == workplace(turns),
{
    lemma_texts_differ();
    let f = lemma_last_turns(turns, r, isolation, artifact);
    lemma_places_stay(turns, r, isolation, f.0);
    lemma_places_stay(turns, r, isolation, f.1);
    lemma_places_stay(turns, r, isolation, f.2);
    lemma_places_stay(turns, r, isolation, f.3);
    lemma_places_stay(turns, r, isolation, f.4);
    f
}

/// The artifact stands in the directory for artifacts, below the one for
/// temporary files, under the name of the application, the number of the job and
/// the extension of its kind.
pub proof fn lemma_where_the_artifact_is(
    turns: Seq<Turn>,
    r: BuildRequest,
    isolation: bool,
    artifact: Seq<char>,
)
    requires
        succeeded(turns, r, isolation, artifact),
    ensures
        artifact == below(
            below(turns[0].before.temp_dir@, "perry-artifacts"@, turns[0].before.style),
            r.manifest.app_name@ + "-"@ + r.job_id@ + "."@ + (if or_text(
                r.manifest.windows_distribute,
                "installer"@,
            ) == "msix"@ {
                "msix"@
            } else if or_text(r.manifest.windows_distribute, "installer"@) == "portable"@ {
                "zip"@
            } else {
                "exe"@
            }),
            turns[0].before.style,
        ),
{
    lemma_texts_differ();
    let f = lemma_last_turns(turns, r, isolation, artifact);
    lemma_places_stay(turns, r, isolation, f.3);
}

/// Once the directory of a build has been made, a build that is over has removed
/// that very directory, whatever it came to.
pub proof fn lemma_finished_builds_have_cleaned_up(
    turns: Seq<Turn>,
    r: BuildRequest,
    isolation: bool,
    begun: int,
) -> (end: int)
    requires
        is_run(turns, r, isolation),
        0 <= begun < turns.len(),
        turns[begun].before.phase@ == PhaseView::CreateTmpdir,
        was_done(turns[begun]),
        turns.last().after.phase@ is Finished,
    ensures
        turns[begun].action matches BuildAction::CreateDir(dir) && dir@ == workplace(turns),
        begun < end < turns.len(),
        turns[end].action matches BuildAction::Cleanup(dir) && dir@ == workplace(turns),
        turns[end].before.phase@ matches PhaseView::Cleanup(result)
            && turns.last().after.phase@ == PhaseView::Finished(result),
{
    let last = turns.len() - 1;
    let over = turns[last].after.phase@;
    let end = if turns[last].before.phase@ == over {
        lemma_entered(turns, r, isolation, last, over)
    } else {
        last
    };
    if turns[end].before.phase@ == PhaseView::CreateTmpdir {
        lemma_answered_once(turns, r, isolation, begun, end);
    }
    assert(turns[end].before.phase@ is Cleanup);
    if end < begun {
        lemma_onward(turns, r, isolation, end, begun);
    }
    lemma_places_stay(turns, r, isolation, begun);
    lemma_places_stay(turns, r, isolation, end);
    end
}

// ---------------------------------------------------------------------------
// Builds from sources
// ---------------------------------------------------------------------------

/// A project that is compiled goes from step to step: the archive is unpacked
/// into the project's directory, that directory is compiled, the executable is
/// looked for where the compiler was told to put it, and it is bundled, with the
/// icon that was made, into the directory that is packaged later.
#[verifier::spinoff_prover]
#[verifier::rlimit(40)]
pub proof fn lemma_compiled_builds_hand_on_their_files(
    turns: Seq<Turn>,
    r: BuildRequest,
    isolation: bool,
    artifact: Seq<char>,
    detected: int,
) -> (f: (int, int, int, int, int))
    requires
        succeeded(turns, r, isolation, artifact),
        0 <= detected < turns.len(),
        turns[detected].action is Detect,
        turns[detected].event matches BuildEvent::Detected(precompiled) && !precompiled,
    ensures
        0 <= f.0 < detected < f.1 < f.2 < f.3 < f.4 < turns.len(),
        turns[f.0].action matches BuildAction::Extract { tarball, dest } && tarball@
            == r.tarball_path@ && dest@ == place(turns, "project"@),
        was_done(turns[f.0]),
        turns[f.1].action matches BuildAction::Compile { project_dir, output, isolated }
            && project_dir@ == place(turns, "project"@) && output@ == below(
            place(turns, "output"@),
            r.manifest.app_name@ + ".exe"@,
            turns[0].before.style,
        ) && isolated == isolation,
        was_done(turns[f.1]),
        turns[f.2].action matches BuildAction::LookFor(file) && file@ == below(
            place(turns, "output"@),
            r.manifest.app_name@ + ".exe"@,
            turns[0].before.style,
        ),
        turns[f.2].event == BuildEvent::Found(true),
        turns[f.3].action matches BuildAction::MakeIcon { source, output } && opt_text(source) == (
        match r.manifest.icon {
            Some(name) => Some(below(place(turns, "project"@), name@, turns[0].before.style)),
            None => None,
        }) && output@ == place(turns, "app.ico"@),
        was_done(turns[f.3]),
        turns[f.4].action matches BuildAction::Bundle { binary, ico, bundle_dir } && binary@
            == below(
            place(turns, "output"@),
            r.manifest.app_name@ + ".exe"@,
            turns[0].before.style,
        ) && ico@ == place(turns, "app.ico"@) && bundle_dir@ == place(turns, "bundle"@),
        was_done(turns[f.4]),
{
    let f = lemma_compiled_turns(turns, r, isolation, artifact, detected);
    lemma_places_stay(turns, r, isolation, f.0);
    lemma_places_stay(turns, r, isolation, f.2);
    lemma_places_stay(turns, r, isolation, f.3);
    lemma_places_stay(turns, r, isolation, f.4);
    lemma_places_stay(turns, r, isolation, f.5);
    (f.0, f.2, f.3, f.4, f.5)
}

/// The turns from the unpacking of the archive to the bundle of a project that
/// is compiled.
#[verifier::spinoff_prover]
#[verifier::rlimit(40)]
proof fn lemma_compiled_turns(
    turns: Seq<Turn>,
    r: BuildRequest,
    isolation: bool,
    artifact: Seq<char>,
    detected: int,
) -> (f: (int, int, int, int, int, int))
    requires
        succeeded(turns, r, isolation, artifact),
        0 <= detected < turns.len(),
        turns[detected].before.phase@ == PhaseView::Detect,
        turns[detected].event == BuildEvent::Detected(false),
    ensures
        0 <= f.0 < detected < f.1 < f.2 < f.3 < f.4 < f.5 < turns.len(),
        turns[f.0].before.phase@ == PhaseView::Extract,
        was_done(turns[f.0]),
        turns[f.1].before.phase@ == PhaseView::CreateOutputDir,
        was_done(turns[f.1]),
        turns[f.2].before.phase@ == PhaseView::Compile,
        was_done(turns[f.2]),
        turns[f.3].before.phase@ == PhaseView::LookForBinary,
        turns[f.3].event == BuildEvent::Found(true),
        turns[f.4].before.phase@ == PhaseView::MakeIcon,
        was_done(turns[f.4]),
        turns[f.5].before.phase@ == PhaseView::Bundle,
        was_done(turns[f.5]),
{
    let l = lemma_last_turns(turns, r, isolation, artifact);
    let before = lemma_entered(turns, r, isolation, l.0, PhaseView::Sign);
    if turns[before].before.phase@ == PhaseView::FinalizeBundle {
        let d = lemma_detected_of_bundled(turns, r, isolation, before);
        lemma_answered_once(turns, r, isolation, detected, d.0);
    }
    assert(turns[before].before.phase@ == PhaseView::Bundle);
    let d = lemma_detected_of_compiled(turns, r, isolation, before);
    lemma_answered_once(turns, r, isolation, detected, d.0);
    let first = lemma_first_turns(turns, r, isolation, detected);
    (first.2, d.1, d.2, d.3, d.4, before)
}

/// The turns from where no precompiled bundle is found to where the bundle is
/// made.
proof fn lemma_detected_of_compiled(turns: Seq<Turn>, r: BuildRequest, isolation: bool, made: int) -> (f:
    (int, int, int, int, int))
    requires
        is_run(turns, r, isolation),
        0 <= made < turns.len(),
        turns[made].before.phase@ == PhaseView::Bundle,
    ensures
        0 <= f.0 < f.1 < f.2 < f.3 < f.4 < made,
        turns[f.0].before.phase@ == PhaseView::Detect,
        turns[f.0].event == BuildEvent::Detected(false),
        turns[f.1].before.phase@ == PhaseView::CreateOutputDir,
        was_done(turns[f.1]),
        turns[f.2].before.phase@ == PhaseView::Compile,
        was_done(turns[f.2]),
        turns[f.3].before.phase@ == PhaseView::LookForBinary,
        turns[f.3].event == BuildEvent::Found(true),
        turns[f.4].before.phase@ == PhaseView::MakeIcon,
        was_done(turns[f.4]),
{
    let icon = lemma_entered(turns, r, isolation, made, PhaseView::Bundle);
    assert(turns[icon].before.phase@ == PhaseView::MakeIcon);
    let found = lemma_entered(turns, r, isolation, icon, PhaseView::MakeIcon);
    assert(turns[found].before.phase@ == PhaseView::LookForBinary);
    let compiled = lemma_entered(turns, r, isolation, found, PhaseView::LookForBinary);
    assert(turns[compiled].before.phase@ == PhaseView::Compile);
    let output = lemma_entered(turns, r, isolation, compiled, PhaseView::Compile);
    assert(turns[output].before.phase@ == PhaseView::CreateOutputDir);
    let detected = lemma_entered(turns, r, isolation, output, PhaseView::CreateOutputDir);
    assert(turns[detected].before.phase@ == PhaseView::Detect);
    (detected, output, compiled, found, icon)
}

// ---------------------------------------------------------------------------
// Precompiled builds
// ---------------------------------------------------------------------------

/// The turns from where a precompiled bundle is found to where its resources are
/// embedded.
#[verifier::spinoff_prover]
#[verifier::rlimit(40)]
proof fn lemma_detected_of_bundled(turns: Seq<Turn>, r: BuildRequest, isolation: bool, embedded: int) -> (f:
    (int, int, int, int, int, int))
    requires
        is_run(turns, r, isolation),
        0 <= embedded < turns.len(),
        turns[embedded].before.phase@ == PhaseView::FinalizeBundle,
    ensures
        0 <= f.0 < f.1 < f.2 < f.3 < f.4 < f.5 < embedded,
        turns[f.0].before.phase@ == PhaseView::Detect,
        turns[f.0].event == BuildEvent::Detected(true),
        turns[f.1].before.phase@ == PhaseView::Unpack,
        turns[f.1].event matches BuildEvent::Unpacked(files) && files.exe,
        turns[f.2].before.phase@ == PhaseView::CreateBundleDir,
        was_done(turns[f.2]),
        turns[f.3].before.phase@ == PhaseView::CopyExe,
        was_done(turns[f.3]),
        turns[f.4].before.phase@ == PhaseView::CopyDlls,
        was_done(turns[f.4]),
        turns[f.5].before.phase@ == PhaseView::CopyAssets,
        turns[f.3].before.bundle == turns[f.1].after.bundle,
        turns[f.4].before.bundle == turns[f.1].after.bundle,
        turns[embedded].before.bundle == turns[f.1].after.bundle,
{
    let assets = lemma_entered(turns, r, isolation, embedded, PhaseView::FinalizeBundle);
    assert(turns[assets].before.phase@ == PhaseView::CopyAssets);
    let dlls = lemma_entered(turns, r, isolation, assets, PhaseView::CopyAssets);
    assert(turns[dlls].before.phase@ == PhaseView::CopyDlls);
    let exe = lemma_entered(turns, r, isolation, dlls, PhaseView::CopyDlls);
    assert(turns[exe].before.phase@ == PhaseView::CopyExe);
    let made = lemma_entered(turns, r, isolation, exe, PhaseView::CopyExe);
    assert(turns[made].before.phase@ == PhaseView::CreateBundleDir);
    let unpacked = lemma_entered(turns, r, isolation, made, PhaseView::CreateBundleDir);
    assert(turns[unpacked].before.phase@ == PhaseView::Unpack);
    let detected = lemma_entered(turns, r, isolation, unpacked, PhaseView::Unpack);
    assert(turns[detected].before.phase@ == PhaseView::Detect);
    (detected, unpacked, made, exe, dlls, assets)
}

/// Nothing of a precompiled bundle is left behind: what it was reported to hold
/// is taken into the directory that is packaged later. The executable is copied
/// there under its name, the DLLs are copied there where there are any, the
/// assets with them, and the icon, where there is one, is embedded. Each is taken
/// from where it was looked for, below the `perry-precompiled` directory of the
/// project.
#[verifier::spinoff_prover]
#[verifier::rlimit(40)]
pub proof fn lemma_nothing_of_a_bundle_is_left_behind(
    turns: Seq<Turn>,
    r: BuildRequest,
    isolation: bool,
    artifact: Seq<char>,
    unpacked: int,
    files: BundleFiles,
) -> (f: (int, int, int, int, int))
    requires
        succeeded(turns, r, isolation, artifact),
        0 <= unpacked < turns.len(),
        turns[unpacked].action is Unpack,
        turns[unpacked].event == BuildEvent::Unpacked(files),
    ensures
        files.exe,
        unpacked < f.0 < f.1 < f.2 < f.3 < f.4 < turns.len(),
        turns[unpacked].action matches BuildAction::Unpack { exe, ico, dll_dir } && exe@ == bundled(
            turns,
            r.manifest.app_name@ + ".exe"@,
        ) && ico@ == bundled(turns, "app.ico"@) && dll_dir@ == bundled(turns, "dlls"@),
        turns[f.0].action matches BuildAction::Copy { from, to } && from@ == bundled(
            turns,
            r.manifest.app_name@ + ".exe"@,
        ) && to@ == below(
            place(turns, "bundle"@),
            r.manifest.app_name@ + ".exe"@,
            turns[0].before.style,
        ),
        was_done(turns[f.0]),
        turns[f.1].action matches BuildAction::CopyFiles { from, to } && opt_text(from) == (
        if files.dll_dir {
            Some(bundled(turns, "dlls"@))
        } else {
            None
        }) && to@ == place(turns, "bundle"@),
        was_done(turns[f.1]),
        turns[f.2].action matches BuildAction::CopyDirs { from, names, to } && from@ == below(
            place(turns, "project"@),
            "perry-precompiled"@,
            turns[0].before.style,
        ) && texts(names@) == seq!["assets"@, "logo"@, "resources"@, "images"@] && to@ == place(
            turns,
            "bundle"@,
        ),
        turns[f.3].action matches BuildAction::FinalizeBundle { bundle_dir, ico } && bundle_dir@
            == place(turns, "bundle"@) && opt_text(ico) == (if files.ico {
            Some(bundled(turns, "app.ico"@))
        } else {
            None
        }),
        was_done(turns[f.3]),
        turns[f.4].action matches BuildAction::Package { bundle_dir, .. } && bundle_dir@ == place(
            turns,
            "bundle"@,
        ),
{
    let f = lemma_bundled_turns(turns, r, isolation, artifact, unpacked, files);
    lemma_places_stay(turns, r, isolation, unpacked);
    lemma_places_stay(turns, r, isolation, f.0);
    lemma_places_stay(turns, r, isolation, f.1);
    lemma_places_stay(turns, r, isolation, f.2);
    lemma_places_stay(turns, r, isolation, f.3);
    lemma_places_stay(turns, r, isolation, f.4);
    lemma_asset_names(turns[f.2], r, isolation);
    f
}

/// The turns from the files of a precompiled bundle to the package.
#[verifier::spinoff_prover]
#[verifier::rlimit(40)]
proof fn lemma_bundled_turns(
    turns: Seq<Turn>,
    r: BuildRequest,
    isolation: bool,
    artifact: Seq<char>,
    unpacked: int,
    files: BundleFiles,
) -> (f: (int, int, int, int, int))
    requires
        succeeded(turns, r, isolation, artifact),
        0 <= unpacked < turns.len(),
        turns[unpacked].before.phase@ == PhaseView::Unpack,
        turns[unpacked].event == BuildEvent::Unpacked(files),
    ensures
        files.exe,
        unpacked < f.0 < f.1 < f.2 < f.3 < f.4 < turns.len(),
        turns[f.0].before.phase@ == PhaseView::CopyExe,
        was_done(turns[f.0]),
        turns[f.0].before.bundle == turns[unpacked].after.bundle,
        turns[f.1].before.phase@ == PhaseView::CopyDlls,
        was_done(turns[f.1]),
        turns[f.1].before.bundle == turns[unpacked].after.bundle,
        turns[f.2].before.phase@ == PhaseView::CopyAssets,
        turns[f.3].before.phase@ == PhaseView::FinalizeBundle,
        was_done(turns[f.3]),
        turns[f.3].before.bundle == turns[unpacked].after.bundle,
        turns[f.4].before.phase@ == PhaseView::Package,
{
    let l = lemma_last_turns(turns, r, isolation, artifact);
    let before = lemma_entered(turns, r, isolation, l.0, PhaseView::Sign);
    if turns[before].before.phase@ == PhaseView::Bundle {
        lemma_compiled_is_not_unpacked(turns, r, isolation, before, unpacked);
    }
    assert(turns[before].before.phase@ == PhaseView::FinalizeBundle);
    let d = lemma_detected_of_bundled(turns, r, isolation, before);
    lemma_answered_once(turns, r, isolation, unpacked, d.1);
    (d.3, d.4, d.5, before, l.1)
}

proof fn lemma_asset_names(t: Turn, r: BuildRequest, isolation: bool)
    requires
        call_ensures(Build::action, (&t.before, &r, isolation), t.action),
        t.before.phase@ == PhaseView::CopyAssets,
    ensures
        t.action matches BuildAction::CopyDirs { from, names, to } && texts(names@)
            == seq!["assets"@, "logo"@, "resources"@, "images"@],
{
    if let BuildAction::CopyDirs { from, names, to } = t.action {
        assert(texts(names@) =~= seq!["assets"@, "logo"@, "resources"@, "images"@]);
    }
}

/// A build whose executable was bundled as compiled has not looked at the files
/// of a precompiled bundle.
proof fn lemma_compiled_is_not_unpacked(
    turns: Seq<Turn>,
    r: BuildRequest,
    isolation: bool,
    made: int,
    unpacked: int,
)
    requires
        is_run(turns, r, isolation),
        0 <= made < turns.len(),
        turns[made].before.phase@ == PhaseView::Bundle,
        0 <= unpacked < turns.len(),
    ensures
        turns[unpacked].before.phase@ != PhaseView::Unpack,
{
    if turns[unpacked].before.phase@ == PhaseView::Unpack {
        let a = lemma_detected_of_compiled(turns, r, isolation, made);
        let b = lemma_entered(turns, r, isolation, unpacked, PhaseView::Unpack);
        assert(turns[b].before.phase@ == PhaseView::Detect);
        lemma_answered_once(turns, r, isolation, a.0, b);
    }
}

// ---------------------------------------------------------------------------
// Directories and questions
// ---------------------------------------------------------------------------

/// Before anything is put into a directory, the directory is made: the build's
/// own and the project's before the archive is unpacked, and the one for
/// artifacts before the package is copied there.
pub proof fn lemma_directories_are_made_first(
    turns: Seq<Turn>,
    r: BuildRequest,
    isolation: bool,
    i: int,
) -> (made: int)
    requires
        is_run(turns, r, isolation),
        0 <= i < turns.len(),
        turns[i].before.phase@ == PhaseView::CreateProjectDir || turns[i].before.phase@
            == PhaseView::Extract || turns[i].before.phase@ == PhaseView::Compile
            || turns[i].before.phase@ == PhaseView::CopyExe || turns[i].before.phase@
            == PhaseView::CopyArtifact,
    ensures
        0 <= made < i,
        was_done(turns[made]),
        turns[made].action matches BuildAction::CreateDir(dir) && match turns[i].action {
            BuildAction::CreateDir(_) => dir@ == workplace(turns),
            BuildAction::Extract { dest, .. } => dir@ == dest@,
            BuildAction::Compile { output, .. } => output@ == below(
                dir@,
                r.manifest.app_name@ + ".exe"@,
                turns[0].before.style,
            ),
            BuildAction::Copy { to, .. } => exists|name: Seq<char>|
                to@ == #[trigger] below(dir@, name, turns[0].before.style),
            _ => false,
        },
{
    let phase = turns[i].before.phase@;
    let made = lemma_entered(turns, r, isolation, i, phase);
    lemma_places_stay(turns, r, isolation, made);
    lemma_places_stay(turns, r, isolation, i);
    made
}

/// Whether a project was compiled is told by the metadata of a precompiled
/// bundle, where the archive was unpacked to.
pub proof fn lemma_bundles_are_told_by_their_metadata(
    turns: Seq<Turn>,
    r: BuildRequest,
    isolation: bool,
    detected: int,
) -> (extracted: int)
    requires
        is_run(turns, r, isolation),
        0 <= detected < turns.len(),
        turns[detected].action is Detect,
    ensures
        0 <= extracted < detected,
        turns[extracted].action matches BuildAction::Extract { tarball, dest } && tarball@
            == r.tarball_path@ && (turns[detected].action matches BuildAction::Detect { metadata }
            && metadata@ == below(
            below(dest@, "perry-precompiled"@, turns[0].before.style),
            "metadata.json"@,
            turns[0].before.style,
        )),
        was_done(turns[extracted]),
{
    let f = lemma_first_turns(turns, r, isolation, detected);
    lemma_places_stay(turns, r, isolation, f.2);
    lemma_places_stay(turns, r, isolation, detected);
    f.2
}

// ---------------------------------------------------------------------------
// Beginning and end
// ---------------------------------------------------------------------------

/// A build is begun exactly if its manifest is accepted, and is refused with the
/// reason that the manifest is. It begins by making the directory that it is
/// given to work in.
pub proof fn lemma_builds_begin_with_accepted_manifests(
    request: &BuildRequest,
    temp_dir: &str,
    tmpdir: &str,
    style: PathStyle,
    verdict: Result<(), String>,
    r: Result<Build, String>,
    isolation: bool,
    first: BuildAction,
)
    requires
        call_ensures(validate_manifest_for, (&request.manifest, style), verdict),
        call_ensures(execute_build, (request, temp_dir, tmpdir, style), r),
        r matches Ok(b) ==> call_ensures(Build::action, (&b, request, isolation), first),
    ensures
        r is Ok <==> verdict is Ok,
        r matches Err(e) ==> verdict->Err_0@ == e@,
        r matches Ok(b) ==> {
            &&& b.phase@ == PhaseView::CreateTmpdir
            &&& b.well_formed()
            &&& b.temp_dir@ == temp_dir@
            &&& b.style == style
            &&& b.bundle is None
            &&& first matches BuildAction::CreateDir(dir) && dir@ == tmpdir@
        },
{
}

/// A build that is over tells what it came to, and no other does.
pub proof fn lemma_results_are_those_of_finished_builds(
    b: &Build,
    r: Option<Result<String, String>>,
)
    requires
        call_ensures(Build::result, (b,), r),
    ensures
        r is Some <==> b.phase@ is Finished,
        r matches Some(Ok(path)) ==> b.phase@ == PhaseView::Finished(
            Ok::<Seq<char>, Seq<char>>(path@),
        ),
        r matches Some(Err(e)) ==> b.phase@ == PhaseView::Finished(
            Err::<Seq<char>, Seq<char>>(e@),
        ),
{
}

/// Whether a step that fails does not fail the build: what could not be signed,
/// copied as an asset or removed.
pub open spec fn may_fail(action: BuildAction) -> bool {
    action is Sign || action is CopyDirs || action is Cleanup
}

/// What a build came to stays what it came to.
proof fn lemma_results_stay(
    turns: Seq<Turn>,
    r: BuildRequest,
    isolation: bool,
    i: int,
    j: int,
    result: Result<Seq<char>, Seq<char>>,
)
    requires
        is_run(turns, r, isolation),
        0 <= i <= j < turns.len(),
        turns[i].after.phase@ == PhaseView::Cleanup(result) || turns[i].after.phase@
            == PhaseView::Finished(result),
    ensures
        turns[j].after.phase@ == PhaseView::Cleanup(result) || turns[j].after.phase@
            == PhaseView::Finished(result),
    decreases j,
{
    if i < j {
        lemma_results_stay(turns, r, isolation, i, j - 1, result);
        assert(turns[j].before == turns[j - 1].after);
    }
}

/// A step that fails, unless it is one that may, fails the build, and what the
/// build came to ends with the reason.
pub proof fn lemma_failures_end_the_build_with_their_reason(
    turns: Seq<Turn>,
    r: BuildRequest,
    isolation: bool,
    i: int,
    reason: String,
)
    requires
        is_run(turns, r, isolation),
        0 <= i < turns.len(),
        turns[i].event == BuildEvent::Did(Err(reason)),
        answers(turns[i].before.phase@, turns[i].event),
        !may_fail(turns[i].action),
        turns.last().after.phase@ is Finished,
    ensures
        turns.last().after.phase@ matches PhaseView::Finished(Err(e)) && ends_with(e, reason@),
{
    let now = turns[i].after.phase@;
    let m = match now {
        PhaseView::Cleanup(Err(m)) => m,
        PhaseView::Finished(Err(m)) => m,
        _ => Seq::empty(),
    };
    assert(now == PhaseView::Cleanup(Err::<Seq<char>, Seq<char>>(m)) || now == PhaseView::Finished(
        Err::<Seq<char>, Seq<char>>(m),
    ));
    assert(m.skip(m.len() - reason@.len()) =~= reason@);
    lemma_results_stay(turns, r, isolation, i, turns.len() - 1, Err(m));
}

/// What is unpacked is held to the same rule as what a manifest names: a path
/// that is absolute or steps up is refused.
pub proof fn lemma_archives_and_manifests_follow_one_rule(
    path: &str,
    field: &str,
    style: PathStyle,
    entry: Result<(), String>,
    named: Result<(), String>,
)
    requires
        call_ensures(check_entry_path, (path, style), entry),
        call_ensures(validate_relative_path_for, (path, field, style), named),
    ensures
        entry is Ok <==> named is Ok,
        entry is Ok <==> !is_absolute(path@, style) && !has_parent(path@, style),
{
}

/// A precompiled bundle is used exactly if it has an executable, and each of its
/// parts that are there is taken from the `perry-precompiled` directory.
pub proof fn lemma_precompiled_parts_are_where_they_are(
    project_dir: &str,
    app_name: &str,
    files: BundleFiles,
    style: PathStyle,
    r: Result<PrecompiledBundle, String>,
)
    requires
        call_ensures(unpack_precompiled_bundle, (project_dir, app_name, files, style), r),
    ensures
        ({
            let dir = below(project_dir@, "perry-precompiled"@, style);
            &&& r is Ok <==> files.exe
            &&& r matches Ok(b) ==> {
                &&& b.exe_path@ == below(dir, app_name@ + ".exe"@, style)
                &&& opt_text(b.ico_path) == (if files.ico {
                    Some(below(dir, "app.ico"@, style))
                } else {
                    None
                })
                &&& opt_text(b.dll_dir) == (if files.dll_dir {
                    Some(below(dir, "dlls"@, style))
                } else {
                    None
                })
            }
        }),
{
}

} // verus!
