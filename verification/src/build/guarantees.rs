//! What holds of every build, whatever comes of its steps.
use crate::build::pipeline::{
    artifact_name, bundling_note, distribution_of, done, entry_path_verdict, extracted_notes,
    failed, is_build_action, next_phase, packaging_note, phase_notes, published_notes, Build,
    BuildAction, BuildEvent, BuildRequest, Distribution, Note, PhaseView,
};
use crate::paths::{below, has_drive, is_bare_drive, lemma_below_lies_in, lies_in, PathStyle};
use crate::queue::job::BuildManifest;
use crate::ws::messages::StageName;
use vstd::prelude::*;

verus! {

// ---------------------------------------------------------------------------
// Single steps
// ---------------------------------------------------------------------------

/// Whether an event answers what was to be done.
pub open spec fn answers(phase: PhaseView, event: BuildEvent) -> bool {
    match phase {
        PhaseView::Detect => event is Detected,
        PhaseView::LookForBinary => event is Found,
        PhaseView::Unpack => event is Unpacked,
        PhaseView::Finished(_) => false,
        _ => event is Did,
    }
}

/// How many steps are left at most.
pub open spec fn steps_left(phase: PhaseView) -> nat {
    match phase {
        PhaseView::CreateTmpdir => 16,
        PhaseView::CreateProjectDir => 15,
        PhaseView::Extract => 14,
        PhaseView::Detect => 13,
        PhaseView::CreateOutputDir => 12,
        PhaseView::Compile => 11,
        PhaseView::LookForBinary => 10,
        PhaseView::MakeIcon => 9,
        PhaseView::Bundle => 8,
        PhaseView::Unpack => 12,
        PhaseView::CreateBundleDir => 11,
        PhaseView::CopyExe => 10,
        PhaseView::CopyDlls => 9,
        PhaseView::CopyAssets => 8,
        PhaseView::FinalizeBundle => 7,
        PhaseView::Sign => 6,
        PhaseView::Package => 5,
        PhaseView::SignPackage => 4,
        PhaseView::CreateArtifactDir => 3,
        PhaseView::CopyArtifact => 2,
        PhaseView::Cleanup(_) => 1,
        PhaseView::Finished(_) => 0,
    }
}

/// A build comes to an end: every answer brings it nearer.
pub proof fn lemma_builds_end(
    phase: PhaseView,
    m: BuildManifest,
    artifact: Seq<char>,
    event: BuildEvent,
    cancelled: bool,
)
    requires
        answers(phase, event),
    ensures
        steps_left(next_phase(phase, m, artifact, event, cancelled)) < steps_left(phase),
{
}

/// Whether the end of this step is where a build looks whether it was
/// cancelled: a stage begins there.
pub open spec fn begins_a_stage(phase: PhaseView, event: BuildEvent) -> bool {
    match (phase, event) {
        (PhaseView::Detect, BuildEvent::Detected(precompiled)) => !precompiled,
        (PhaseView::LookForBinary, BuildEvent::Found(found)) => found,
        (PhaseView::Unpack, BuildEvent::Unpacked(files)) => files.exe,
        (PhaseView::MakeIcon, BuildEvent::Did(d)) => d is Ok,
        (PhaseView::Bundle, BuildEvent::Did(d)) => d is Ok,
        (PhaseView::FinalizeBundle, BuildEvent::Did(d)) => d is Ok,
        (PhaseView::Sign, BuildEvent::Did(_)) => true,
        _ => false,
    }
}

/// A cancelled build does no more than clean up once the next stage begins.
pub proof fn lemma_cancelled_builds_stop(
    phase: PhaseView,
    m: BuildManifest,
    artifact: Seq<char>,
    event: BuildEvent,
)
    requires
        begins_a_stage(phase, event),
    ensures
        next_phase(phase, m, artifact, event, true) == failed("Build cancelled"@),
{
}

/// Anywhere else it makes no difference whether a build was cancelled.
pub proof fn lemma_cancelling_matters_only_at_stages(
    phase: PhaseView,
    m: BuildManifest,
    artifact: Seq<char>,
    event: BuildEvent,
)
    requires
        !begins_a_stage(phase, event),
    ensures
        next_phase(phase, m, artifact, event, true) == next_phase(
            phase,
            m,
            artifact,
            event,
            false,
        ),
{
}

/// A file that could not be signed does not fail the build: what comes next does
/// not depend on what signing came to.
pub proof fn lemma_signing_is_not_fatal(
    phase: PhaseView,
    m: BuildManifest,
    artifact: Seq<char>,
    a: Result<(), String>,
    b: Result<(), String>,
    cancelled: bool,
)
    requires
        phase == PhaseView::Sign || phase == PhaseView::SignPackage,
    ensures
        next_phase(phase, m, artifact, BuildEvent::Did(a), cancelled) == next_phase(
            phase,
            m,
            artifact,
            BuildEvent::Did(b),
            cancelled,
        ),
        phase_notes(phase, m, BuildEvent::Did(a)) == phase_notes(phase, m, BuildEvent::Did(b)),
{
}

/// Once its directory has been made, a build ends only by removing it.
pub proof fn lemma_builds_clean_up(
    phase: PhaseView,
    m: BuildManifest,
    artifact: Seq<char>,
    event: BuildEvent,
    cancelled: bool,
)
    requires
        !(phase is CreateTmpdir),
        !(phase is Finished),
        next_phase(phase, m, artifact, event, cancelled) is Finished,
    ensures
        phase matches PhaseView::Cleanup(r) && next_phase(phase, m, artifact, event, cancelled)
            == PhaseView::Finished(r),
{
}

/// A build succeeds only by copying the artifact to where it is announced.
pub proof fn lemma_success_is_a_copied_artifact(
    phase: PhaseView,
    m: BuildManifest,
    artifact: Seq<char>,
    event: BuildEvent,
    cancelled: bool,
)
    requires
        !(phase is Cleanup),
        next_phase(phase, m, artifact, event, cancelled) matches PhaseView::Cleanup(Ok(_)),
    ensures
        phase == PhaseView::CopyArtifact,
        event matches BuildEvent::Did(Ok(_)),
        next_phase(phase, m, artifact, event, cancelled) == PhaseView::Cleanup(
            Ok::<Seq<char>, Seq<char>>(artifact),
        ),
{
}

/// An installer or an MSIX package that was made is signed next.
pub proof fn lemma_packages_are_signed(
    m: BuildManifest,
    artifact: Seq<char>,
    d: Result<(), String>,
    cancelled: bool,
)
    requires
        d is Ok,
        distribution_of(m) != Distribution::Portable,
    ensures
        next_phase(PhaseView::Package, m, artifact, BuildEvent::Did(d), cancelled)
            == PhaseView::SignPackage,
{
}

/// Whether a step runs in a container.
pub open spec fn is_isolated(action: BuildAction) -> bool {
    match action {
        BuildAction::Compile { isolated, .. } => isolated,
        BuildAction::Package { isolated, .. } => isolated,
        _ => false,
    }
}

/// Where isolation is on, compiling runs in a container, and so does making a
/// package with a tool; nothing else does, signing least of all. Where it is
/// off, nothing does.
pub proof fn lemma_only_compiling_and_packaging_are_isolated(
    action: BuildAction,
    b: Build,
    r: BuildRequest,
    isolation: bool,
)
    requires
        is_build_action(action, b, r, isolation),
    ensures
        is_isolated(action) <==> isolation && (b.phase@ == PhaseView::Compile || (b.phase@
            == PhaseView::Package && distribution_of(r.manifest) != Distribution::Portable)),
        action is Sign ==> !is_isolated(action),
{
}

/// What is unpacked stays inside the project: an entry that passes, and begins
/// with no drive, lies in the directory that it is unpacked into.
pub proof fn lemma_unpacked_entries_stay_inside(
    path: Seq<char>,
    dest: Seq<char>,
    style: PathStyle,
)
    requires
        entry_path_verdict(path, style) is Ok,
        path.len() > 0,
        !has_drive(path, style),
        dest.len() > 0,
        !is_bare_drive(dest, style),
    ensures
        lies_in(below(dest, path, style), dest, style),
{
    lemma_below_lies_in(dest, path, style);
}

/// The artifacts of different jobs have different names.
pub proof fn lemma_artifacts_do_not_collide(m: BuildManifest, a: Seq<char>, b: Seq<char>)
    requires
        a != b,
    ensures
        artifact_name(m, a) != artifact_name(m, b),
{
    let front = m.app_name@ + "-"@;
    let back = "."@ + distribution_of(m).extension();
    let p = artifact_name(m, a);
    let q = artifact_name(m, b);
    assert(p =~= front + a + back);
    assert(q =~= front + b + back);
    if p == q {
        assert(p.subrange(front.len() as int, p.len() - back.len()) =~= a);
        assert(q.subrange(front.len() as int, q.len() - back.len()) =~= b);
    }
}

// ---------------------------------------------------------------------------
// Whole builds
// ---------------------------------------------------------------------------

/// What came of a step, and whether the build was cancelled by then.
pub struct Answer {
    pub event: BuildEvent,
    pub cancelled: bool,
}

/// Where a build stands after a series of answers.
pub open spec fn phase_after(answers: Seq<Answer>, m: BuildManifest, artifact: Seq<char>) -> PhaseView
    decreases answers.len(),
{
    if answers.len() == 0 {
        PhaseView::CreateTmpdir
    } else {
        next_phase(
            phase_after(answers.drop_last(), m, artifact),
            m,
            artifact,
            answers.last().event,
            answers.last().cancelled,
        )
    }
}

/// All that is announced in the course of a series of answers.
pub open spec fn notes_after(answers: Seq<Answer>, m: BuildManifest, artifact: Seq<char>) -> Seq<Note>
    decreases answers.len(),
{
    if answers.len() == 0 {
        Seq::empty()
    } else {
        notes_after(answers.drop_last(), m, artifact) + phase_notes(
            phase_after(answers.drop_last(), m, artifact),
            m,
            answers.last().event,
        )
    }
}

/// All that a successful build announces: each stage, and behind it that it is
/// done.
pub open spec fn full_notes(precompiled: bool, m: BuildManifest) -> Seq<Note> {
    let middle = if precompiled {
        seq![bundling_note()]
    } else {
        seq![
            done(StageName::Compiling),
            Note::Stage(StageName::GeneratingAssets, "Generating Windows icon"@),
            done(StageName::GeneratingAssets),
            bundling_note(),
        ]
    };
    extracted_notes(precompiled) + middle + seq![
        done(StageName::Bundling),
        Note::Stage(StageName::Signing, "Signing executable"@),
        done(StageName::Signing),
        packaging_note(m),
    ] + published_notes()
}

/// How much of it has been announced where a build stands.
pub open spec fn announced(phase: PhaseView) -> int {
    match phase {
        PhaseView::CreateTmpdir => 0,
        PhaseView::CreateProjectDir => 0,
        PhaseView::Extract => 0,
        PhaseView::Detect => 0,
        PhaseView::CreateOutputDir => 3,
        PhaseView::Compile => 3,
        PhaseView::LookForBinary => 3,
        PhaseView::MakeIcon => 5,
        PhaseView::Bundle => 7,
        PhaseView::Unpack => 6,
        PhaseView::CreateBundleDir => 7,
        PhaseView::CopyExe => 7,
        PhaseView::CopyDlls => 7,
        PhaseView::CopyAssets => 7,
        PhaseView::FinalizeBundle => 7,
        PhaseView::Sign => 9,
        PhaseView::Package => 11,
        PhaseView::SignPackage => 11,
        _ => 14,
    }
}

/// Whether only one of the two kinds of builds comes by a phase.
pub open spec fn fits(phase: PhaseView, precompiled: bool) -> bool {
    match phase {
        PhaseView::CreateOutputDir => !precompiled,
        PhaseView::Compile => !precompiled,
        PhaseView::LookForBinary => !precompiled,
        PhaseView::MakeIcon => !precompiled,
        PhaseView::Bundle => !precompiled,
        PhaseView::Unpack => precompiled,
        PhaseView::CreateBundleDir => precompiled,
        PhaseView::CopyExe => precompiled,
        PhaseView::CopyDlls => precompiled,
        PhaseView::CopyAssets => precompiled,
        PhaseView::FinalizeBundle => precompiled,
        _ => true,
    }
}

/// The list is the first so many of another one.
pub open spec fn is_prefix(list: Seq<Note>, all: Seq<Note>) -> bool {
    list.len() <= all.len() && list == all.take(list.len() as int)
}

/// What has been announced fits where a build stands.
pub open spec fn notes_fit(phase: PhaseView, list: Seq<Note>, precompiled: bool, m: BuildManifest) -> bool {
    let all = full_notes(precompiled, m);
    &&& fits(phase, precompiled)
    &&& match phase {
        PhaseView::Cleanup(Err(_)) => is_prefix(list, all),
        PhaseView::Finished(Err(_)) => is_prefix(list, all),
        _ => list == all.take(announced(phase)),
    }
}

/// One more answer keeps what has been announced in line.
proof fn lemma_notes_stay_in_line(
    phase: PhaseView,
    list: Seq<Note>,
    precompiled: bool,
    m: BuildManifest,
    artifact: Seq<char>,
    answer: Answer,
)
    requires
        notes_fit(phase, list, precompiled, m),
    ensures
        notes_fit(
            next_phase(phase, m, artifact, answer.event, answer.cancelled),
            list + phase_notes(phase, m, answer.event),
            match (phase, answer.event) {
                (PhaseView::Detect, BuildEvent::Detected(p)) => p,
                _ => precompiled,
            },
            m,
        ),
{
    let p = match (phase, answer.event) {
        (PhaseView::Detect, BuildEvent::Detected(p)) => p,
        _ => precompiled,
    };
    let all = full_notes(p, m);
    assert(all.len() == 14);
    let next = next_phase(phase, m, artifact, answer.event, answer.cancelled);
    let more = phase_notes(phase, m, answer.event);
    let whole = list + more;
    match phase {
        PhaseView::Cleanup(_) => {
            assert(whole =~= list);
        },
        PhaseView::Finished(_) => {
            assert(whole =~= list);
        },
        _ => {
            assert(list =~= all.take(announced(phase)));
            assert(whole =~= all.take(announced(phase) + more.len()));
            assert(is_prefix(whole, all));
        },
    }
}

/// Every build announces its stages in the same order, each as it begins and
/// again when it is done: whatever comes of the steps, what has been announced
/// is the first part of one of two lists, one for projects that are compiled
/// and one for those that were, and a build that succeeded has announced all
/// of it.
pub proof fn lemma_stages_are_announced_in_order(
    answers: Seq<Answer>,
    m: BuildManifest,
    artifact: Seq<char>,
)
    ensures
        exists|precompiled: bool|
            is_prefix(
                notes_after(answers, m, artifact),
                #[trigger] full_notes(precompiled, m),
            ) && (phase_after(answers, m, artifact) matches PhaseView::Finished(Ok(_))
                ==> notes_after(answers, m, artifact) == full_notes(precompiled, m)),
{
    let precompiled = lemma_notes_fit_after(answers, m, artifact);
    let all = full_notes(precompiled, m);
    assert(all.len() == 14);
    let list = notes_after(answers, m, artifact);
    assert(all.take(14) =~= all);
    assert(is_prefix(list, all));
}

/// What has been announced fits where a build stands after any answers.
proof fn lemma_notes_fit_after(
    answers: Seq<Answer>,
    m: BuildManifest,
    artifact: Seq<char>,
) -> (precompiled: bool)
    ensures
        notes_fit(
            phase_after(answers, m, artifact),
            notes_after(answers, m, artifact),
            precompiled,
            m,
        ),
    decreases answers.len(),
{
    if answers.len() == 0 {
        assert(full_notes(false, m).take(0) =~= Seq::<Note>::empty());
        false
    } else {
        let rest = answers.drop_last();
        let p = lemma_notes_fit_after(rest, m, artifact);
        lemma_notes_stay_in_line(
            phase_after(rest, m, artifact),
            notes_after(rest, m, artifact),
            p,
            m,
            artifact,
            answers.last(),
        );
        match (phase_after(rest, m, artifact), answers.last().event) {
            (PhaseView::Detect, BuildEvent::Detected(q)) => q,
            _ => p,
        }
    }
}

/// A stage that is announced is announced as done before the next one is, and
/// the stages are the same for every build: extracting, compiling, assets,
/// bundling, signing, packaging, publishing.
pub proof fn lemma_stages_are_done_one_by_one(precompiled: bool, m: BuildManifest, k: int)
    requires
        0 <= k < 7,
    ensures
        full_notes(precompiled, m).len() == 14,
        full_notes(precompiled, m)[2 * k] matches Note::Stage(stage, _) && full_notes(
            precompiled,
            m,
        )[2 * k + 1] == Note::Progress(stage, 100) && stage == seq![
            StageName::Extracting,
            StageName::Compiling,
            StageName::GeneratingAssets,
            StageName::Bundling,
            StageName::Signing,
            StageName::Packaging,
            StageName::Publishing,
        ][k],
{
    let all = full_notes(precompiled, m);
    assert(all.len() == 14);
    if k == 0 {
    } else if k == 1 {
    } else if k == 2 {
    } else if k == 3 {
    } else if k == 4 {
    } else if k == 5 {
    } else {
        assert(k == 6);
    }
}

} // verus!
