//! Updating the Perry compiler from its sources.
use crate::paths::{has_prefix, last_part, parent_path, path_parent, trimmed_path, PathStyle};
use crate::process::{is_success, ToolCommand, ToolRun};
use crate::text::{
    begins_with, cat2, opt_text, push_text, strip_prefix_text, texts, trim_text, trimmed,
};
use vstd::prelude::*;
use vstd::string::*;

verus! {

/// The version that a compiler prints: without the blanks around it, and
/// without its name before it. A compiler that prints nothing has none.
pub open spec fn printed_version(stdout: Seq<char>) -> Option<Seq<char>> {
    let s = trimmed(stdout);
    if begins_with(s, "perry "@) {
        Some(s.skip("perry "@.len() as int))
    } else if s.len() == 0 {
        None
    } else {
        Some(s)
    }
}

/// The version of a compiler that was asked for it; however it ended, what it
/// printed counts.
pub open spec fn version_of(run: ToolRun) -> Option<Seq<char>> {
    match run {
        ToolRun::NotRun(_) => None,
        ToolRun::Exited { stdout, .. } => printed_version(stdout@),
    }
}

/// Get the perry compiler version from a run of `perry --version`.
pub fn get_perry_version(run: &ToolRun) -> (r: Option<String>)
    ensures
        opt_text(r) == version_of(*run),
{
    match run {
        ToolRun::NotRun(_) => None,
        ToolRun::Exited { stdout, .. } => {
            let s = trim_text(stdout);
            match strip_prefix_text(&s, "perry ") {
                Some(v) => Some(v),
                None => if s.as_str().is_empty() {
                    None
                } else {
                    Some(s)
                },
            }
        },
    }
}

/// The command that asks a compiler for its version.
pub fn version_command(perry_binary: &str) -> (r: ToolCommand)
    ensures
        r@.program == perry_binary@,
        r@.args == seq!["--version"@],
        r@.env.len() == 0,
{
    let mut args: Vec<String> = Vec::new();
    push_text(&mut args, "--version");
    assert(texts(args@) =~= seq!["--version"@]);
    ToolCommand { program: perry_binary.to_owned(), args, env: Vec::new() }
}

/// The directory of the compiler's sources: three levels above the compiler.
pub open spec fn source_dir_of(perry_binary: Seq<char>, style: PathStyle) -> Option<Seq<char>> {
    match parent_path(perry_binary, style) {
        Some(release) => match parent_path(release, style) {
            Some(target) => parent_path(target, style),
            None => None,
        },
        None => None,
    }
}

/// The directory of the compiler's sources. A bare name, such as `perry`, gives
/// none.
pub fn source_dir(perry_binary: &str, style: PathStyle) -> (r: Option<String>)
    ensures
        opt_text(r) == source_dir_of(perry_binary@, style),
{
    let release = path_parent(perry_binary, style)?;
    let target = path_parent(&release, style)?;
    path_parent(&target, style)
}

/// A compiler that is named without a directory has no sources.
pub proof fn lemma_bare_compiler_has_no_sources(name: Seq<char>, style: PathStyle)
    requires
        forall|i: int| 0 <= i < name.len() ==> !style.separates(#[trigger] name[i]),
        !has_prefix(name, style),
    ensures
        source_dir_of(name, style) is None,
{
    lemma_bare_name(name, style, name.len() as int);
    let empty = name.take(0);
    assert(!has_prefix(empty, style));
    assert(trimmed_path(empty, style, 0, 0) == 0);
    assert(parent_path(empty, style) is None);
}

proof fn lemma_bare_name(name: Seq<char>, style: PathStyle, n: int)
    requires
        0 <= n <= name.len(),
        forall|i: int| 0 <= i < name.len() ==> !style.separates(#[trigger] name[i]),
    ensures
        trimmed_path(name, style, 0, n) == n,
        last_part(name, style, 0, n) == 0,
    decreases n,
{
    if n > 0 {
        lemma_bare_name(name, style, n - 1);
        assert(!style.separates(name[n - 1]));
        if n > 1 {
            assert(!style.separates(name[n - 2]));
        }
    }
}

/// What an update came to.
pub struct UpdateOutcome {
    pub success: bool,
    pub new_version: String,
    pub error: Option<String>,
}

/// What an update came to.
pub struct UpdateOutcomeView {
    pub success: bool,
    pub new_version: Seq<char>,
    pub error: Option<Seq<char>>,
}

impl View for UpdateOutcome {
    type V = UpdateOutcomeView;

    open spec fn view(&self) -> UpdateOutcomeView {
        UpdateOutcomeView {
            success: self.success,
            new_version: self.new_version@,
            error: opt_text(self.error),
        }
    }
}

/// An update that failed.
pub open spec fn update_failed(error: Seq<char>) -> UpdatePhaseView {
    UpdatePhaseView::Finished(
        UpdateOutcomeView { success: false, new_version: ""@, error: Some(error) },
    )
}

/// Where an update stands.
pub enum UpdatePhase {
    /// The sources have to be brought up to date.
    Pull,
    /// They have to be built.
    Build,
    /// The new compiler has to be asked for its version.
    AskVersion,
    /// The update is over.
    Finished(UpdateOutcome),
}

/// Where an update stands.
pub enum UpdatePhaseView {
    Pull,
    Build,
    AskVersion,
    Finished(UpdateOutcomeView),
}

impl View for UpdatePhase {
    type V = UpdatePhaseView;

    open spec fn view(&self) -> UpdatePhaseView {
        match *self {
            UpdatePhase::Pull => UpdatePhaseView::Pull,
            UpdatePhase::Build => UpdatePhaseView::Build,
            UpdatePhase::AskVersion => UpdatePhaseView::AskVersion,
            UpdatePhase::Finished(o) => UpdatePhaseView::Finished(o@),
        }
    }
}

/// An update of the compiler.
pub struct PerryUpdate {
    pub phase: UpdatePhase,
    /// The directory of the sources.
    pub src_dir: String,
}

/// Where an update stands after a program was run.
pub open spec fn update_next(phase: UpdatePhaseView, run: ToolRun) -> UpdatePhaseView {
    match phase {
        UpdatePhaseView::Pull => match run {
            ToolRun::NotRun(e) => update_failed("git pull failed: "@ + e@),
            ToolRun::Exited { code, stdout, stderr } => if code == Some(0i32) {
                UpdatePhaseView::Build
            } else {
                update_failed("git pull failed: "@ + stderr@)
            },
        },
        UpdatePhaseView::Build => match run {
            ToolRun::NotRun(e) => update_failed("cargo build failed: "@ + e@),
            ToolRun::Exited { code, stdout, stderr } => if code == Some(0i32) {
                UpdatePhaseView::AskVersion
            } else {
                update_failed("cargo build failed: "@ + stderr@)
            },
        },
        UpdatePhaseView::AskVersion => UpdatePhaseView::Finished(
            UpdateOutcomeView {
                success: true,
                new_version: match version_of(run) {
                    Some(v) => v,
                    None => ""@,
                },
                error: None,
            },
        ),
        UpdatePhaseView::Finished(_) => phase,
    }
}

fn fail(what: &str, error: &str) -> (r: UpdatePhase)
    ensures
        r@ == update_failed(what@ + error@),
{
    UpdatePhase::Finished(
        UpdateOutcome {
            success: false,
            new_version: "".to_owned(),
            error: Some(cat2(what, error)),
        },
    )
}

/// The arguments of cargo for building the compiler.
pub open spec fn cargo_args() -> Seq<Seq<char>> {
    seq![
        "build"@,
        "--release"@,
        "-p"@,
        "perry"@,
        "-p"@,
        "perry-runtime"@,
        "-p"@,
        "perry-stdlib"@,
    ]
}

impl PerryUpdate {
    /// Begins an update. The sources are the directory three levels above the
    /// compiler, if there is one and it is a git repository; else the update has
    /// failed.
    pub fn new(perry_binary: &str, is_repository: bool, style: PathStyle) -> (r: Self)
        ensures
            match source_dir_of(perry_binary@, style) {
                Some(dir) if is_repository => r.phase@ == UpdatePhaseView::Pull && r.src_dir@
                    == dir,
                _ => r.phase@ == update_failed(
                    "Cannot determine perry source directory from binary path"@,
                ),
            },
    {
        match source_dir(perry_binary, style) {
            Some(dir) if is_repository => PerryUpdate { phase: UpdatePhase::Pull, src_dir: dir },
            _ => PerryUpdate {
                phase: UpdatePhase::Finished(
                    UpdateOutcome {
                        success: false,
                        new_version: "".to_owned(),
                        error: Some(
                            "Cannot determine perry source directory from binary path".to_owned(),
                        ),
                    },
                ),
                src_dir: String::new(),
            },
        }
    }

    /// The program to run next, in the directory of the sources; `cargo` is the
    /// build tool. Nothing once the update is over.
    pub fn action(&self, cargo: &str, perry_binary: &str) -> (r: Option<ToolCommand>)
        ensures
            match self.phase@ {
                UpdatePhaseView::Pull => r matches Some(c) && c@.program == "git"@ && c@.args
                    == seq!["pull"@] && c@.env.len() == 0,
                UpdatePhaseView::Build => r matches Some(c) && c@.program == cargo@ && c@.args
                    == cargo_args() && c@.env.len() == 0,
                UpdatePhaseView::AskVersion => r matches Some(c) && c@.program == perry_binary@
                    && c@.args == seq!["--version"@] && c@.env.len() == 0,
                UpdatePhaseView::Finished(_) => r is None,
            },
    {
        match &self.phase {
            UpdatePhase::Pull => {
                let mut args: Vec<String> = Vec::new();
                push_text(&mut args, "pull");
                assert(texts(args@) =~= seq!["pull"@]);
                Some(ToolCommand { program: "git".to_owned(), args, env: Vec::new() })
            },
            UpdatePhase::Build => {
                let mut args: Vec<String> = Vec::new();
                push_text(&mut args, "build");
                push_text(&mut args, "--release");
                push_text(&mut args, "-p");
                push_text(&mut args, "perry");
                push_text(&mut args, "-p");
                push_text(&mut args, "perry-runtime");
                push_text(&mut args, "-p");
                push_text(&mut args, "perry-stdlib");
                assert(texts(args@) =~= cargo_args());
                Some(ToolCommand { program: cargo.to_owned(), args, env: Vec::new() })
            },
            UpdatePhase::AskVersion => Some(version_command(perry_binary)),
            UpdatePhase::Finished(_) => None,
        }
    }

    /// Takes what came of the last program.
    pub fn advance(&mut self, run: &ToolRun)
        ensures
            final(self).phase@ == update_next(old(self).phase@, *run),
            final(self).src_dir == old(self).src_dir,
    {
        let next = match &self.phase {
            UpdatePhase::Pull => match run {
                ToolRun::NotRun(e) => fail("git pull failed: ", e),
                ToolRun::Exited { code, stdout: _, stderr } => if is_success(*code) {
                    UpdatePhase::Build
                } else {
                    fail("git pull failed: ", stderr)
                },
            },
            UpdatePhase::Build => match run {
                ToolRun::NotRun(e) => fail("cargo build failed: ", e),
                ToolRun::Exited { code, stdout: _, stderr } => if is_success(*code) {
                    UpdatePhase::AskVersion
                } else {
                    fail("cargo build failed: ", stderr)
                },
            },
            UpdatePhase::AskVersion => {
                let new_version = match get_perry_version(run) {
                    Some(v) => v,
                    None => "".to_owned(),
                };
                UpdatePhase::Finished(UpdateOutcome { success: true, new_version, error: None })
            },
            UpdatePhase::Finished(_) => return,
        };
        self.phase = next;
    }
}

/// An update succeeds only where both git and cargo did.
pub proof fn lemma_updates_build_what_was_pulled(pull: ToolRun, build: ToolRun, version: ToolRun)
    requires
        update_next(update_next(update_next(UpdatePhaseView::Pull, pull), build), version) matches
            UpdatePhaseView::Finished(o) && o.success,
    ensures
        pull matches ToolRun::Exited { code, .. } && code == Some(0i32),
        build matches ToolRun::Exited { code, .. } && code == Some(0i32),
{
}

} // verus!
