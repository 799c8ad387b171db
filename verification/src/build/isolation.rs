//! What holds of the containers and the commands of a build's steps.
use crate::build::compiler::{
    command_line, compile, compile_outcome, is_plain_word, isolated_outcome, quoted, quoted_args,
    CompilerEnd,
};
use crate::build::docker::{
    container_args, container_outcome, env_args, isolated_step, kill_args, mount_args,
    network_args, run_args, workdir_args, ContainerEnd, ContainerMount, ContainerRun, StepDirs,
};
use crate::config::DockerConfig;
use crate::paths::{below, PathStyle};
use crate::process::{shown_code, text_pairs, with_output, ToolCommand};
use crate::queue::job::BuildManifest;
use crate::text::{ends_with, joined, opt_text, signed_decimal, texts};
use vstd::prelude::*;

verus! {

/// Whether an argument is given with a value behind it.
pub open spec fn is_given(args: Seq<Seq<char>>, name: Seq<char>, value: Seq<char>) -> bool {
    exists|i: int| is_given_at(args, name, value, i)
}

/// Whether an argument is given at a place, with a value behind it.
pub open spec fn is_given_at(
    args: Seq<Seq<char>>,
    name: Seq<char>,
    value: Seq<char>,
    i: int,
) -> bool {
    0 <= i && i + 1 < args.len() && args[i] == name && args[i + 1] == value
}

proof fn lemma_mount_args(mounts: Seq<ContainerMount>, k: int)
    requires
        0 <= k < mounts.len(),
    ensures
        mount_args(mounts).len() == 2 * mounts.len(),
        mount_args(mounts)[2 * k] == "-v"@,
        mount_args(mounts)[2 * k + 1] == mounts[k].host_path@ + ":"@ + mounts[k].container_path@
            + (if mounts[k].read_only {
            ":ro"@
        } else {
            ""@
        }),
    decreases mounts.len(),
{
    let rest = mounts.drop_last();
    lemma_mount_args_len(rest);
    if k < rest.len() {
        lemma_mount_args(rest, k);
    }
}

proof fn lemma_mount_args_len(mounts: Seq<ContainerMount>)
    ensures
        mount_args(mounts).len() == 2 * mounts.len(),
    decreases mounts.len(),
{
    if mounts.len() > 0 {
        lemma_mount_args_len(mounts.drop_last());
    }
}

proof fn lemma_env_args(vars: Seq<(Seq<char>, Seq<char>)>, k: int)
    requires
        0 <= k < vars.len(),
    ensures
        env_args(vars).len() == 2 * vars.len(),
        env_args(vars)[2 * k] == "-e"@,
        env_args(vars)[2 * k + 1] == vars[k].0 + "="@ + vars[k].1,
    decreases vars.len(),
{
    let rest = vars.drop_last();
    lemma_env_args_len(rest);
    if k < rest.len() {
        lemma_env_args(rest, k);
    }
}

proof fn lemma_env_args_len(vars: Seq<(Seq<char>, Seq<char>)>)
    ensures
        env_args(vars).len() == 2 * vars.len(),
    decreases vars.len(),
{
    if vars.len() > 0 {
        lemma_env_args_len(vars.drop_last());
    }
}

/// Where the parts of the arguments of a container begin.
proof fn lemma_parts(run: ContainerRun) -> (f: (int, int, int, int))
    ensures
        f.0 == 4 + network_args(run.network).len(),
        f.1 == f.0 + 2 * run.mounts@.len(),
        f.2 == f.1 + workdir_args(opt_text(run.working_dir)).len(),
        f.3 == f.2 + 2 * run.env_vars@.len(),
        run_args(run).len() == f.3 + 4,
        run_args(run).subrange(f.0, f.1) == mount_args(run.mounts@),
        run_args(run).subrange(f.1, f.2) == workdir_args(opt_text(run.working_dir)),
        run_args(run).subrange(f.2, f.3) == env_args(text_pairs(run.env_vars@)),
{
    lemma_mount_args_len(run.mounts@);
    lemma_env_args_len(text_pairs(run.env_vars@));
    let args = run_args(run);
    let a = 4int + network_args(run.network).len();
    let b = a + 2 * run.mounts@.len();
    let c = b + workdir_args(opt_text(run.working_dir)).len();
    let d = c + 2 * run.env_vars@.len();
    assert(args.subrange(a, b) =~= mount_args(run.mounts@));
    assert(args.subrange(b, c) =~= workdir_args(opt_text(run.working_dir)));
    assert(args.subrange(c, d) =~= env_args(text_pairs(run.env_vars@)));
    (a, b, c, d)
}

/// A container is started as it is described: from its image, under its name,
/// with its kind of isolation, with its command, and with the network only if it
/// may reach it.
pub proof fn lemma_containers_are_started_as_described(run: &ContainerRun, args: Vec<String>)
    requires
        call_ensures(container_args, (run,), args),
    ensures
        ({
            let a = texts(args@);
            let n = a.len() as int;
            &&& n >= 8
            &&& a[0] == "run"@
            &&& a.contains("--isolation="@ + run.isolation@)
            &&& a.contains("--name="@ + run.name@)
            &&& a.contains("--rm"@)
            &&& !run.network ==> a.contains("--network=none"@)
            &&& a[n - 4] == run.image@
            &&& a[n - 3] == "cmd"@
            &&& a[n - 2] == "/c"@
            &&& a[n - 1] == run.command@
        }),
{
    let a = texts(args@);
    let f = lemma_parts(*run);
    assert(a[1] == "--isolation="@ + run.isolation@);
    assert(a[2] == "--rm"@);
    assert(a[3] == "--name="@ + run.name@);
    if !run.network {
        assert(a[4] == "--network=none"@);
    }
}

/// A container sees each of its directories under the path that it is to have
/// there, read-only where it is to be, works in its working directory, and gets
/// each of its variables with its value.
pub proof fn lemma_containers_see_what_is_described(run: &ContainerRun, args: Vec<String>)
    requires
        call_ensures(container_args, (run,), args),
    ensures
        forall|k: int|
            0 <= k < run.mounts@.len() ==> {
                let m = #[trigger] run.mounts@[k];
                is_given(
                    texts(args@),
                    "-v"@,
                    m.host_path@ + ":"@ + m.container_path@ + (if m.read_only {
                        ":ro"@
                    } else {
                        ""@
                    }),
                )
            },
        run.working_dir matches Some(dir) ==> is_given(texts(args@), "-w"@, dir@),
        forall|k: int|
            0 <= k < run.env_vars@.len() ==> {
                let v = #[trigger] run.env_vars@[k];
                is_given(texts(args@), "-e"@, v.0@ + "="@ + v.1@)
            },
{
    let a = texts(args@);
    let f = lemma_parts(*run);
    assert forall|k: int| 0 <= k < run.mounts@.len() implies {
        let m = #[trigger] run.mounts@[k];
        is_given(
            a,
            "-v"@,
            m.host_path@ + ":"@ + m.container_path@ + (if m.read_only {
                ":ro"@
            } else {
                ""@
            }),
        )
    } by {
        let m = run.mounts@[k];
        let value = m.host_path@ + ":"@ + m.container_path@ + (if m.read_only {
            ":ro"@
        } else {
            ""@
        });
        lemma_mount_args(run.mounts@, k);
        let part = a.subrange(f.0, f.1);
        assert(part[2 * k] == a[f.0 + 2 * k]);
        assert(part[2 * k + 1] == a[f.0 + 2 * k + 1]);
        assert(is_given_at(a, "-v"@, value, f.0 + 2 * k));
    }
    if let Some(dir) = run.working_dir {
        let part = a.subrange(f.1, f.2);
        assert(part[0] == a[f.1]);
        assert(part[1] == a[f.1 + 1]);
        assert(is_given_at(a, "-w"@, dir@, f.1));
    }
    assert forall|k: int| 0 <= k < run.env_vars@.len() implies {
        let v = #[trigger] run.env_vars@[k];
        is_given(a, "-e"@, v.0@ + "="@ + v.1@)
    } by {
        let v = run.env_vars@[k];
        lemma_env_args(text_pairs(run.env_vars@), k);
        let part = a.subrange(f.2, f.3);
        assert(text_pairs(run.env_vars@)[k] == (v.0@, v.1@));
        assert(part[2 * k] == a[f.2 + 2 * k]);
        assert(part[2 * k + 1] == a[f.2 + 2 * k + 1]);
        assert(is_given_at(a, "-e"@, v.0@ + "="@ + v.1@, f.2 + 2 * k));
    }
}

/// Whether a container sees a directory of the host under the same path, and may
/// only read it.
pub open spec fn reads(args: Seq<Seq<char>>, dir: Seq<char>) -> bool {
    is_given(args, "-v"@, dir + ":"@ + dir + ":ro"@)
}

/// Whether a container sees a directory of the host under the same path, and may
/// write to it.
pub open spec fn writes(args: Seq<Seq<char>>, dir: Seq<char>) -> bool {
    is_given(args, "-v"@, dir + ":"@ + dir)
}

/// The step of a build runs its command in a container of the configured image
/// and isolation that is named after the step and the job, in the directory that
/// it is to work in. There it reads the compiler, the toolchain, the Windows
/// Kits, NSIS and its sources, and writes to the directory that it is to write
/// to. It may take as long as is configured.
pub proof fn lemma_steps_run_where_they_are_configured(
    docker: &DockerConfig,
    step: &str,
    job_id: &str,
    dirs: &StepDirs,
    working_dir: &str,
    command: &str,
    run: ContainerRun,
    args: Vec<String>,
)
    requires
        call_ensures(isolated_step, (docker, step, job_id, dirs, working_dir, command), run),
        call_ensures(container_args, (&run,), args),
    ensures
        ({
            let a = texts(args@);
            let n = a.len() as int;
            &&& n >= 8
            &&& a.contains("--isolation="@ + docker.isolation@)
            &&& a.contains("--name="@ + ("perry-"@ + step@ + "-"@ + job_id@))
            &&& a.contains("--network=none"@)
            &&& a[n - 4] == docker.image@
            &&& a[n - 1] == command@
            &&& is_given(a, "-w"@, working_dir@)
            &&& writes(a, dirs.writable@)
            &&& reads(a, docker.perry_tools_path@)
            &&& reads(a, docker.msvc_path@)
            &&& reads(a, docker.winkits_path@)
            &&& reads(a, docker.nsis_path@)
            &&& dirs.sources matches Some(path) ==> reads(a, path@)
            &&& run.timeout == docker.timeout_secs
            &&& run.env_vars@.len() == 0
        }),
{
    lemma_containers_are_started_as_described(&run, args);
    lemma_containers_see_what_is_described(&run, args);
    reveal_strlit("");
    let w = run.mounts@[0];
    assert(w.host_path@ + ":"@ + w.container_path@ + ""@ =~= dirs.writable@ + ":"@
        + dirs.writable@);
    let t = run.mounts@[1];
    let m = run.mounts@[2];
    let k = run.mounts@[3];
    let s = run.mounts@[4];
    if dirs.sources is Some {
        let p = run.mounts@[5];
        assert(p.read_only);
    }
}

/// Docker is told to end the very container that it was told to start.
pub proof fn lemma_the_container_that_runs_is_killed(
    run: &ContainerRun,
    args: Vec<String>,
    name: &str,
    kill: Vec<String>,
)
    requires
        call_ensures(container_args, (run,), args),
        name@ == run.name@,
        call_ensures(kill_args, (name,), kill),
    ensures
        texts(kill@).len() == 2,
        texts(kill@)[0] == "kill"@,
        texts(args@).contains("--name="@ + texts(kill@)[1]),
{
    lemma_containers_are_started_as_described(run, args);
}

/// A container that was not started, not waited for, not in time or not
/// successful is a failure, and so is one that ended after the build was
/// cancelled.
pub proof fn lemma_only_code_zero_is_success(
    run: &ContainerRun,
    end: &ContainerEnd,
    cancelled: bool,
    stderr: &Vec<String>,
    stdout: &Vec<String>,
    r: Result<(), String>,
)
    requires
        call_ensures(container_outcome, (run, end, cancelled, stderr, stdout), r),
    ensures
        r is Ok <==> !cancelled && (*end matches ContainerEnd::Exited(code) && code == Some(0i32)),
{
}

/// The compiler is run on the entry file of the project, below the project's
/// directory, and told to write where the output is looked for. A target is
/// passed on if there is one.
pub proof fn lemma_the_entry_is_compiled(
    manifest: &BuildManifest,
    perry_binary: &str,
    project_dir: &str,
    output_path: &str,
    target: Option<&str>,
    canonical_project: &Result<String, String>,
    canonical_entry: &Result<String, String>,
    style: PathStyle,
    command: ToolCommand,
)
    requires
        call_ensures(
            compile,
            (
                manifest,
                perry_binary,
                project_dir,
                output_path,
                target,
                canonical_project,
                canonical_entry,
                style,
            ),
            Ok::<ToolCommand, String>(command),
        ),
    ensures
        command@.program == perry_binary@,
        is_given(
            command@.args,
            "compile"@,
            below(project_dir@, manifest.entry@, style),
        ),
        is_given(command@.args, "-o"@, output_path@),
        target matches Some(t) ==> is_given(command@.args, "--target"@, t@),
        target is None ==> command@.args.len() == 4,
{
    let a = command@.args;
    assert(is_given_at(a, "compile"@, below(project_dir@, manifest.entry@, style), 0));
    assert(is_given_at(a, "-o"@, output_path@, 2));
    if let Some(t) = target {
        assert(is_given_at(a, "--target"@, t@, 4));
    }
}

/// A compilation counts exactly if the compiler ended with code 0, the build was
/// not cancelled and the output is there, in a container as without one. What
/// kept the compiler from running is passed on, and what it printed too.
pub proof fn lemma_only_written_output_counts(
    end: &CompilerEnd,
    cancelled: bool,
    stderr: &Vec<String>,
    stdout: &Vec<String>,
    output_exists: bool,
    r: Result<(), String>,
    ran: Result<(), String>,
    isolated: Result<(), String>,
)
    requires
        call_ensures(compile_outcome, (end, cancelled, stderr, stdout, output_exists), r),
        call_ensures(isolated_outcome, (ran, output_exists), isolated),
    ensures
        r is Ok <==> !cancelled && output_exists && (*end matches CompilerEnd::Exited(code) && code
            == Some(0i32)),
        isolated is Ok <==> ran is Ok && output_exists,
        ran matches Err(e) ==> isolated->Err_0@ == e@,
        *end matches CompilerEnd::NotStarted(e) ==> ends_with(r->Err_0@, e@),
        *end matches CompilerEnd::WaitFailed(e) ==> ends_with(r->Err_0@, e@),
        *end matches CompilerEnd::Exited(code) ==> !cancelled && code != Some(0i32)
            && stdout@.len() > 0 ==> ends_with(r->Err_0@, joined(texts(stdout@), "\n"@)),
        *end matches CompilerEnd::Exited(code) ==> !cancelled && code != Some(0i32)
            && stdout@.len() == 0 && stderr@.len() > 0 ==> ends_with(
            r->Err_0@,
            joined(texts(stderr@), "\n"@),
        ),
{
    match *end {
        CompilerEnd::NotStarted(e) => {
            lemma_ends("Failed to spawn perry: "@, e@);
        },
        CompilerEnd::WaitFailed(e) => {
            lemma_ends("Failed to wait for perry: "@, e@);
        },
        CompilerEnd::Exited(code) => {
            let m = "perry compile exited with code "@ + signed_decimal(shown_code(code));
            let first = with_output(m, texts(stderr@), Seq::empty());
            lemma_ends(m + "\n"@, joined(texts(stderr@), "\n"@));
            lemma_ends(first + "\n"@, joined(texts(stdout@), "\n"@));
        },
    }
}

proof fn lemma_ends(a: Seq<char>, b: Seq<char>)
    ensures
        ends_with(a + b, b),
{
    assert((a + b).skip(a.len() as int) =~= b);
}

/// Where the program and its arguments mean nothing to the shell, the command
/// line is the program and its arguments as they are, with a blank before each.
pub proof fn lemma_plain_words_stand_as_they_are(command: &ToolCommand, s: String)
    requires
        call_ensures(command_line, (command,), s),
        is_plain_word(command@.program),
        forall|k: int| 0 <= k < command@.args.len() ==> is_plain_word(#[trigger] command@.args[k]),
    ensures
        s@ == joined(seq![command@.program] + command@.args, " "@),
{
    lemma_plain_words(command@.program, command@.args);
}

proof fn lemma_plain_words(program: Seq<char>, args: Seq<Seq<char>>)
    requires
        is_plain_word(program),
        forall|k: int| 0 <= k < args.len() ==> is_plain_word(#[trigger] args[k]),
    ensures
        quoted(program) + quoted_args(args) == joined(seq![program] + args, " "@),
    decreases args.len(),
{
    let words = seq![program] + args;
    reveal_with_fuel(joined, 2);
    if args.len() == 0 {
        assert(words =~= seq![program]);
        assert(quoted(program) + quoted_args(args) =~= program);
        assert(joined(words, " "@) =~= program);
    } else {
        let rest = args.drop_last();
        assert forall|k: int| 0 <= k < rest.len() implies is_plain_word(#[trigger] rest[k]) by {
            assert(rest[k] == args[k]);
        }
        lemma_plain_words(program, rest);
        assert(words.drop_last() =~= seq![program] + rest);
        assert(words.last() == args.last());
        assert(is_plain_word(args[args.len() - 1]));
        assert(quoted(program) + quoted_args(args) =~= quoted(program) + quoted_args(rest) + " "@
            + args.last());
    }
}

} // verus!
