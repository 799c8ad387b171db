//! Build isolation: steps that run in disposable containers.
use crate::config::DockerConfig;
use crate::process::{append_output, code_text, shown_code, text_pairs, with_output};
use crate::text::{
    cat2, cat3, decimal, decimal_text, opt_text, push_text, signed_decimal, texts, verdict,
};
use vstd::prelude::*;
use vstd::string::*;

verus! {

/// A directory of the host that a container sees.
pub struct ContainerMount {
    pub host_path: String,
    pub container_path: String,
    pub read_only: bool,
}

/// A command to run in a container. The timeout is in seconds.
pub struct ContainerRun {
    pub name: String,
    pub image: String,
    pub isolation: String,
    pub mounts: Vec<ContainerMount>,
    pub working_dir: Option<String>,
    pub env_vars: Vec<(String, String)>,
    pub command: String,
    pub timeout: u64,
    pub network: bool,
}

/// A mount as an argument: host path, container path, and a mark where it is
/// read-only.
pub open spec fn mount_text(m: ContainerMount) -> Seq<char> {
    m.host_path@ + ":"@ + m.container_path@ + (if m.read_only {
        ":ro"@
    } else {
        ""@
    })
}

/// The arguments for the mounts.
pub open spec fn mount_args(mounts: Seq<ContainerMount>) -> Seq<Seq<char>>
    decreases mounts.len(),
{
    if mounts.len() == 0 {
        Seq::empty()
    } else {
        mount_args(mounts.drop_last()).push("-v"@).push(mount_text(mounts.last()))
    }
}

/// The arguments for the environment variables.
pub open spec fn env_args(vars: Seq<(Seq<char>, Seq<char>)>) -> Seq<Seq<char>>
    decreases vars.len(),
{
    if vars.len() == 0 {
        Seq::empty()
    } else {
        env_args(vars.drop_last()).push("-e"@).push(vars.last().0 + "="@ + vars.last().1)
    }
}

/// The arguments that keep a container from the network.
pub open spec fn network_args(network: bool) -> Seq<Seq<char>> {
    if network {
        Seq::empty()
    } else {
        seq!["--network=none"@]
    }
}

/// The arguments for the working directory.
pub open spec fn workdir_args(dir: Option<Seq<char>>) -> Seq<Seq<char>> {
    match dir {
        Some(d) => seq!["-w"@, d],
        None => Seq::empty(),
    }
}

/// The arguments of docker for running a command in a container.
pub open spec fn run_args(run: ContainerRun) -> Seq<Seq<char>> {
    seq!["run"@, "--isolation="@ + run.isolation@, "--rm"@, "--name="@ + run.name@]
        + network_args(run.network) + mount_args(run.mounts@) + workdir_args(
        opt_text(run.working_dir),
    ) + env_args(text_pairs(run.env_vars@)) + seq![run.image@, "cmd"@, "/c"@, run.command@]
}

/// The arguments of docker for running a command in a container.
pub fn container_args(run: &ContainerRun) -> (r: Vec<String>)
    ensures
        texts(r@) == run_args(*run),
{
    let mut args: Vec<String> = Vec::new();
    push_text(&mut args, "run");
    push_text(&mut args, &cat2("--isolation=", &run.isolation));
    push_text(&mut args, "--rm");
    push_text(&mut args, &cat2("--name=", &run.name));
    if !run.network {
        push_text(&mut args, "--network=none");
    }
    let ghost head = seq![
        "run"@,
        "--isolation="@ + run.isolation@,
        "--rm"@,
        "--name="@ + run.name@,
    ] + network_args(run.network);
    assert(texts(args@) =~= head);
    let mut i: usize = 0;
    assert(head + mount_args(run.mounts@.take(0)) =~= head);
    while i < run.mounts.len()
        invariant
            i <= run.mounts@.len(),
            texts(args@) == head + mount_args(run.mounts@.take(i as int)),
        decreases run.mounts@.len() - i,
    {
        let mount = &run.mounts[i];
        let mut text = cat3(&mount.host_path, ":", &mount.container_path);
        if mount.read_only {
            text.append(":ro");
        } else {
            text.append("");
        }
        push_text(&mut args, "-v");
        push_text(&mut args, &text);
        assert(run.mounts@.take(i + 1).drop_last() =~= run.mounts@.take(i as int));
        assert(text@ == mount_text(run.mounts@[i as int]));
        assert(texts(args@) =~= head + mount_args(run.mounts@.take(i + 1)));
        i = i + 1;
    }
    assert(run.mounts@.take(run.mounts@.len() as int) =~= run.mounts@);
    match &run.working_dir {
        Some(dir) => {
            push_text(&mut args, "-w");
            push_text(&mut args, dir);
        },
        None => {},
    }
    let ghost front = head + mount_args(run.mounts@) + workdir_args(opt_text(run.working_dir));
    assert(texts(args@) =~= front);
    let ghost vars = text_pairs(run.env_vars@);
    let mut j: usize = 0;
    assert(front + env_args(vars.take(0)) =~= front);
    while j < run.env_vars.len()
        invariant
            j <= run.env_vars@.len(),
            vars == text_pairs(run.env_vars@),
            texts(args@) == front + env_args(vars.take(j as int)),
        decreases run.env_vars@.len() - j,
    {
        push_text(&mut args, "-e");
        push_text(&mut args, &cat3(&run.env_vars[j].0, "=", &run.env_vars[j].1));
        assert(vars.take(j + 1).drop_last() =~= vars.take(j as int));
        assert(texts(args@) =~= front + env_args(vars.take(j + 1)));
        j = j + 1;
    }
    assert(vars.take(vars.len() as int) =~= vars);
    push_text(&mut args, &run.image);
    push_text(&mut args, "cmd");
    push_text(&mut args, "/c");
    push_text(&mut args, &run.command);
    assert(texts(args@) =~= run_args(*run));
    args
}

/// The arguments of docker for ending a container.
pub fn kill_args(name: &str) -> (r: Vec<String>)
    ensures
        texts(r@) == seq!["kill"@, name@],
{
    let mut args: Vec<String> = Vec::new();
    push_text(&mut args, "kill");
    push_text(&mut args, name);
    assert(texts(args@) =~= seq!["kill"@, name@]);
    args
}

/// How running a container went.
pub enum ContainerEnd {
    /// Docker could not be started.
    NotStarted(String),
    /// The container ended. Without a code a signal ended it.
    Exited(Option<i32>),
    /// Its end could not be waited for.
    WaitFailed(String),
    /// It did not end in time.
    TimedOut,
}

/// What comes of a container. Cancelling counts once it has ended by itself.
pub open spec fn container_verdict(
    end: ContainerEnd,
    cancelled: bool,
    stderr: Seq<Seq<char>>,
    stdout: Seq<Seq<char>>,
    timeout: nat,
) -> Result<(), Seq<char>> {
    match end {
        ContainerEnd::NotStarted(e) => Err("Failed to spawn docker: "@ + e@),
        ContainerEnd::Exited(code) => if cancelled {
            Err("Build cancelled"@)
        } else if code == Some(0i32) {
            Ok(())
        } else {
            Err(
                with_output(
                    "Container exited with code "@ + signed_decimal(shown_code(code)),
                    stderr,
                    stdout,
                ),
            )
        },
        ContainerEnd::WaitFailed(e) => Err("Failed to wait for container: "@ + e@),
        ContainerEnd::TimedOut => Err(
            "Container timed out after "@ + decimal(timeout) + "s"@,
        ),
    }
}

/// What comes of a container that was run.
pub fn container_outcome(
    run: &ContainerRun,
    end: &ContainerEnd,
    cancelled: bool,
    stderr: &Vec<String>,
    stdout: &Vec<String>,
) -> (r: Result<(), String>)
    ensures
        verdict(r) == container_verdict(
            *end,
            cancelled,
            texts(stderr@),
            texts(stdout@),
            run.timeout as nat,
        ),
{
    match end {
        ContainerEnd::NotStarted(e) => Err(cat2("Failed to spawn docker: ", e)),
        ContainerEnd::Exited(code) => {
            if cancelled {
                return Err("Build cancelled".to_owned());
            }
            match *code {
                Some(c) => if c == 0 {
                    return Ok(());
                },
                None => {},
            }
            let message = cat2("Container exited with code ", &code_text(*code));
            Err(append_output(&message, stderr, stdout))
        },
        ContainerEnd::WaitFailed(e) => Err(cat2("Failed to wait for container: ", e)),
        ContainerEnd::TimedOut => Err(
            cat3("Container timed out after ", &decimal_text(run.timeout), "s"),
        ),
    }
}

/// Whether docker has to be told to end a container: while it runs, once the
/// build was cancelled, and afterwards, where it did not end in time.
pub fn needs_kill(end: Option<&ContainerEnd>, cancelled: bool) -> (r: bool)
    ensures
        r == match end {
            None => cancelled,
            Some(e) => e is TimedOut,
        },
{
    match end {
        None => cancelled,
        Some(ContainerEnd::TimedOut) => true,
        Some(_) => false,
    }
}

/// A directory of the host that a container sees under the same path.
pub open spec fn is_same_path(m: ContainerMount, path: Seq<char>, read_only: bool) -> bool {
    m.host_path@ == path && m.container_path@ == path && m.read_only == read_only
}

fn same_path(path: &str, read_only: bool) -> (m: ContainerMount)
    ensures
        is_same_path(m, path@, read_only),
{
    ContainerMount { host_path: path.to_owned(), container_path: path.to_owned(), read_only }
}

/// What a step of a build works on: the directory that it writes to, and one
/// that it only reads, if there is such a one.
pub struct StepDirs<'a> {
    pub writable: &'a str,
    pub sources: Option<&'a str>,
}

impl StepDirs<'_> {
    /// The directory that a step only reads.
    pub open spec fn source_text(self) -> Option<Seq<char>> {
        match self.sources {
            Some(path) => Some(path@),
            None => None,
        }
    }
}

/// The directories that the container of a step sees, under the paths that they
/// have on the host: the one that it writes to, and read-only the tools and the
/// sources.
pub open spec fn are_step_mounts(
    mounts: Seq<ContainerMount>,
    docker: DockerConfig,
    writable: Seq<char>,
    sources: Option<Seq<char>>,
) -> bool {
    &&& mounts.len() == 5 + if sources is Some {
        1int
    } else {
        0int
    }
    &&& is_same_path(mounts[0], writable, false)
    &&& is_same_path(mounts[1], docker.perry_tools_path@, true)
    &&& is_same_path(mounts[2], docker.msvc_path@, true)
    &&& is_same_path(mounts[3], docker.winkits_path@, true)
    &&& is_same_path(mounts[4], docker.nsis_path@, true)
    &&& sources matches Some(path) ==> is_same_path(mounts[5], path, true)
}

/// A step of a build as a container: it writes to one directory alone, and has
/// no network.
pub open spec fn is_isolated_step(
    run: ContainerRun,
    docker: DockerConfig,
    step: Seq<char>,
    job_id: Seq<char>,
    dirs: StepDirs,
    working_dir: Seq<char>,
    command: Seq<char>,
) -> bool {
    &&& run.name@ == "perry-"@ + step + "-"@ + job_id
    &&& run.image@ == docker.image@
    &&& run.isolation@ == docker.isolation@
    &&& are_step_mounts(run.mounts@, docker, dirs.writable@, dirs.source_text())
    &&& opt_text(run.working_dir) == Some(working_dir)
    &&& run.env_vars@.len() == 0
    &&& run.command@ == command
    &&& run.timeout == docker.timeout_secs
    &&& !run.network
}

/// A step of a build as a container.
pub fn isolated_step(
    docker: &DockerConfig,
    step: &str,
    job_id: &str,
    dirs: &StepDirs,
    working_dir: &str,
    command: &str,
) -> (run: ContainerRun)
    ensures
        is_isolated_step(run, *docker, step@, job_id@, *dirs, working_dir@, command@),
{
    let mut name = "perry-".to_owned();
    name.append(step);
    name.append("-");
    name.append(job_id);
    let mut mounts: Vec<ContainerMount> = Vec::new();
    mounts.push(same_path(dirs.writable, false));
    mounts.push(same_path(&docker.perry_tools_path, true));
    mounts.push(same_path(&docker.msvc_path, true));
    mounts.push(same_path(&docker.winkits_path, true));
    mounts.push(same_path(&docker.nsis_path, true));
    match dirs.sources {
        Some(path) => mounts.push(same_path(path, true)),
        None => {},
    }
    ContainerRun {
        name,
        image: docker.image.clone(),
        isolation: docker.isolation.clone(),
        mounts,
        working_dir: Some(working_dir.to_owned()),
        env_vars: Vec::new(),
        command: command.to_owned(),
        timeout: docker.timeout_secs,
        network: false,
    }
}

/// A container is destroyed when its command ends, and one that may not reach
/// the network is started without it.
pub proof fn lemma_containers_are_disposable(run: ContainerRun)
    ensures
        run_args(run).contains("--rm"@),
        !run.network ==> run_args(run).contains("--network=none"@),
{
    assert(run_args(run)[2] == "--rm"@);
    if !run.network {
        assert(run_args(run)[4] == "--network=none"@);
    }
}

/// The container of a step is started without the network, and destroyed.
pub proof fn lemma_steps_run_without_network(
    run: ContainerRun,
    docker: DockerConfig,
    step: Seq<char>,
    job_id: Seq<char>,
    dirs: StepDirs,
    working_dir: Seq<char>,
    command: Seq<char>,
)
    requires
        is_isolated_step(run, docker, step, job_id, dirs, working_dir, command),
    ensures
        run_args(run).contains("--rm"@),
        run_args(run).contains("--network=none"@),
{
    lemma_containers_are_disposable(run);
}

/// The container of a step can write to one directory of the host alone; its
/// sources, if it has any, and all tools are read-only.
pub proof fn lemma_steps_write_to_one_directory(
    run: ContainerRun,
    docker: DockerConfig,
    step: Seq<char>,
    job_id: Seq<char>,
    dirs: StepDirs,
    working_dir: Seq<char>,
    command: Seq<char>,
    k: int,
)
    requires
        is_isolated_step(run, docker, step, job_id, dirs, working_dir, command),
        0 <= k < run.mounts@.len(),
        !run.mounts@[k].read_only,
    ensures
        k == 0,
        run.mounts@[k].host_path@ == dirs.writable@,
{
}

} // verus!
