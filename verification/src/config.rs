//! The configuration of the worker, and where the tools that it runs are found.
use crate::paths::{below, find_existing, first_existing, join_path, PathStyle};
use crate::process::text_pairs;
use crate::text::{
    ascii_lowercase, begins_with, opt_text, parse_unsigned, push_text, same_ignoring_case,
    same_text, starts_with_text, texts, unsigned_value,
};
use crate::version::{is_latest, latest};
use vstd::prelude::*;
use vstd::string::*;

verus! {

/// How long a step in a container may take, in seconds, unless it is configured.
pub const DEFAULT_TIMEOUT_SECS: u64 = 600;

/// The environment variables that the configuration is read from.
pub const VARIABLES: [&'static str; 14] = [
    "PERRY_HUB_URL",
    "PERRY_HUB_WORKER_SECRET",
    "PERRY_BUILD_PERRY_BINARY",
    "PERRY_WORKER_NAME",
    "PERRY_BUILD_WINDOWS_SDK_PATH",
    "PERRY_BUILD_NSIS_PATH",
    "PERRY_DOCKER_ENABLED",
    "PERRY_DOCKER_IMAGE",
    "PERRY_DOCKER_ISOLATION",
    "PERRY_DOCKER_PERRY_TOOLS",
    "PERRY_DOCKER_MSVC_PATH",
    "PERRY_DOCKER_WINKITS_PATH",
    "PERRY_DOCKER_NSIS_PATH",
    "PERRY_DOCKER_TIMEOUT",
];

/// The environment variables of a process.
pub struct Environment {
    pub vars: Vec<(String, String)>,
}

/// The value of a variable: that of its first entry.
pub open spec fn value_of(vars: Seq<(Seq<char>, Seq<char>)>, name: Seq<char>) -> Option<Seq<char>>
    decreases vars.len(),
{
    if vars.len() == 0 {
        None
    } else if vars[0].0 == name {
        Some(vars[0].1)
    } else {
        value_of(vars.drop_first(), name)
    }
}

impl Environment {
    /// The value of a variable.
    pub open spec fn value(&self, name: Seq<char>) -> Option<Seq<char>> {
        value_of(text_pairs(self.vars@), name)
    }

    /// The value of a variable, or a default.
    pub open spec fn value_or(&self, name: Seq<char>, default: Seq<char>) -> Seq<char> {
        match self.value(name) {
            Some(v) => v,
            None => default,
        }
    }

    /// The value of a variable.
    pub fn get(&self, name: &str) -> (r: Option<String>)
        ensures
            opt_text(r) == self.value(name@),
    {
        let ghost all = text_pairs(self.vars@);
        let mut i: usize = 0;
        assert(all.skip(0) =~= all);
        while i < self.vars.len()
            invariant
                i <= self.vars@.len(),
                all == text_pairs(self.vars@),
                value_of(all.skip(i as int), name@) == value_of(all, name@),
            decreases self.vars@.len() - i,
        {
            assert(all.skip(i as int)[0] == all[i as int]);
            assert(all.skip(i as int).drop_first() =~= all.skip(i + 1));
            if same_text(&self.vars[i].0, name) {
                return Some(self.vars[i].1.clone());
            }
            i = i + 1;
        }
        None
    }

    /// The value of a variable, or a default.
    pub fn get_or(&self, name: &str, default: &str) -> (r: String)
        ensures
            r@ == self.value_or(name@, default@),
    {
        match self.get(name) {
            Some(v) => v,
            None => default.to_owned(),
        }
    }
}

/// The configuration of the worker.
#[derive(Debug)]
pub struct WorkerConfig {
    pub hub_ws_url: String,
    /// Shared secret for hub authentication
    pub hub_secret: Option<String>,
    pub perry_binary: String,
    pub worker_name: Option<String>,
    pub windows_sdk_path: Option<String>,
    pub nsis_path: Option<String>,
    pub docker: DockerConfig,
}

/// The configuration of build isolation.
#[derive(Debug)]
pub struct DockerConfig {
    pub enabled: bool,
    pub image: String,
    pub isolation: String,
    pub perry_tools_path: String,
    pub msvc_path: String,
    pub winkits_path: String,
    pub nsis_path: String,
    pub timeout_secs: u64,
    /// Resolved MSVC version subdir (e.g. "14.44.35207"), detected at startup
    pub msvc_version: Option<String>,
    /// Resolved Windows SDK version (e.g. "10.0.26100.0"), detected at startup
    pub sdk_version: Option<String>,
}

/// Whether a value switches something on: `1`, or `true` in any case.
pub open spec fn is_on(value: Option<Seq<char>>) -> bool {
    match value {
        Some(v) => v == "1"@ || ascii_lowercase(v) == ascii_lowercase("true"@),
        None => false,
    }
}

/// A number of seconds, where the value is one.
pub open spec fn number_of(value: Option<Seq<char>>, default: u64) -> u64 {
    match value {
        Some(v) => match unsigned_value(v, u64::MAX as nat) {
            Some(n) => n as u64,
            None => default,
        },
        None => default,
    }
}

/// A number, where the value is one that fits; else the default.
pub fn number_or(value: &Option<String>, default: u64) -> (n: u64)
    ensures
        n == number_of(opt_text(*value), default),
{
    match value {
        Some(v) => match parse_unsigned(v, u64::MAX) {
            Some(n) => n,
            None => default,
        },
        None => default,
    }
}

/// Where Visual Studio is installed.
pub open spec fn msvc_path_of(env: Environment) -> Seq<char> {
    env.value_or(
        "PERRY_DOCKER_MSVC_PATH"@,
        r"C:\Program Files (x86)\Microsoft Visual Studio"@,
    )
}

/// Where the Windows Kits are installed.
pub open spec fn winkits_path_of(env: Environment) -> Seq<char> {
    env.value_or("PERRY_DOCKER_WINKITS_PATH"@, r"C:\Program Files (x86)\Windows Kits"@)
}

/// The directory whose subdirectories are the versions of the MSVC toolchain.
pub open spec fn msvc_base(msvc_path: Seq<char>, style: PathStyle) -> Seq<char> {
    below(
        below(below(below(below(msvc_path, "2022"@, style), "BuildTools"@, style), "VC"@, style),
            "Tools"@, style),
        "MSVC"@,
        style,
    )
}

/// The directory whose subdirectories are the versions of the Windows SDK.
pub open spec fn sdk_lib_base(winkits_path: Seq<char>, style: PathStyle) -> Seq<char> {
    below(below(winkits_path, "10"@, style), "Lib"@, style)
}

/// The directory to list for versions of the MSVC toolchain.
pub fn msvc_versions_dir(env: &Environment, style: PathStyle) -> (r: String)
    ensures
        r@ == msvc_base(msvc_path_of(*env), style),
{
    let base = env.get_or(
        "PERRY_DOCKER_MSVC_PATH",
        r"C:\Program Files (x86)\Microsoft Visual Studio",
    );
    let a = join_path(&base, "2022", style);
    let b = join_path(&a, "BuildTools", style);
    let c = join_path(&b, "VC", style);
    let d = join_path(&c, "Tools", style);
    join_path(&d, "MSVC", style)
}

/// The directory to list for versions of the Windows SDK.
pub fn sdk_versions_dir(env: &Environment, style: PathStyle) -> (r: String)
    ensures
        r@ == sdk_lib_base(winkits_path_of(*env), style),
{
    let base = env.get_or("PERRY_DOCKER_WINKITS_PATH", r"C:\Program Files (x86)\Windows Kits");
    join_path(&join_path(&base, "10", style), "Lib", style)
}

/// The result is the latest version of a list; there is one unless the list is
/// empty.
pub open spec fn is_newest(versions: Seq<Seq<char>>, r: Option<Seq<char>>) -> bool {
    match r {
        Some(v) => is_latest(versions, v),
        None => versions.len() == 0,
    }
}

/// Detect the latest MSVC toolchain version directory, given the names of the
/// subdirectories of `{msvc_path}\2022\BuildTools\VC\Tools\MSVC\`.
pub fn detect_msvc_version(subdirs: &Vec<String>) -> (r: Option<String>)
    ensures
        is_newest(texts(subdirs@), opt_text(r)),
{
    latest(subdirs)
}

/// The names that begin with the number of the SDK's generation.
pub open spec fn sdk_versions(names: Seq<Seq<char>>) -> Seq<Seq<char>>
    decreases names.len(),
{
    if names.len() == 0 {
        Seq::empty()
    } else if begins_with(names.last(), "10."@) {
        sdk_versions(names.drop_last()).push(names.last())
    } else {
        sdk_versions(names.drop_last())
    }
}

/// Detect the latest Windows SDK version, given the names of the subdirectories
/// of `{winkits_path}\10\Lib\`.
pub fn detect_sdk_version(subdirs: &Vec<String>) -> (r: Option<String>)
    ensures
        is_newest(sdk_versions(texts(subdirs@)), opt_text(r)),
{
    let ghost names = texts(subdirs@);
    let mut versions: Vec<String> = Vec::new();
    let mut i: usize = 0;
    assert(texts(versions@) =~= sdk_versions(names.take(0)));
    while i < subdirs.len()
        invariant
            i <= subdirs@.len(),
            names == texts(subdirs@),
            texts(versions@) == sdk_versions(names.take(i as int)),
        decreases subdirs@.len() - i,
    {
        assert(names.take(i + 1).drop_last() =~= names.take(i as int));
        if starts_with_text(&subdirs[i], "10.") {
            push_text(&mut versions, &subdirs[i]);
        }
        i = i + 1;
    }
    assert(names.take(names.len() as int) =~= names);
    latest(&versions)
}

impl DockerConfig {
    /// The configuration says what the environment says, with the defaults.
    pub open spec fn is_from(
        self,
        env: Environment,
        msvc_dirs: Seq<Seq<char>>,
        sdk_dirs: Seq<Seq<char>>,
    ) -> bool {
        &&& self.enabled == is_on(env.value("PERRY_DOCKER_ENABLED"@))
        &&& self.image@ == env.value_or(
            "PERRY_DOCKER_IMAGE"@,
            "mcr.microsoft.com/windows/servercore:ltsc2025"@,
        )
        &&& self.isolation@ == env.value_or("PERRY_DOCKER_ISOLATION"@, "process"@)
        &&& self.perry_tools_path@ == env.value_or("PERRY_DOCKER_PERRY_TOOLS"@, r"C:\perry-tools"@)
        &&& self.msvc_path@ == msvc_path_of(env)
        &&& self.winkits_path@ == winkits_path_of(env)
        &&& self.nsis_path@ == env.value_or(
            "PERRY_DOCKER_NSIS_PATH"@,
            r"C:\Program Files (x86)\NSIS"@,
        )
        &&& self.timeout_secs == number_of(
            env.value("PERRY_DOCKER_TIMEOUT"@),
            DEFAULT_TIMEOUT_SECS,
        )
        &&& if self.enabled {
            is_newest(msvc_dirs, opt_text(self.msvc_version)) && is_newest(
                sdk_versions(sdk_dirs),
                opt_text(self.sdk_version),
            )
        } else {
            self.msvc_version is None && self.sdk_version is None
        }
    }
}

impl WorkerConfig {
    /// The configuration says what the environment says, with the defaults.
    pub open spec fn is_from(
        self,
        env: Environment,
        msvc_dirs: Seq<Seq<char>>,
        sdk_dirs: Seq<Seq<char>>,
    ) -> bool {
        &&& self.hub_ws_url@ == env.value_or("PERRY_HUB_URL"@, "wss://hub.perryts.com/ws"@)
        &&& opt_text(self.hub_secret) == env.value("PERRY_HUB_WORKER_SECRET"@)
        &&& self.perry_binary@ == env.value_or("PERRY_BUILD_PERRY_BINARY"@, "perry"@)
        &&& opt_text(self.worker_name) == env.value("PERRY_WORKER_NAME"@)
        &&& opt_text(self.windows_sdk_path) == env.value("PERRY_BUILD_WINDOWS_SDK_PATH"@)
        &&& opt_text(self.nsis_path) == env.value("PERRY_BUILD_NSIS_PATH"@)
        &&& self.docker.is_from(env, msvc_dirs, sdk_dirs)
    }

    /// The configuration that the environment gives. The versions of the
    /// toolchain and of the SDK are looked for where isolation is on, among the
    /// names of the subdirectories that hold them.
    pub fn from_env(env: &Environment, msvc_dirs: &Vec<String>, sdk_dirs: &Vec<String>) -> (r: Self)
        ensures
            r.is_from(*env, texts(msvc_dirs@), texts(sdk_dirs@)),
    {
        let enabled = match env.get("PERRY_DOCKER_ENABLED") {
            Some(v) => same_text(&v, "1") || same_ignoring_case(&v, "true"),
            None => false,
        };
        let msvc_version = if enabled {
            detect_msvc_version(msvc_dirs)
        } else {
            None
        };
        let sdk_version = if enabled {
            detect_sdk_version(sdk_dirs)
        } else {
            None
        };
        let docker = DockerConfig {
            enabled,
            image: env.get_or(
                "PERRY_DOCKER_IMAGE",
                "mcr.microsoft.com/windows/servercore:ltsc2025",
            ),
            isolation: env.get_or("PERRY_DOCKER_ISOLATION", "process"),
            perry_tools_path: env.get_or("PERRY_DOCKER_PERRY_TOOLS", r"C:\perry-tools"),
            msvc_path: env.get_or(
                "PERRY_DOCKER_MSVC_PATH",
                r"C:\Program Files (x86)\Microsoft Visual Studio",
            ),
            winkits_path: env.get_or(
                "PERRY_DOCKER_WINKITS_PATH",
                r"C:\Program Files (x86)\Windows Kits",
            ),
            nsis_path: env.get_or("PERRY_DOCKER_NSIS_PATH", r"C:\Program Files (x86)\NSIS"),
            timeout_secs: number_or(&env.get("PERRY_DOCKER_TIMEOUT"), DEFAULT_TIMEOUT_SECS),
            msvc_version,
            sdk_version,
        };
        WorkerConfig {
            hub_ws_url: env.get_or("PERRY_HUB_URL", "wss://hub.perryts.com/ws"),
            hub_secret: env.get("PERRY_HUB_WORKER_SECRET"),
            perry_binary: env.get_or("PERRY_BUILD_PERRY_BINARY", "perry"),
            worker_name: env.get("PERRY_WORKER_NAME"),
            windows_sdk_path: env.get("PERRY_BUILD_WINDOWS_SDK_PATH"),
            nsis_path: env.get("PERRY_BUILD_NSIS_PATH"),
            docker,
        }
    }
}

// ---------------------------------------------------------------------------
// Tools
// ---------------------------------------------------------------------------

/// The directory whose subdirectories are the versions of the SDK's tools.
pub open spec fn sdk_bin(sdk_path: Option<Seq<char>>, style: PathStyle) -> Seq<char> {
    match sdk_path {
        Some(p) => below(p, "bin"@, style),
        None => r"C:\Program Files (x86)\Windows Kits\10\bin"@,
    }
}

/// The directory to list for versions of the SDK's tools: below the configured
/// SDK, or the default one.
pub fn sdk_tools_dir(sdk_path: &Option<String>, style: PathStyle) -> (r: String)
    ensures
        r@ == sdk_bin(opt_text(*sdk_path), style),
{
    match sdk_path {
        Some(p) => join_path(p, "bin", style),
        None => r"C:\Program Files (x86)\Windows Kits\10\bin".to_owned(),
    }
}

/// Where a tool of a version of the SDK stands.
pub open spec fn sdk_tool_path(
    base: Seq<char>,
    version: Seq<char>,
    tool: Seq<char>,
    style: PathStyle,
) -> Seq<char> {
    below(below(below(base, version, style), "x64"@, style), tool, style)
}

/// Where a tool of a version of the SDK stands.
pub fn sdk_tool(base: &str, version: &str, tool: &str, style: PathStyle) -> (r: String)
    ensures
        r@ == sdk_tool_path(base@, version@, tool@, style),
{
    join_path(&join_path(&join_path(base, version, style), "x64", style), tool, style)
}

/// The result is the tool of the latest version that has it.
pub open spec fn is_newest_tool(
    r: Option<Seq<char>>,
    base: Seq<char>,
    versions: Seq<Seq<char>>,
    tool: Seq<char>,
    style: PathStyle,
) -> bool {
    match r {
        Some(path) => exists|v: Seq<char>|
            #[trigger] is_latest(versions, v) && path == sdk_tool_path(base, v, tool, style),
        None => versions.len() == 0,
    }
}

/// Find a tool inside the Windows SDK bin directories, returning the latest
/// version found; `versions` are the versions that have the tool.
pub fn find_sdk_tool(base: &str, versions: &Vec<String>, tool: &str, style: PathStyle) -> (r: Option<
    String,
>)
    ensures
        is_newest_tool(opt_text(r), base@, texts(versions@), tool@, style),
{
    match latest(versions) {
        Some(v) => {
            let path = sdk_tool(base, &v, tool, style);
            assert(is_latest(texts(versions@), v@));
            Some(path)
        },
        None => None,
    }
}

/// Walk `C:\Program Files (x86)\Windows Kits\10\bin\*\x64\signtool.exe`, or the
/// configured SDK, to find the latest version; `versions` are those that have
/// the tool.
pub fn find_signtool(sdk_path: &Option<String>, versions: &Vec<String>, style: PathStyle) -> (r:
    Option<String>)
    ensures
        is_newest_tool(
            opt_text(r),
            sdk_bin(opt_text(*sdk_path), style),
            texts(versions@),
            "signtool.exe"@,
            style,
        ),
{
    find_sdk_tool(&sdk_tools_dir(sdk_path, style), versions, "signtool.exe", style)
}

/// Walk Windows SDK for `MakeAppx.exe`; `versions` are those that have the tool.
pub fn find_makeappx(sdk_path: &Option<String>, versions: &Vec<String>, style: PathStyle) -> (r:
    Option<String>)
    ensures
        is_newest_tool(
            opt_text(r),
            sdk_bin(opt_text(*sdk_path), style),
            texts(versions@),
            "makeappx.exe"@,
            style,
        ),
{
    find_sdk_tool(&sdk_tools_dir(sdk_path, style), versions, "makeappx.exe", style)
}

/// The default places of makensis.
pub open spec fn default_makensis() -> Seq<Seq<char>> {
    seq![
        r"C:\Program Files (x86)\NSIS\makensis.exe"@,
        r"C:\Program Files\NSIS\makensis.exe"@,
    ]
}

/// The places of makensis, in the order in which they are looked at: the
/// configured one, as the file itself or as the directory that holds it, and
/// then the default ones.
pub open spec fn makensis_places(configured: Option<Seq<char>>, style: PathStyle) -> Seq<Seq<char>> {
    match configured {
        Some(p) => seq![p, below(p, "makensis.exe"@, style)] + default_makensis(),
        None => default_makensis(),
    }
}

/// The places of makensis, in the order in which they are looked at.
pub fn makensis_candidates(nsis_path_override: Option<&str>, style: PathStyle) -> (r: Vec<String>)
    ensures
        texts(r@) == makensis_places(
            match nsis_path_override {
                Some(p) => Some(p@),
                None => None,
            },
            style,
        ),
{
    let mut r: Vec<String> = Vec::new();
    match nsis_path_override {
        Some(p) => {
            push_text(&mut r, p);
            push_text(&mut r, &join_path(p, "makensis.exe", style));
        },
        None => {},
    }
    push_text(&mut r, r"C:\Program Files (x86)\NSIS\makensis.exe");
    push_text(&mut r, r"C:\Program Files\NSIS\makensis.exe");
    assert(texts(r@) =~= makensis_places(
        match nsis_path_override {
            Some(p) => Some(p@),
            None => None,
        },
        style,
    ));
    r
}

/// Check for `makensis.exe`, either at the override path or the default NSIS install location;
/// `existing` are the files there are among the places that are looked at.
pub fn find_makensis_with_override(
    nsis_path_override: Option<&str>,
    existing: &Vec<String>,
    style: PathStyle,
) -> (r: Option<String>)
    ensures
        opt_text(r) == first_existing(
            makensis_places(
                match nsis_path_override {
                    Some(p) => Some(p@),
                    None => None,
                },
                style,
            ),
            texts(existing@),
        ),
{
    find_existing(&makensis_candidates(nsis_path_override, style), existing)
}

/// Check the default NSIS installation path; `existing` are the files there are
/// among the default places.
pub fn find_makensis(existing: &Vec<String>, style: PathStyle) -> (r: Option<String>)
    ensures
        opt_text(r) == first_existing(default_makensis(), texts(existing@)),
{
    find_makensis_with_override(None, existing, style)
}

/// Where the configured place of makensis holds nothing, what is found is what
/// is found without it.
pub proof fn lemma_missing_override_is_ignored(
    configured: Seq<char>,
    existing: Seq<Seq<char>>,
    style: PathStyle,
)
    requires
        !existing.contains(configured),
        !existing.contains(below(configured, "makensis.exe"@, style)),
    ensures
        first_existing(makensis_places(Some(configured), style), existing) == first_existing(
            default_makensis(),
            existing,
        ),
{
    let all = makensis_places(Some(configured), style);
    assert(all.drop_first().drop_first() =~= default_makensis());
    reveal_with_fuel(first_existing, 3);
}

} // verus!
