//! What the environment of the worker means to it: which variable sets what.
use crate::azure::{deallocate_self, get_access_token, AzureReply, AzureVmConfig, TokenReply};
use crate::config::{
    detect_msvc_version, detect_sdk_version, find_makeappx, find_makensis_with_override,
    find_signtool, makensis_places, msvc_versions_dir, sdk_versions, sdk_versions_dir, value_of,
    Environment, WorkerConfig,
};
use crate::paths::{below, find_existing, first_existing, PathStyle};
use crate::process::text_pairs;
use crate::text::{begins_with, texts};
use crate::version::is_older;
use crate::worker::messages::{worker_hello, Outgoing, OutgoingView};
use vstd::prelude::*;

verus! {

/// Whether a variable has a value: that of the first entry under its name.
pub open spec fn is_set(env: Environment, name: Seq<char>, value: Seq<char>) -> bool {
    exists|i: int| is_first(env, name, i) && (#[trigger] env.vars@[i]).1@ == value
}

/// Whether an entry is the first under a name.
pub open spec fn is_first(env: Environment, name: Seq<char>, i: int) -> bool {
    &&& 0 <= i < env.vars@.len()
    &&& env.vars@[i].0@ == name
    &&& forall|j: int| 0 <= j < i ==> (#[trigger] env.vars@[j]).0@ != name
}

/// Whether there is no variable of that name.
pub open spec fn is_unset(env: Environment, name: Seq<char>) -> bool {
    forall|i: int| 0 <= i < env.vars@.len() ==> (#[trigger] env.vars@[i]).0@ != name
}

/// The text is the value of a variable, or a default where it is not set.
pub open spec fn comes_from(
    text: Seq<char>,
    env: Environment,
    name: Seq<char>,
    default: Seq<char>,
) -> bool {
    is_set(env, name, text) || (is_unset(env, name) && text == default)
}

/// The optional text is the value of a variable, and none where it is not set.
pub open spec fn mirrors(text: Option<String>, env: Environment, name: Seq<char>) -> bool {
    match text {
        Some(t) => is_set(env, name, t@),
        None => is_unset(env, name),
    }
}

/// A variable is set to the value that is found for it.
proof fn lemma_value(env: Environment, name: Seq<char>, from: int)
    requires
        0 <= from <= env.vars@.len(),
        forall|j: int| 0 <= j < from ==> (#[trigger] env.vars@[j]).0@ != name,
    ensures
        match value_of(text_pairs(env.vars@).skip(from), name) {
            Some(v) => is_set(env, name, v),
            None => is_unset(env, name),
        },
    decreases env.vars@.len() - from,
{
    let all = text_pairs(env.vars@);
    let rest = all.skip(from);
    if from < env.vars@.len() {
        assert(rest[0] == all[from]);
        assert(all[from].0 == env.vars@[from].0@);
        if env.vars@[from].0@ == name {
            assert(is_first(env, name, from));
        } else {
            assert(rest.drop_first() =~= all.skip(from + 1));
            lemma_value(env, name, from + 1);
        }
    }
}

proof fn lemma_found(env: Environment, name: Seq<char>)
    ensures
        match env.value(name) {
            Some(v) => is_set(env, name, v),
            None => is_unset(env, name),
        },
{
    lemma_value(env, name, 0);
    assert(text_pairs(env.vars@).skip(0) =~= text_pairs(env.vars@));
}

/// Each setting of the worker is the value of its variable; one that is not set
/// has its default, if it has one.
pub proof fn lemma_settings_come_from_their_variables(
    env: &Environment,
    msvc_dirs: &Vec<String>,
    sdk_dirs: &Vec<String>,
    c: WorkerConfig,
)
    requires
        call_ensures(WorkerConfig::from_env, (env, msvc_dirs, sdk_dirs), c),
    ensures
        comes_from(c.hub_ws_url@, *env, "PERRY_HUB_URL"@, "wss://hub.perryts.com/ws"@),
        mirrors(c.hub_secret, *env, "PERRY_HUB_WORKER_SECRET"@),
        comes_from(c.perry_binary@, *env, "PERRY_BUILD_PERRY_BINARY"@, "perry"@),
        mirrors(c.worker_name, *env, "PERRY_WORKER_NAME"@),
        mirrors(c.windows_sdk_path, *env, "PERRY_BUILD_WINDOWS_SDK_PATH"@),
        mirrors(c.nsis_path, *env, "PERRY_BUILD_NSIS_PATH"@),
{
    lemma_found(*env, "PERRY_HUB_URL"@);
    lemma_found(*env, "PERRY_HUB_WORKER_SECRET"@);
    lemma_found(*env, "PERRY_BUILD_PERRY_BINARY"@);
    lemma_found(*env, "PERRY_WORKER_NAME"@);
    lemma_found(*env, "PERRY_BUILD_WINDOWS_SDK_PATH"@);
    lemma_found(*env, "PERRY_BUILD_NSIS_PATH"@);
}

/// Each setting of build isolation is the value of its variable; one that is not
/// set has its default. Versions of the toolchain and of the SDK are looked for
/// only where isolation is on.
pub proof fn lemma_isolation_comes_from_its_variables(
    env: &Environment,
    msvc_dirs: &Vec<String>,
    sdk_dirs: &Vec<String>,
    c: WorkerConfig,
)
    requires
        call_ensures(WorkerConfig::from_env, (env, msvc_dirs, sdk_dirs), c),
    ensures
        comes_from(
            c.docker.image@,
            *env,
            "PERRY_DOCKER_IMAGE"@,
            "mcr.microsoft.com/windows/servercore:ltsc2025"@,
        ),
        comes_from(c.docker.isolation@, *env, "PERRY_DOCKER_ISOLATION"@, "process"@),
        comes_from(
            c.docker.perry_tools_path@,
            *env,
            "PERRY_DOCKER_PERRY_TOOLS"@,
            r"C:\perry-tools"@,
        ),
        comes_from(
            c.docker.msvc_path@,
            *env,
            "PERRY_DOCKER_MSVC_PATH"@,
            r"C:\Program Files (x86)\Microsoft Visual Studio"@,
        ),
        comes_from(
            c.docker.winkits_path@,
            *env,
            "PERRY_DOCKER_WINKITS_PATH"@,
            r"C:\Program Files (x86)\Windows Kits"@,
        ),
        comes_from(
            c.docker.nsis_path@,
            *env,
            "PERRY_DOCKER_NSIS_PATH"@,
            r"C:\Program Files (x86)\NSIS"@,
        ),
        is_unset(*env, "PERRY_DOCKER_TIMEOUT"@) ==> c.docker.timeout_secs == 600,
        is_unset(*env, "PERRY_DOCKER_ENABLED"@) ==> !c.docker.enabled,
        c.docker.msvc_version is Some ==> c.docker.enabled,
        c.docker.sdk_version is Some ==> c.docker.enabled,
        c.docker.enabled && msvc_dirs@.len() > 0 ==> (c.docker.msvc_version matches Some(v)
            && texts(msvc_dirs@).contains(v@)),
{
    lemma_found(*env, "PERRY_DOCKER_IMAGE"@);
    lemma_found(*env, "PERRY_DOCKER_ISOLATION"@);
    lemma_found(*env, "PERRY_DOCKER_PERRY_TOOLS"@);
    lemma_found(*env, "PERRY_DOCKER_MSVC_PATH"@);
    lemma_found(*env, "PERRY_DOCKER_WINKITS_PATH"@);
    lemma_found(*env, "PERRY_DOCKER_NSIS_PATH"@);
    lemma_found(*env, "PERRY_DOCKER_TIMEOUT"@);
    lemma_found(*env, "PERRY_DOCKER_ENABLED"@);
}

/// Versions are looked for where the toolchain and the SDK are that the steps
/// of builds are shown.
pub proof fn lemma_versions_are_those_of_the_configured_tools(
    env: &Environment,
    msvc_dirs: &Vec<String>,
    sdk_dirs: &Vec<String>,
    style: PathStyle,
    c: WorkerConfig,
    msvc: String,
    sdk: String,
)
    requires
        call_ensures(WorkerConfig::from_env, (env, msvc_dirs, sdk_dirs), c),
        call_ensures(msvc_versions_dir, (env, style), msvc),
        call_ensures(sdk_versions_dir, (env, style), sdk),
    ensures
        msvc@ == below(
            below(
                below(below(below(c.docker.msvc_path@, "2022"@, style), "BuildTools"@, style), "VC"@, style),
                "Tools"@,
                style,
            ),
            "MSVC"@,
            style,
        ),
        sdk@ == below(below(c.docker.winkits_path@, "10"@, style), "Lib"@, style),
{
}

/// The tools for signing and for packing stand side by side, where the SDK has
/// its latest version of them.
pub proof fn lemma_tools_of_a_version_stand_together(
    sdk_path: &Option<String>,
    versions: &Vec<String>,
    style: PathStyle,
    signtool: Option<String>,
    makeappx: Option<String>,
)
    requires
        call_ensures(find_signtool, (sdk_path, versions, style), signtool),
        call_ensures(find_makeappx, (sdk_path, versions, style), makeappx),
    ensures
        signtool is Some <==> versions@.len() > 0,
        makeappx is Some <==> versions@.len() > 0,
        signtool matches Some(tool) ==> exists|v: Seq<char>|
            #![trigger texts(versions@).contains(v)]
            texts(versions@).contains(v) && tool@ == below(
                below(
                    below(
                        match *sdk_path {
                            Some(p) => below(p@, "bin"@, style),
                            None => r"C:\Program Files (x86)\Windows Kits\10\bin"@,
                        },
                        v,
                        style,
                    ),
                    "x64"@,
                    style,
                ),
                "signtool.exe"@,
                style,
            ),
        makeappx matches Some(tool) ==> exists|v: Seq<char>|
            #![trigger texts(versions@).contains(v)]
            texts(versions@).contains(v) && tool@ == below(
                below(
                    below(
                        match *sdk_path {
                            Some(p) => below(p@, "bin"@, style),
                            None => r"C:\Program Files (x86)\Windows Kits\10\bin"@,
                        },
                        v,
                        style,
                    ),
                    "x64"@,
                    style,
                ),
                "makeappx.exe"@,
                style,
            ),
{
    assert(texts(versions@).len() == versions@.len());
}

// ---------------------------------------------------------------------------
// Versions and places
// ---------------------------------------------------------------------------

proof fn lemma_sdk_versions(names: Seq<Seq<char>>)
    ensures
        forall|v: Seq<char>|
            #[trigger] sdk_versions(names).contains(v) <==> names.contains(v) && begins_with(
                v,
                "10."@,
            ),
    decreases names.len(),
{
    if names.len() > 0 {
        let rest = names.drop_last();
        let last = names.last();
        lemma_sdk_versions(rest);
        assert(names =~= rest.push(last));
        assert forall|v: Seq<char>| #[trigger] sdk_versions(names).contains(v) <==> names.contains(v)
            && begins_with(v, "10."@) by {
            assert(names.contains(v) <==> rest.contains(v) || v == last) by {
                vstd::seq_lib::lemma_seq_contains_after_push(rest, last, v);
            }
            vstd::seq_lib::lemma_seq_contains_after_push(sdk_versions(rest), last, v);
        }
    }
}

/// Of the directories that hold the toolchain the newest one is taken, and of
/// those that hold the SDK the newest one whose name begins with the number of
/// its generation. There is none only where there is nothing to choose from.
pub proof fn lemma_the_newest_version_is_taken(
    msvc_dirs: &Vec<String>,
    sdk_dirs: &Vec<String>,
    msvc: Option<String>,
    sdk: Option<String>,
)
    requires
        call_ensures(detect_msvc_version, (msvc_dirs,), msvc),
        call_ensures(detect_sdk_version, (sdk_dirs,), sdk),
    ensures
        msvc is None <==> msvc_dirs@.len() == 0,
        msvc matches Some(v) ==> texts(msvc_dirs@).contains(v@) && forall|w: Seq<char>|
            #[trigger] texts(msvc_dirs@).contains(w) ==> !is_older(v@, w),
        sdk is None <==> forall|w: Seq<char>|
            #[trigger] texts(sdk_dirs@).contains(w) ==> !begins_with(w, "10."@),
        sdk matches Some(v) ==> texts(sdk_dirs@).contains(v@) && begins_with(v@, "10."@)
            && forall|w: Seq<char>| #[trigger]
            texts(sdk_dirs@).contains(w) && begins_with(w, "10."@) ==> !is_older(v@, w),
{
    assert(texts(msvc_dirs@).len() == msvc_dirs@.len());
    let found = sdk_versions(texts(sdk_dirs@));
    lemma_sdk_versions(texts(sdk_dirs@));
    if let Some(v) = msvc {
        let list = texts(msvc_dirs@);
        assert forall|w: Seq<char>| #[trigger] list.contains(w) implies !is_older(v@, w) by {
            let k = choose|k: int| 0 <= k < list.len() && list[k] == w;
            assert(!is_older(v@, list[k]));
        }
    }
    if let Some(v) = sdk {
        assert(found.contains(v@));
        assert forall|w: Seq<char>| #[trigger]
            texts(sdk_dirs@).contains(w) && begins_with(w, "10."@) implies !is_older(v@, w) by {
            assert(found.contains(w));
            let k = choose|k: int| 0 <= k < found.len() && found[k] == w;
            assert(!is_older(v@, found[k]));
        }
    } else {
        assert forall|w: Seq<char>| #[trigger] texts(sdk_dirs@).contains(w) implies !begins_with(
            w,
            "10."@,
        ) by {
            if begins_with(w, "10."@) {
                assert(found.contains(w));
            }
        }
    }
}

/// Whether a path is the first of the candidates that exists.
pub open spec fn is_first_of(
    path: Seq<char>,
    candidates: Seq<Seq<char>>,
    existing: Seq<Seq<char>>,
) -> bool {
    exists|k: int| is_first_at(path, candidates, existing, k)
}

/// Whether a path is the first of the candidates that exists, at a place.
pub open spec fn is_first_at(
    path: Seq<char>,
    candidates: Seq<Seq<char>>,
    existing: Seq<Seq<char>>,
    k: int,
) -> bool {
    &&& 0 <= k < candidates.len()
    &&& path == candidates[k]
    &&& existing.contains(path)
    &&& forall|j: int| 0 <= j < k ==> !existing.contains(#[trigger] candidates[j])
}

pub(crate) proof fn lemma_first_existing(candidates: Seq<Seq<char>>, existing: Seq<Seq<char>>)
    ensures
        match first_existing(candidates, existing) {
            Some(path) => is_first_of(path, candidates, existing),
            None => forall|j: int|
                0 <= j < candidates.len() ==> !existing.contains(#[trigger] candidates[j]),
        },
    decreases candidates.len(),
{
    if candidates.len() > 0 {
        let rest = candidates.drop_first();
        if existing.contains(candidates[0]) {
            assert(is_first_at(candidates[0], candidates, existing, 0));
        } else {
            lemma_first_existing(rest, existing);
            match first_existing(rest, existing) {
                Some(path) => {
                    let k = choose|k: int| is_first_at(path, rest, existing, k);
                    assert(candidates[k + 1] == rest[k]);
                    assert forall|j: int| 0 <= j < k + 1 implies !existing.contains(
                        #[trigger] candidates[j],
                    ) by {
                        if j > 0 {
                            assert(candidates[j] == rest[j - 1]);
                        }
                    }
                    assert(is_first_at(path, candidates, existing, k + 1));
                },
                None => {
                    assert forall|j: int| 0 <= j < candidates.len() implies !existing.contains(
                        #[trigger] candidates[j],
                    ) by {
                        if j > 0 {
                            assert(candidates[j] == rest[j - 1]);
                        }
                    }
                },
            }
        }
    }
}

/// Of the candidates the first one that exists is found, and none only if none
/// exists.
pub proof fn lemma_the_first_that_exists_is_found(
    candidates: &Vec<String>,
    existing: &Vec<String>,
    r: Option<String>,
)
    requires
        call_ensures(find_existing, (candidates, existing), r),
    ensures
        match r {
            Some(path) => is_first_of(path@, texts(candidates@), texts(existing@)),
            None => forall|j: int|
                0 <= j < candidates@.len() ==> !texts(existing@).contains(
                    #[trigger] texts(candidates@)[j],
                ),
        },
{
    lemma_first_existing(texts(candidates@), texts(existing@));
    assert(texts(candidates@).len() == candidates@.len());
}

/// makensis is looked for where it is configured, as the file or in the
/// directory, and then where NSIS is installed by default, the one for 32 bits
/// first; the first place that holds it counts.
pub proof fn lemma_makensis_is_looked_for_in_order(
    configured: Option<&str>,
    existing: &Vec<String>,
    style: PathStyle,
    r: Option<String>,
)
    requires
        call_ensures(find_makensis_with_override, (configured, existing, style), r),
    ensures
        ({
            let defaults = seq![
                r"C:\Program Files (x86)\NSIS\makensis.exe"@,
                r"C:\Program Files\NSIS\makensis.exe"@,
            ];
            let places = match configured {
                Some(p) => seq![p@, below(p@, "makensis.exe"@, style)] + defaults,
                None => defaults,
            };
            match r {
                Some(path) => is_first_of(path@, places, texts(existing@)),
                None => forall|j: int|
                    0 <= j < places.len() ==> !texts(existing@).contains(#[trigger] places[j]),
            }
        }),
{
    let c = match configured {
        Some(p) => Some(p@),
        None => None,
    };
    lemma_first_existing(makensis_places(c, style), texts(existing@));
}

// ---------------------------------------------------------------------------
// Azure
// ---------------------------------------------------------------------------

/// Each part of the configuration for Azure is the value of its variable, and
/// there is a configuration exactly where all of them are set.
pub proof fn lemma_azure_comes_from_its_variables(env: &Environment, r: Option<AzureVmConfig>)
    requires
        call_ensures(AzureVmConfig::from_env, (env,), r),
    ensures
        match r {
            Some(c) => {
                &&& is_set(*env, "AZURE_TENANT_ID"@, c.tenant_id@)
                &&& is_set(*env, "AZURE_CLIENT_ID"@, c.client_id@)
                &&& is_set(*env, "AZURE_CLIENT_SECRET"@, c.client_secret@)
                &&& is_set(*env, "AZURE_SUBSCRIPTION_ID"@, c.subscription_id@)
                &&& is_set(*env, "AZURE_VM_RESOURCE_GROUP"@, c.resource_group@)
                &&& is_set(*env, "AZURE_VM_NAME"@, c.vm_name@)
            },
            None => {
                ||| is_unset(*env, "AZURE_TENANT_ID"@)
                ||| is_unset(*env, "AZURE_CLIENT_ID"@)
                ||| is_unset(*env, "AZURE_CLIENT_SECRET"@)
                ||| is_unset(*env, "AZURE_SUBSCRIPTION_ID"@)
                ||| is_unset(*env, "AZURE_VM_RESOURCE_GROUP"@)
                ||| is_unset(*env, "AZURE_VM_NAME"@)
            },
        },
{
    lemma_found(*env, "AZURE_TENANT_ID"@);
    lemma_found(*env, "AZURE_CLIENT_ID"@);
    lemma_found(*env, "AZURE_CLIENT_SECRET"@);
    lemma_found(*env, "AZURE_SUBSCRIPTION_ID"@);
    lemma_found(*env, "AZURE_VM_RESOURCE_GROUP"@);
    lemma_found(*env, "AZURE_VM_NAME"@);
}

/// The tenant is asked for a token for the management of Azure, with the secret
/// of the client, and the machine that is deallocated is the configured one.
pub proof fn lemma_azure_requests_name_the_configuration(
    c: &AzureVmConfig,
    token_url: String,
    form: Vec<(String, String)>,
    url: String,
)
    requires
        call_ensures(AzureVmConfig::token_url, (c,), token_url),
        call_ensures(AzureVmConfig::token_form, (c,), form),
        call_ensures(AzureVmConfig::deallocate_url, (c,), url),
    ensures
        token_url@ == "https://login.microsoftonline.com/"@ + c.tenant_id@ + "/oauth2/v2.0/token"@,
        text_pairs(form@).contains(("client_id"@, c.client_id@)),
        text_pairs(form@).contains(("client_secret"@, c.client_secret@)),
        text_pairs(form@).contains(("grant_type"@, "client_credentials"@)),
        text_pairs(form@).contains(("scope"@, "https://management.azure.com/.default"@)),
        url@ == "https://management.azure.com/subscriptions/"@ + c.subscription_id@
            + "/resourceGroups/"@ + c.resource_group@
            + "/providers/Microsoft.Compute/virtualMachines/"@ + c.vm_name@
            + "/deallocate?api-version=2024-07-01"@,
{
    let pairs = text_pairs(form@);
    assert(pairs[0] == ("grant_type"@, "client_credentials"@));
    assert(pairs[1] == ("client_id"@, c.client_id@));
    assert(pairs[2] == ("client_secret"@, c.client_secret@));
    assert(pairs[3] == ("scope"@, "https://management.azure.com/.default"@));
}

/// Deallocating succeeds exactly where Azure answers with a code from 200 to
/// 299, and a refusal is passed on with its status and its text.
pub proof fn lemma_deallocating_goes_by_the_status(reply: &AzureReply, r: Result<(), String>)
    requires
        call_ensures(deallocate_self, (reply,), r),
    ensures
        r is Ok <==> (*reply matches AzureReply::Answered { code, .. } && 200 <= code <= 299),
        r matches Err(e) ==> match *reply {
            AzureReply::Answered { status, body, .. } => e@ == "Azure deallocate failed ("@
                + status@ + "): "@ + body@,
            AzureReply::NotSent(reason) => e@ == "Failed to call Azure deallocate API: "@
                + reason@,
        },
{
}

/// A token is taken as it is given, and there is none unless it was given.
pub proof fn lemma_tokens_are_taken_as_given(reply: &TokenReply, r: Result<String, String>)
    requires
        call_ensures(get_access_token, (reply,), r),
    ensures
        match r {
            Ok(token) => *reply matches TokenReply::Token(given) && given@ == token@,
            Err(_) => !(*reply is Token),
        },
{
}

// ---------------------------------------------------------------------------
// The hub
// ---------------------------------------------------------------------------

/// The worker introduces itself with the configured name and secret; without a
/// name with that of the machine. It offers to build for Windows, and tells the
/// version of its compiler.
pub proof fn lemma_the_worker_introduces_itself(
    env: &Environment,
    msvc_dirs: &Vec<String>,
    sdk_dirs: &Vec<String>,
    c: WorkerConfig,
    hostname: &Option<String>,
    perry_version: Option<String>,
    hello: Outgoing,
)
    requires
        call_ensures(WorkerConfig::from_env, (env, msvc_dirs, sdk_dirs), c),
        call_ensures(worker_hello, (&c, hostname, perry_version), hello),
    ensures
        hello@ matches OutgoingView::Hello { capabilities, name, secret, perry_version: version }
            && capabilities == seq!["windows"@] && (is_set(*env, "PERRY_WORKER_NAME"@, name) || (
        is_unset(*env, "PERRY_WORKER_NAME"@) && name == match *hostname {
            Some(host) => host@,
            None => "worker"@,
        })) && (match secret {
            Some(s) => is_set(*env, "PERRY_HUB_WORKER_SECRET"@, s),
            None => is_unset(*env, "PERRY_HUB_WORKER_SECRET"@),
        }) && version == (match perry_version {
            Some(v) => Some(v@),
            None => None,
        }),
{
    lemma_found(*env, "PERRY_WORKER_NAME"@);
    lemma_found(*env, "PERRY_HUB_WORKER_SECRET"@);
}

} // verus!
