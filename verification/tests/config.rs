//! Configuration and tools.
use perry_ship_windows::azure::{
    deallocate_self, get_access_token, AzureReply, AzureVmConfig, TokenReply,
};
use perry_ship_windows::config::{
    detect_msvc_version, detect_sdk_version, find_makeappx, find_makensis,
    find_makensis_with_override, find_signtool, makensis_candidates, msvc_versions_dir,
    sdk_tools_dir, sdk_versions_dir, Environment, WorkerConfig,
};
use perry_ship_windows::paths::PathStyle;
use perry_ship_windows::publish::msstore::upload_to_msstore;

fn env(vars: &[(&str, &str)]) -> Environment {
    Environment {
        vars: vars
            .iter()
            .map(|(n, v)| (n.to_string(), v.to_string()))
            .collect(),
    }
}

fn list(names: &[&str]) -> Vec<String> {
    names.iter().map(|n| n.to_string()).collect()
}

#[test]
fn an_empty_environment_gives_the_defaults() {
    let c = WorkerConfig::from_env(&env(&[]), &list(&["14.44"]), &list(&["10.0"]));
    assert_eq!(c.hub_ws_url, "wss://hub.perryts.com/ws");
    assert!(c.hub_secret.is_none());
    assert_eq!(c.perry_binary, "perry");
    assert!(c.worker_name.is_none());
    assert!(c.windows_sdk_path.is_none());
    assert!(c.nsis_path.is_none());
    assert!(!c.docker.enabled);
    assert_eq!(c.docker.image, "mcr.microsoft.com/windows/servercore:ltsc2025");
    assert_eq!(c.docker.isolation, "process");
    assert_eq!(c.docker.perry_tools_path, "C:\\perry-tools");
    assert_eq!(c.docker.msvc_path, "C:\\Program Files (x86)\\Microsoft Visual Studio");
    assert_eq!(c.docker.winkits_path, "C:\\Program Files (x86)\\Windows Kits");
    assert_eq!(c.docker.nsis_path, "C:\\Program Files (x86)\\NSIS");
    assert_eq!(c.docker.timeout_secs, 600);
    // Without isolation no versions are looked for.
    assert!(c.docker.msvc_version.is_none());
    assert!(c.docker.sdk_version.is_none());
}

#[test]
fn the_environment_is_read() {
    let e = env(&[
        ("PERRY_HUB_URL", "ws://localhost"),
        ("PERRY_HUB_WORKER_SECRET", "s"),
        ("PERRY_BUILD_PERRY_BINARY", "C:\\perry.exe"),
        ("PERRY_WORKER_NAME", "w"),
        ("PERRY_BUILD_WINDOWS_SDK_PATH", "D:\\sdk"),
        ("PERRY_BUILD_NSIS_PATH", "D:\\nsis"),
        ("PERRY_DOCKER_ENABLED", "TRUE"),
        ("PERRY_DOCKER_TIMEOUT", "30"),
    ]);
    let c = WorkerConfig::from_env(
        &e,
        &list(&["14.38.1", "14.44.35207", "14.40"]),
        &list(&["10.0.19041.0", "wdf", "10.0.26100.0"]),
    );
    assert_eq!(c.hub_ws_url, "ws://localhost");
    assert_eq!(c.hub_secret.as_deref(), Some("s"));
    assert_eq!(c.perry_binary, "C:\\perry.exe");
    assert_eq!(c.worker_name.as_deref(), Some("w"));
    assert_eq!(c.windows_sdk_path.as_deref(), Some("D:\\sdk"));
    assert_eq!(c.nsis_path.as_deref(), Some("D:\\nsis"));
    assert!(c.docker.enabled);
    assert_eq!(c.docker.timeout_secs, 30);
    assert_eq!(c.docker.msvc_version.as_deref(), Some("14.44.35207"));
    assert_eq!(c.docker.sdk_version.as_deref(), Some("10.0.26100.0"));
}

#[test]
fn isolation_is_switched_on_by_one_or_true() {
    let on = |v: &str| {
        WorkerConfig::from_env(&env(&[("PERRY_DOCKER_ENABLED", v)]), &vec![], &vec![])
            .docker
            .enabled
    };
    assert!(on("1"));
    assert!(on("true"));
    assert!(on("True"));
    assert!(!on("yes"));
    assert!(!on("true "));
    assert!(!on(""));
}

#[test]
fn timeouts_that_are_no_numbers_fall_back() {
    let timeout = |v: &str| {
        WorkerConfig::from_env(&env(&[("PERRY_DOCKER_TIMEOUT", v)]), &vec![], &vec![])
            .docker
            .timeout_secs
    };
    assert_eq!(timeout("0"), 0);
    assert_eq!(timeout("+7"), 7);
    assert_eq!(timeout("-1"), 600);
    assert_eq!(timeout("ten"), 600);
    assert_eq!(timeout(""), 600);
    assert_eq!(timeout("18446744073709551615"), u64::MAX);
    assert_eq!(timeout("18446744073709551616"), 600);
}

#[test]
fn versions_are_looked_for_in_their_directories() {
    let e = env(&[("PERRY_DOCKER_MSVC_PATH", "D:\\vs")]);
    assert_eq!(
        msvc_versions_dir(&e, PathStyle::Windows),
        "D:\\vs\\2022\\BuildTools\\VC\\Tools\\MSVC"
    );
    assert_eq!(
        sdk_versions_dir(&e, PathStyle::Windows),
        "C:\\Program Files (x86)\\Windows Kits\\10\\Lib"
    );
    assert_eq!(detect_msvc_version(&list(&["9", "14"])).as_deref(), Some("14"));
    assert_eq!(
        detect_msvc_version(&list(&["14.9.30133", "14.38.33130", "14.38.9999"])).as_deref(),
        Some("14.38.33130")
    );
    assert_eq!(
        detect_sdk_version(&list(&["10.0.22621.0", "wdf", "10.0.9600.0"])).as_deref(),
        Some("10.0.22621.0")
    );
    assert!(detect_msvc_version(&vec![]).is_none());
    assert!(detect_sdk_version(&list(&["wdf", "11.0"])).is_none());
}

#[test]
fn sdk_tools_come_from_the_latest_version() {
    let versions = list(&["10.0.19041.0", "10.0.22621.0", "10.0.10240.0"]);
    assert_eq!(
        find_signtool(&None, &versions, PathStyle::Windows).unwrap(),
        "C:\\Program Files (x86)\\Windows Kits\\10\\bin\\10.0.22621.0\\x64\\signtool.exe"
    );
    assert_eq!(
        find_makeappx(&Some("D:\\sdk".into()), &versions, PathStyle::Windows).unwrap(),
        "D:\\sdk\\bin\\10.0.22621.0\\x64\\makeappx.exe"
    );
    assert_eq!(
        sdk_tools_dir(&Some("D:\\sdk".into()), PathStyle::Windows),
        "D:\\sdk\\bin"
    );
    assert!(find_signtool(&None, &vec![], PathStyle::Windows).is_none());
    // Numbers of different lengths go by their value.
    assert_eq!(
        find_signtool(&None, &list(&["10.0.9600.0", "10.0.22621.0"]), PathStyle::Windows).unwrap(),
        "C:\\Program Files (x86)\\Windows Kits\\10\\bin\\10.0.22621.0\\x64\\signtool.exe"
    );
}

#[test]
fn makensis_is_looked_for_in_order() {
    let x86 = "C:\\Program Files (x86)\\NSIS\\makensis.exe";
    let x64 = "C:\\Program Files\\NSIS\\makensis.exe";
    let style = PathStyle::Windows;
    assert_eq!(
        makensis_candidates(Some("D:\\n"), style),
        vec!["D:\\n", "D:\\n\\makensis.exe", x86, x64]
    );
    assert_eq!(find_makensis(&list(&[x64, x86]), style).as_deref(), Some(x86));
    assert_eq!(find_makensis(&list(&[x64]), style).as_deref(), Some(x64));
    assert!(find_makensis(&vec![], style).is_none());
    let existing = list(&[x86, "D:\\n\\makensis.exe"]);
    assert_eq!(
        find_makensis_with_override(Some("D:\\n"), &existing, style).as_deref(),
        Some("D:\\n\\makensis.exe")
    );
    // A place that holds nothing is passed over.
    assert_eq!(
        find_makensis_with_override(Some("E:\\n"), &existing, style).as_deref(),
        Some(x86)
    );
    assert_eq!(find_makensis_with_override(None, &existing, style).as_deref(), Some(x86));
}

#[test]
fn azure_needs_the_whole_configuration() {
    let all = [
        ("AZURE_TENANT_ID", "t"),
        ("AZURE_CLIENT_ID", "c"),
        ("AZURE_CLIENT_SECRET", "s"),
        ("AZURE_SUBSCRIPTION_ID", "sub"),
        ("AZURE_VM_RESOURCE_GROUP", "rg"),
        ("AZURE_VM_NAME", "vm"),
    ];
    for k in 0..all.len() {
        let mut some = all.to_vec();
        some.remove(k);
        assert!(AzureVmConfig::from_env(&env(&some)).is_none());
    }
    let c = AzureVmConfig::from_env(&env(&all)).unwrap();
    assert_eq!(c.token_url(), "https://login.microsoftonline.com/t/oauth2/v2.0/token");
    assert_eq!(
        c.deallocate_url(),
        "https://management.azure.com/subscriptions/sub/resourceGroups/rg/providers/Microsoft.Compute/virtualMachines/vm/deallocate?api-version=2024-07-01"
    );
    let form: Vec<(String, String)> = c.token_form();
    assert_eq!(form[0], ("grant_type".into(), "client_credentials".into()));
    assert_eq!(form[1], ("client_id".into(), "c".into()));
    assert_eq!(form[2], ("client_secret".into(), "s".into()));
    assert_eq!(form[3], ("scope".into(), "https://management.azure.com/.default".into()));
    assert_eq!(AzureVmConfig::idle_timeout_mins(&env(&[])), 5);
    assert_eq!(AzureVmConfig::idle_timeout_mins(&env(&[("AZURE_IDLE_TIMEOUT_MINS", "12")])), 12);
    assert_eq!(AzureVmConfig::idle_timeout_mins(&env(&[("AZURE_IDLE_TIMEOUT_MINS", "x")])), 5);
}

#[test]
fn azure_answers() {
    assert_eq!(get_access_token(&TokenReply::Token("tok".into())).unwrap(), "tok");
    assert_eq!(
        get_access_token(&TokenReply::NotSent("e".into())).unwrap_err(),
        "Failed to request Azure token: e"
    );
    assert_eq!(
        get_access_token(&TokenReply::Refused("e".into())).unwrap_err(),
        "Azure token request failed: e"
    );
    assert_eq!(
        get_access_token(&TokenReply::NotUnderstood("e".into())).unwrap_err(),
        "Failed to parse Azure token response: e"
    );
    let answer = |code: u16, status: &str| AzureReply::Answered {
        code,
        status: status.into(),
        body: "b".into(),
    };
    assert!(deallocate_self(&answer(200, "200 OK")).is_ok());
    assert!(deallocate_self(&answer(202, "202 Accepted")).is_ok());
    assert_eq!(
        deallocate_self(&answer(409, "409 Conflict")).unwrap_err(),
        "Azure deallocate failed (409 Conflict): b"
    );
    assert_eq!(
        deallocate_self(&AzureReply::NotSent("e".into())).unwrap_err(),
        "Failed to call Azure deallocate API: e"
    );
}

#[test]
fn the_store_is_not_served_yet() {
    assert_eq!(
        upload_to_msstore("a.msix", "t", "c", "s", "a").err().unwrap(),
        "Microsoft Store submission is not yet implemented"
    );
}

#[test]
fn the_separator_tells_the_rules_of_a_machine() {
    assert_eq!(PathStyle::of_separator('\\'), PathStyle::Windows);
    assert_eq!(PathStyle::of_separator('/'), PathStyle::Posix);
    assert_eq!(PathStyle::host(), PathStyle::of_separator(std::path::MAIN_SEPARATOR));
}
