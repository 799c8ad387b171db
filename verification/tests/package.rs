//! Bundles, manifests, installers and archives.
use perry_ship_windows::package::dlls::{
    can_be_read, copies_dll, is_system_dll, needed_dlls, scan_dlls,
};
use perry_ship_windows::package::manifests::{generate_app_manifest, generate_appx_manifest};
use perry_ship_windows::package::nsis::generate_nsis_script;
use perry_ship_windows::package::portable::{create_portable_zip, goes_into_archive, BundleEntry};
use perry_ship_windows::package::version_info::{
    build_version_node, build_version_string, build_vs_version_info,
};
use perry_ship_windows::package::windows::{
    create_msix_package, create_nsis_installer, create_windows_bundle, finalize_windows_bundle,
    makeappx_outcome, makensis_outcome,
};
use perry_ship_windows::paths::PathStyle;
use perry_ship_windows::process::ToolRun;
use perry_ship_windows::queue::job::BuildManifest;
use std::io::Read;

fn plain(app_name: &str, version: &str) -> BuildManifest {
    BuildManifest {
        app_name: app_name.into(),
        bundle_id: "com.test.app".into(),
        version: version.into(),
        short_version: None,
        entry: "src/main.ts".into(),
        icon: None,
        targets: vec!["windows".into()],
        category: None,
        minimum_os_version: None,
        entitlements: None,
        windows_distribute: None,
        windows_uac_level: None,
        windows_dpi_aware: None,
        windows_file_description: None,
        windows_company_name: None,
        windows_copyright: None,
    }
}

#[test]
fn test_generate_app_manifest() {
    let manifest = BuildManifest {
        app_name: "TestApp".into(),
        bundle_id: "com.test.app".into(),
        version: "1.2.3".into(),
        short_version: None,
        entry: "src/main.ts".into(),
        icon: None,
        targets: vec!["windows".into()],
        category: None,
        minimum_os_version: None,
        entitlements: None,
        windows_distribute: None,
        windows_uac_level: Some("requireAdministrator".into()),
        windows_dpi_aware: None,
        windows_file_description: None,
        windows_company_name: None,
        windows_copyright: None,
    };

    let xml = generate_app_manifest(&manifest);
    assert!(xml.contains("requireAdministrator"));
    assert!(xml.contains("com.test.app"));
    assert!(xml.contains("1.2.3.0"));
    assert!(xml.contains("PerMonitorV2"));
}

#[test]
fn test_nsis_script_generation() {
    let manifest = BuildManifest {
        app_name: "MyApp".into(),
        bundle_id: "com.my.app".into(),
        version: "2.0.0".into(),
        short_version: None,
        entry: "src/main.ts".into(),
        icon: None,
        targets: vec!["windows".into()],
        category: None,
        minimum_os_version: None,
        entitlements: None,
        windows_distribute: Some("installer".into()),
        windows_uac_level: None,
        windows_dpi_aware: None,
        windows_file_description: None,
        windows_company_name: Some("My Company".into()),
        windows_copyright: None,
    };

    let appx = generate_appx_manifest(&manifest);
    assert!(appx.contains("com.my.app"));
    assert!(appx.contains("My Company"));
    assert!(appx.contains("MyApp.exe"));
}

#[test]
fn test_vs_version_info_structure() {
    let manifest = BuildManifest {
        app_name: "TestApp".into(),
        bundle_id: "com.test.app".into(),
        version: "1.2.3".into(),
        short_version: None,
        entry: "src/main.ts".into(),
        icon: None,
        targets: vec!["windows".into()],
        category: None,
        minimum_os_version: None,
        entitlements: None,
        windows_distribute: None,
        windows_uac_level: None,
        windows_dpi_aware: None,
        windows_file_description: Some("Test Application".into()),
        windows_company_name: Some("Test Inc.".into()),
        windows_copyright: Some("Copyright 2025".into()),
    };

    let data = build_vs_version_info(&manifest);

    // Should start with the length field
    assert!(data.len() >= 6);
    let total_len = u16::from_le_bytes([data[0], data[1]]) as usize;
    assert_eq!(total_len, data.len());

    // The VS_FIXEDFILEINFO signature should appear after the key "VS_VERSION_INFO"
    // Find 0xFEEF04BD in the data
    let sig_bytes = 0xFEEF04BDu32.to_le_bytes();
    let sig_pos = data.windows(4).position(|w| w == sig_bytes);
    assert!(sig_pos.is_some(), "VS_FIXEDFILEINFO signature not found");
}

#[test]
fn version_strings_are_laid_out() {
    // length 16, two characters of value with its end, text; key "A" and its
    // end, padded; value "b", padded.
    let entry = build_version_string("A", "b");
    assert_eq!(
        entry,
        vec![16, 0, 2, 0, 1, 0, 65, 0, 0, 0, 0, 0, 98, 0, 0, 0]
    );
    let node = build_version_node("K", &[7, 8, 9], &[1, 2], false);
    assert_eq!(
        node,
        vec![20, 0, 3, 0, 0, 0, 75, 0, 0, 0, 0, 0, 7, 8, 9, 0, 1, 2, 0, 0]
    );
    // Beyond the basic plane a character takes two words.
    let wide = build_version_string("", "😀");
    assert_eq!(
        wide,
        vec![16, 0, 3, 0, 1, 0, 0, 0, 0x3D, 0xD8, 0x00, 0xDE, 0, 0, 0, 0]
    );
}

#[test]
fn version_numbers_stand_in_the_fixed_part() {
    let data = build_vs_version_info(&plain("App", "10.20.30.40"));
    let at = data
        .windows(4)
        .position(|w| w == 0xFEEF04BDu32.to_le_bytes())
        .unwrap();
    let word = |k: usize| {
        u32::from_le_bytes([
            data[at + 4 * k],
            data[at + 4 * k + 1],
            data[at + 4 * k + 2],
            data[at + 4 * k + 3],
        ])
    };
    assert_eq!(word(1), 0x0001_0000);
    assert_eq!(word(2), (10 << 16) | 20);
    assert_eq!(word(3), 30 << 16);
    assert_eq!(word(4), (10 << 16) | 20);
    assert_eq!(word(5), 30 << 16);
    assert_eq!(word(8), 0x0004_0004);
    assert_eq!(word(9), 1);
    // A part that is no 16-bit number falls back.
    let data = build_vs_version_info(&plain("App", "70000.x"));
    let at = data
        .windows(4)
        .position(|w| w == 0xFEEF04BDu32.to_le_bytes())
        .unwrap();
    assert_eq!(&data[at + 8..at + 12], &[0, 0, 1, 0]);
}

#[test]
fn app_manifests_have_defaults_and_are_escaped() {
    let mut m = plain("App", "1.0");
    m.bundle_id = "a&b".into();
    let xml = generate_app_manifest(&m);
    assert!(xml.starts_with("<?xml version=\"1.0\" encoding=\"UTF-8\" standalone=\"yes\"?>\n<assembly "));
    assert!(xml.contains("name=\"a&amp;b\" version=\"1.0.0\" />"));
    assert!(xml.contains("level=\"asInvoker\""));
    assert!(xml.contains(">true/pm</dpiAware>"));
    assert!(xml.contains("{8e0f7a12-bfb3-4fe8-b9a5-48fd50a15a9a}"));
    assert!(xml.ends_with("</assembly>"));
    let appx = generate_appx_manifest(&m);
    assert!(appx.contains("Publisher=\"CN=Unknown\""));
    assert!(appx.contains("<Description>App</Description>"));
    assert!(appx.ends_with("</Package>"));
}

#[test]
fn installers_list_the_files_of_the_bundle() {
    let mut m = plain("My App", "1.0");
    m.windows_company_name = Some("A \"B\" $C".into());
    let files = vec!["My App.exe".into(), "x.dll".into(), "My App.exe.manifest".into()];
    let script = generate_nsis_script(&m, "C:/build/bundle", "C:/build/Setup.exe", &files);
    assert!(script.starts_with(
        "!include \"MUI2.nsh\"\n\nName \"My App\"\nOutFile \"C:\\build\\Setup.exe\"\nInstallDir \"$PROGRAMFILES64\\My App\"\n"
    ));
    assert!(script.contains(
        "  SetOutPath \"$INSTDIR\"\n  File \"C:\\build\\bundle\\My App.exe\"\n  File \"C:\\build\\bundle\\x.dll\"\n\n  ; Create Start Menu shortcut\n"
    ));
    assert!(script.contains(
        "Section \"Uninstall\"\n  Delete \"$INSTDIR\\My App.exe\"\n  Delete \"$INSTDIR\\x.dll\"\n\n  Delete \"$INSTDIR\\Uninstall.exe\"\n"
    ));
    assert!(!script.contains(".exe.manifest"));
    assert!(script.contains("\"Publisher\" \"A $\\\"B$\\\" $$C\"\n"));
    assert!(script.contains("\"UninstallString\" '\"$INSTDIR\\Uninstall.exe\"'\n"));
    assert!(script.ends_with("  DeleteRegKey HKLM \"Software\\My App\"\nSectionEnd\n"));
}

#[test]
fn bundles_are_planned() {
    let m = plain("App", "1.0");
    let plan = create_windows_bundle(&m, Some("App.exe"), "/t/bundle", PathStyle::Posix).unwrap();
    assert_eq!(plan.exe_path, "/t/bundle/App.exe");
    assert_eq!(plan.manifest_path, "/t/bundle/App.exe.manifest");
    assert_eq!(plan.manifest_xml, generate_app_manifest(&m));
    assert_eq!(
        create_windows_bundle(&m, None, "/t/bundle", PathStyle::Posix)
            .err()
            .unwrap(),
        "Invalid binary path"
    );
    let plan = finalize_windows_bundle(&m, "C:\\t\\bundle", PathStyle::Windows);
    assert_eq!(plan.exe_path, "C:\\t\\bundle\\App.exe");
}

#[test]
fn makensis_is_run_on_the_script() {
    let m = plain("App", "1.0");
    let files = vec!["App.exe".to_string()];
    let plan = create_nsis_installer(
        &m,
        "C:\\b",
        "C:\\App-Setup.exe",
        &files,
        Some("C:\\NSIS\\makensis.exe".into()),
        PathStyle::Windows,
    )
    .unwrap();
    assert_eq!(plan.file_path, "C:\\b\\installer.nsi");
    assert_eq!(
        plan.file_text,
        generate_nsis_script(&m, "C:\\b", "C:\\App-Setup.exe", &files)
    );
    assert_eq!(plan.command.program, "C:\\NSIS\\makensis.exe");
    assert_eq!(plan.command.args, vec!["C:\\b\\installer.nsi"]);
    assert_eq!(
        create_nsis_installer(&m, "b", "o", &files, None, PathStyle::Windows)
            .err()
            .unwrap(),
        "makensis.exe not found. Install NSIS or set PERRY_BUILD_NSIS_PATH."
    );
    let exited = |code: Option<i32>| ToolRun::Exited {
        code,
        stdout: "out".into(),
        stderr: "err".into(),
    };
    assert!(makensis_outcome(&exited(Some(0))).is_ok());
    assert_eq!(
        makensis_outcome(&exited(Some(2))).unwrap_err(),
        "makensis failed (exit 2):\nstdout: out\nstderr: err"
    );
    assert_eq!(
        makensis_outcome(&exited(None)).unwrap_err(),
        "makensis failed (exit -1):\nstdout: out\nstderr: err"
    );
    assert_eq!(
        makensis_outcome(&ToolRun::NotRun("gone".into())).unwrap_err(),
        "Failed to run makensis: gone"
    );
}

#[test]
fn makeappx_packs_the_bundle() {
    let m = plain("App", "1.0");
    let plan =
        create_msix_package(&m, "/b", "/App.msix", Some("makeappx".into()), PathStyle::Posix)
            .unwrap();
    assert_eq!(plan.file_path, "/b/AppxManifest.xml");
    assert_eq!(plan.file_text, generate_appx_manifest(&m));
    assert_eq!(plan.command.args, vec!["pack", "/d", "/b", "/p", "/App.msix", "/o"]);
    assert_eq!(
        create_msix_package(&m, "/b", "/o", None, PathStyle::Posix)
            .err()
            .unwrap(),
        "MakeAppx.exe not found. Install Windows SDK."
    );
    let failed = ToolRun::Exited { code: Some(1), stdout: "x".into(), stderr: "bad".into() };
    assert_eq!(makeappx_outcome(&failed).unwrap_err(), "MakeAppx failed (exit 1): bad");
    assert_eq!(
        makeappx_outcome(&ToolRun::NotRun("gone".into())).unwrap_err(),
        "Failed to run MakeAppx: gone"
    );
    assert!(makeappx_outcome(&ToolRun::Exited {
        code: Some(0),
        stdout: "".into(),
        stderr: "".into()
    })
    .is_ok());
}

#[test]
fn system_dlls_are_known_in_any_case() {
    assert!(is_system_dll("kernel32.dll"));
    assert!(is_system_dll("KERNEL32.dll"));
    assert!(is_system_dll("API-MS-Win-Core-File-l1-2-0.dll"));
    assert!(is_system_dll("Normaliz.DLL"));
    assert!(!is_system_dll("kernel32"));
    assert!(!is_system_dll("perry.dll"));
    assert!(!is_system_dll(""));
    // The Kelvin sign has k as its lower case.
    assert!(is_system_dll("\u{212A}ernel32.dll"));
    assert!(!is_system_dll("Ökernel32.dll"));
}

#[test]
fn only_other_dlls_are_needed() {
    let table = Some(vec![
        Some(Some("KERNEL32.dll".to_string())),
        Some(Some("app.dll".to_string())),
        None,
        Some(None),
        Some(Some("api-ms-win-x.dll".to_string())),
        Some(Some("app.dll".to_string())),
    ]);
    assert_eq!(needed_dlls(&table), vec!["app.dll", "", "app.dll"]);
    assert!(needed_dlls(&None).is_empty());
    assert!(copies_dll(true, false));
    assert!(!copies_dll(true, true));
    assert!(!copies_dll(false, false));
}

/// A 64-bit executable with one section, whose import table names two DLLs.
fn executable() -> Vec<u8> {
    executable_with_header_at(0x40)
}

fn executable_with_header_at(header: usize) -> Vec<u8> {
    let mut f = vec![0u8; 0x600];
    let put16 = |f: &mut Vec<u8>, at: usize, v: u16| f[at..at + 2].copy_from_slice(&v.to_le_bytes());
    let put32 = |f: &mut Vec<u8>, at: usize, v: u32| f[at..at + 4].copy_from_slice(&v.to_le_bytes());
    let put64 = |f: &mut Vec<u8>, at: usize, v: u64| f[at..at + 8].copy_from_slice(&v.to_le_bytes());
    f[0] = b'M';
    f[1] = b'Z';
    put32(&mut f, 0x3C, header as u32);
    f[header..header + 4].copy_from_slice(b"PE\0\0");
    put16(&mut f, header + 4, 0x8664); // machine
    put16(&mut f, header + 6, 1); // sections
    put16(&mut f, header + 20, 0xF0); // size of optional header
    put16(&mut f, header + 22, 0x22);
    let opt = header + 24;
    put16(&mut f, opt, 0x20B);
    put32(&mut f, opt + 16, 0x1000); // entry point
    put32(&mut f, opt + 20, 0x1000); // base of code
    put64(&mut f, opt + 24, 0x1_4000_0000); // image base
    put32(&mut f, opt + 32, 0x1000); // section alignment
    put32(&mut f, opt + 36, 0x200); // file alignment
    put32(&mut f, opt + 56, 0x2000); // size of image
    put32(&mut f, opt + 60, 0x200); // size of headers
    put16(&mut f, opt + 68, 3); // subsystem
    put32(&mut f, opt + 108, 16); // data directories
    put32(&mut f, opt + 112 + 8, 0x1000); // import directory
    put32(&mut f, opt + 112 + 12, 60);
    let sec = opt + 0xF0;
    f[sec..sec + 6].copy_from_slice(b".idata");
    put32(&mut f, sec + 8, 0x400); // virtual size
    put32(&mut f, sec + 12, 0x1000); // virtual address
    put32(&mut f, sec + 16, 0x400); // raw size
    put32(&mut f, sec + 20, 0x200); // raw offset
    put32(&mut f, sec + 36, 0x4000_0040);
    // Two descriptors and an empty one.
    for (k, name) in [(0usize, 0x1100u32), (1, 0x1120)] {
        let at = 0x200 + 20 * k;
        put32(&mut f, at, 0x1180);
        put32(&mut f, at + 12, name);
        put32(&mut f, at + 16, 0x1180);
    }
    f[0x300..0x30C].copy_from_slice(b"KERNEL32.dll");
    f[0x320..0x32A].copy_from_slice(b"helper.dll");
    f
}

#[test]
fn imports_are_read_from_an_executable() {
    assert_eq!(scan_dlls(&executable()).unwrap(), vec!["helper.dll"]);
    assert!(scan_dlls(b"no executable").is_err());
}

#[test]
fn what_is_no_executable_is_refused_with_a_reason() {
    assert_eq!(scan_dlls(&[]).unwrap_err(), "bounds check failed");
    assert_eq!(scan_dlls(&vec![0u8; 63]).unwrap_err(), "bounds check failed");
    assert_eq!(scan_dlls(&[0u8; 64]).unwrap_err(), "unknown magic number");
}

#[test]
fn executables_are_read_wherever_they_lie_in_memory() {
    let data = executable();
    let mut buffer = vec![0u8; data.len() + 7];
    for start in 0..8 {
        let end = start + data.len();
        buffer[start..end].copy_from_slice(&data);
        assert_eq!(scan_dlls(&buffer[start..end]).unwrap(), vec!["helper.dll"]);
    }
}

#[test]
fn misaligned_executables_are_refused() {
    let changed = |at: usize, value: u8| {
        let mut f = executable();
        f[at] = value;
        (can_be_read(&f), scan_dlls(&f))
    };
    assert!(can_be_read(&executable()));
    // A header at a multiple of four is read; the parser refuses any other.
    let at_four = executable_with_header_at(0x44);
    assert!(can_be_read(&at_four));
    assert_eq!(scan_dlls(&at_four).unwrap(), vec!["helper.dll"]);
    assert_eq!(changed(0x3C, 0x41), (true, Err("address misaligned".to_string())));
    let mut f = vec![0u8; 256];
    f[0] = b'M';
    f[1] = b'Z';
    f[60] = 68;
    assert!(can_be_read(&f));
    assert_eq!(scan_dlls(&f).unwrap_err(), "unknown magic number");
    // The headers of the sections at no multiple of four.
    assert_eq!(changed(0x54, 0xF2), (false, Err("address misaligned".to_string())));
    // The section of the table in the file otherwise than in memory.
    let section = 0x58 + 0xF0;
    assert_eq!(changed(section + 20, 1), (false, Err("address misaligned".to_string())));
    // It does not matter where there is no table, or where it lies elsewhere.
    let mut without = executable();
    without[section + 20] = 1;
    without[0x58 + 112 + 8 + 1] = 0;
    assert!(can_be_read(&without));
    assert!(scan_dlls(&without).unwrap().is_empty());
    without[0x58 + 112 + 8 + 1] = 0x50;
    assert!(can_be_read(&without));
    assert!(scan_dlls(&without).unwrap().is_empty());
    // What is no executable is left to the parser.
    assert!(can_be_read(b"MZ"));
    assert!(can_be_read(&[7u8; 100]));
    f[60..64].copy_from_slice(&[0xFF; 4]);
    assert!(can_be_read(&f));
    assert_eq!(scan_dlls(&f).unwrap_err(), "address misaligned");
}

#[test]
fn archives_hold_the_files_of_the_bundle() {
    let entry = |name: &str, is_file: bool, data: &[u8]| BundleEntry {
        name: name.into(),
        is_file,
        data: Ok(data.to_vec()),
    };
    let bundle = vec![
        entry("App.exe", true, b"binary"),
        entry("assets", false, b""),
        entry("installer.nsi", true, b"script"),
        entry("App.exe.manifest", true, b"<xml/>"),
        entry("empty.dll", true, b""),
    ];
    let data = create_portable_zip(&bundle).unwrap();
    let mut archive = zip::ZipArchive::new(std::io::Cursor::new(data)).unwrap();
    let mut found = Vec::new();
    for i in 0..archive.len() {
        let mut file = archive.by_index(i).unwrap();
        let mut content = Vec::new();
        file.read_to_end(&mut content).unwrap();
        found.push((file.name().to_string(), content));
    }
    assert_eq!(
        found,
        vec![
            ("App.exe".to_string(), b"binary".to_vec()),
            ("empty.dll".to_string(), Vec::new()),
        ]
    );
    assert!(goes_into_archive("a.dll"));
    assert!(!goes_into_archive("x.nsi"));
    assert!(!goes_into_archive(".exe.manifest"));
}

#[test]
fn archives_need_readable_files_with_different_names() {
    let bundle = vec![
        BundleEntry { name: "skipped.nsi".into(), is_file: true, data: Err("no".into()) },
        BundleEntry { name: "a.dll".into(), is_file: true, data: Err("denied".into()) },
    ];
    assert_eq!(create_portable_zip(&bundle).unwrap_err(), "Failed to read a.dll: denied");
    let bundle = vec![
        BundleEntry { name: "a".into(), is_file: true, data: Ok(vec![1]) },
        BundleEntry { name: "a".into(), is_file: true, data: Ok(vec![2]) },
    ];
    assert_eq!(
        create_portable_zip(&bundle).unwrap_err(),
        "Failed to start zip entry a: invalid Zip archive: Duplicate filename: a"
    );
    // The first file that cannot be packed is the one that is named.
    let bundle = vec![
        BundleEntry { name: "a".into(), is_file: true, data: Ok(vec![1]) },
        BundleEntry { name: "b".into(), is_file: true, data: Err("denied".into()) },
        BundleEntry { name: "a".into(), is_file: true, data: Err("denied".into()) },
    ];
    assert_eq!(create_portable_zip(&bundle).unwrap_err(), "Failed to read b: denied");
    let bundle = vec![
        BundleEntry { name: "a".into(), is_file: true, data: Ok(vec![0; 100_000]) },
        BundleEntry { name: "assets/a".into(), is_file: true, data: Ok(vec![2]) },
    ];
    assert!(create_portable_zip(&bundle).is_ok());
    assert!(create_portable_zip(&vec![]).is_ok());
}
