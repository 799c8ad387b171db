//! Validation and escaping of manifest fields.
use perry_ship_windows::build::validate::{
    escape_nsis, escape_xml, validate_app_name, validate_bundle_id, validate_entry,
    validate_entry_for, validate_manifest, validate_manifest_for, validate_relative_path_for,
    validate_reverse_dns, validate_version, validate_version_field,
};
use perry_ship_windows::paths::PathStyle;
use perry_ship_windows::queue::job::BuildManifest;

fn manifest() -> BuildManifest {
    BuildManifest {
        app_name: "TestApp".into(),
        bundle_id: "com.test.app".into(),
        version: "1.2.3".into(),
        short_version: None,
        entry: "src/main.ts".into(),
        icon: None,
        targets: vec!["windows".into()],
        category: None,
        minimum_os_version: None,
        entitlements: None,
        windows_distribute: None,
        windows_uac_level: None,
        windows_dpi_aware: None,
        windows_file_description: None,
        windows_company_name: None,
        windows_copyright: None,
    }
}

#[test]
fn test_valid_app_name() {
    assert!(validate_app_name("MyApp").is_ok());
    assert!(validate_app_name("My App").is_ok());
}

#[test]
fn test_invalid_app_name() {
    assert!(validate_app_name("").is_err());
    assert!(validate_app_name("../evil").is_err());
    assert!(validate_app_name("my/app").is_err());
}

#[test]
fn test_entry_path_traversal() {
    assert!(validate_entry("src/main.ts").is_ok());
    assert!(validate_entry("../../etc/passwd").is_err());
    assert!(validate_entry("/absolute/path.ts").is_err());
}

#[test]
fn test_escape_xml() {
    assert_eq!(escape_xml("a < b"), "a &lt; b");
}

#[test]
fn app_name_messages() {
    assert_eq!(validate_app_name("").unwrap_err(), "app_name cannot be empty");
    assert!(validate_app_name(&"a".repeat(200)).is_ok());
    assert_eq!(
        validate_app_name(&"a".repeat(201)).unwrap_err(),
        "app_name is too long (max 200 characters)"
    );
    assert_eq!(
        validate_app_name("a.b").unwrap_err(),
        "app_name contains invalid characters (only alphanumeric, space, hyphen, underscore allowed): a.b"
    );
    // Letters and numbers beyond ASCII count, and the length is in bytes.
    assert!(validate_app_name("Größe_2-中").is_ok());
    assert!(validate_app_name(&"é".repeat(100)).is_ok());
    assert!(validate_app_name(&"é".repeat(101)).is_err());
    assert!(validate_app_name("☃").is_err());
}

#[test]
fn other_field_messages() {
    assert_eq!(validate_bundle_id("").unwrap_err(), "bundle_id cannot be empty");
    assert_eq!(
        validate_bundle_id("com test").unwrap_err(),
        "bundle_id contains invalid characters (only alphanumeric, dot, hyphen, underscore allowed): com test"
    );
    assert_eq!(validate_version("").unwrap_err(), "version cannot be empty");
    assert_eq!(
        validate_version("1.0-rc").unwrap_err(),
        "version must contain only digits and dots, got: 1.0-rc"
    );
    assert_eq!(
        validate_version_field("x", "short_version").unwrap_err(),
        "short_version must contain only digits and dots, got: x"
    );
    assert!(validate_version_field("", "short_version").is_ok());
    assert_eq!(validate_entry("").unwrap_err(), "entry cannot be empty");
    assert_eq!(
        validate_reverse_dns("a b", "category").unwrap_err(),
        "category contains invalid characters: a b"
    );
}

#[test]
fn relative_paths_by_style() {
    let posix = PathStyle::Posix;
    let windows = PathStyle::Windows;
    assert_eq!(
        validate_relative_path_for("/x", "icon", posix).unwrap_err(),
        "icon must be a relative path, got: /x"
    );
    assert_eq!(
        validate_relative_path_for("a/../b", "icon", posix).unwrap_err(),
        "icon contains path traversal (..): a/../b"
    );
    assert!(validate_relative_path_for("a..b/...", "icon", posix).is_ok());
    assert!(validate_relative_path_for("a\\..\\b", "icon", posix).is_ok());
    assert!(validate_relative_path_for("a\\..\\b", "icon", windows).is_err());
    assert!(validate_relative_path_for("C:\\x", "icon", windows).is_err());
    assert!(validate_relative_path_for("C:\\x", "icon", posix).is_ok());
    assert!(validate_entry_for("src/main.ts", windows).is_ok());
}

#[test]
fn manifests_fail_at_the_first_bad_field() {
    assert!(validate_manifest(&manifest()).is_ok());
    let mut m = manifest();
    m.version = "x".into();
    m.bundle_id = "".into();
    assert_eq!(validate_manifest(&m).unwrap_err(), "bundle_id cannot be empty");
    let mut m = manifest();
    m.icon = Some("../icon.png".into());
    m.category = Some("!".into());
    assert_eq!(
        validate_manifest_for(&m, PathStyle::Posix).unwrap_err(),
        "icon contains path traversal (..): ../icon.png"
    );
    let mut m = manifest();
    m.minimum_os_version = Some("ten".into());
    assert_eq!(
        validate_manifest(&m).unwrap_err(),
        "minimum_os_version must contain only digits and dots, got: ten"
    );
    let mut m = manifest();
    m.category = Some("a/b".into());
    assert_eq!(
        validate_manifest(&m).unwrap_err(),
        "category contains invalid characters: a/b"
    );
    let mut m = manifest();
    m.short_version = Some("v1".into());
    assert!(validate_manifest(&m).is_err());
}

#[test]
fn escaping_all_special_characters() {
    assert_eq!(escape_xml("&<>\"'x"), "&amp;&lt;&gt;&quot;&apos;x");
    assert_eq!(escape_xml("&lt;"), "&amp;lt;");
    assert_eq!(escape_nsis("a$b\"c\r\nd"), "a$$b$\\\"cd");
    assert_eq!(escape_nsis("plain"), "plain");
}

#[test]
fn escaping_is_undone_by_reading() {
    let read = |s: &str| {
        s.replace("&lt;", "<")
            .replace("&gt;", ">")
            .replace("&quot;", "\"")
            .replace("&apos;", "'")
            .replace("&amp;", "&")
    };
    for text in ["a < b", "&lt;", "'\"'", "&&amp;&", ""] {
        let escaped = escape_xml(text);
        assert_eq!(read(&escaped), text);
        assert!(!escaped.contains('<') && !escaped.contains('"'));
    }
    let read = |s: &str| s.replace("$\\\"", "\"").replace("$$", "$");
    for text in ["$x", "say \"hi\"", "a$\"b"] {
        assert_eq!(read(&escape_nsis(text)), text);
    }
}
