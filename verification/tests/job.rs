//! Manifests and credentials.
use perry_ship_windows::queue::job::{BuildCredentials, BuildManifest};

fn text(v: &serde_json::Value, name: &str) -> Option<String> {
    v.get(name).and_then(|f| f.as_str()).map(|s| s.to_string())
}

fn credentials(json: &str) -> BuildCredentials {
    let v: serde_json::Value = serde_json::from_str(json).unwrap();
    BuildCredentials {
        windows_pfx_base64: text(&v, "windows_pfx_base64"),
        windows_pfx_password: text(&v, "windows_pfx_password"),
        windows_timestamp_url: text(&v, "windows_timestamp_url"),
        azure_tenant_id: text(&v, "azure_tenant_id"),
        azure_client_id: text(&v, "azure_client_id"),
        azure_client_secret: text(&v, "azure_client_secret"),
        azure_signing_endpoint: text(&v, "azure_signing_endpoint"),
        azure_signing_account: text(&v, "azure_signing_account"),
        azure_signing_profile: text(&v, "azure_signing_profile"),
        gcloud_kms_key: text(&v, "gcloud_kms_key"),
        gcloud_kms_cert_base64: text(&v, "gcloud_kms_cert_base64"),
        gcloud_service_account_base64: text(&v, "gcloud_service_account_base64"),
    }
}

fn manifest(json: &str) -> BuildManifest {
    let v: serde_json::Value = serde_json::from_str(json).unwrap();
    let targets = v
        .get("targets")
        .and_then(|t| t.as_array())
        .unwrap()
        .iter()
        .map(|t| t.as_str().unwrap().to_string())
        .collect();
    BuildManifest {
        app_name: text(&v, "app_name").unwrap(),
        bundle_id: text(&v, "bundle_id").unwrap(),
        version: text(&v, "version").unwrap(),
        short_version: text(&v, "short_version"),
        entry: text(&v, "entry").unwrap(),
        icon: text(&v, "icon"),
        targets,
        category: text(&v, "category"),
        minimum_os_version: text(&v, "minimum_os_version"),
        entitlements: None,
        windows_distribute: text(&v, "windows_distribute"),
        windows_uac_level: text(&v, "windows_uac_level"),
        windows_dpi_aware: text(&v, "windows_dpi_aware"),
        windows_file_description: text(&v, "windows_file_description"),
        windows_company_name: text(&v, "windows_company_name"),
        windows_copyright: text(&v, "windows_copyright"),
    }
}

#[test]
fn test_credentials_minimal() {
    let json = r#"{}"#;
    let creds: BuildCredentials = credentials(json);
    assert!(creds.windows_pfx_base64.is_none());
    assert!(!creds.has_pfx());
    assert!(!creds.has_azure());
    assert_eq!(creds.timestamp_url(), "http://timestamp.digicert.com");
}

#[test]
fn test_credentials_with_pfx() {
    let json = r#"{
        "windows_pfx_base64": "dGVzdA==",
        "windows_pfx_password": "pass123",
        "windows_timestamp_url": "http://timestamp.comodoca.com"
    }"#;
    let creds: BuildCredentials = credentials(json);
    assert!(creds.has_pfx());
    assert!(!creds.has_azure());
    assert_eq!(creds.timestamp_url(), "http://timestamp.comodoca.com");
}

#[test]
fn test_credentials_with_azure() {
    let json = r#"{
        "azure_tenant_id": "tenant",
        "azure_client_id": "client",
        "azure_client_secret": "secret",
        "azure_signing_endpoint": "https://eus.codesigning.azure.net",
        "azure_signing_account": "account",
        "azure_signing_profile": "profile"
    }"#;
    let creds: BuildCredentials = credentials(json);
    assert!(creds.has_azure());
    assert!(!creds.has_pfx());
}

#[test]
fn test_manifest_windows_fields() {
    let json = r#"{
        "app_name": "TestApp",
        "bundle_id": "com.test.app",
        "version": "1.0.0",
        "entry": "src/main.ts",
        "targets": ["windows"],
        "windows_distribute": "installer",
        "windows_uac_level": "asInvoker",
        "windows_company_name": "Test Inc."
    }"#;
    let manifest: BuildManifest = manifest(json);
    assert_eq!(manifest.windows_distribute.as_deref(), Some("installer"));
    assert_eq!(manifest.windows_uac_level.as_deref(), Some("asInvoker"));
    assert_eq!(manifest.windows_company_name.as_deref(), Some("Test Inc."));
}

#[test]
fn test_manifest_defaults() {
    let json = r#"{
        "app_name": "TestApp",
        "bundle_id": "com.test.app",
        "version": "1.0.0",
        "entry": "src/main.ts",
        "targets": ["windows"]
    }"#;
    let manifest: BuildManifest = manifest(json);
    assert!(manifest.windows_distribute.is_none());
    assert!(manifest.windows_uac_level.is_none());
    assert!(manifest.windows_copyright.is_none());
}

#[test]
fn azure_needs_every_field() {
    let json = r#"{
        "azure_tenant_id": "tenant",
        "azure_client_id": "client",
        "azure_client_secret": "secret",
        "azure_signing_endpoint": "https://eus.codesigning.azure.net",
        "azure_signing_account": "account"
    }"#;
    assert!(!credentials(json).has_azure());
}

#[test]
fn kms_needs_every_field() {
    let json = r#"{
        "gcloud_kms_key": "key",
        "gcloud_kms_cert_base64": "Y2VydA==",
        "gcloud_service_account_base64": "e30="
    }"#;
    assert!(credentials(json).has_gcloud_kms());
    assert!(!credentials(r#"{ "gcloud_kms_key": "key" }"#).has_gcloud_kms());
}

#[test]
fn wiping_credentials_leaves_nothing() {
    let json = r#"{
        "windows_pfx_base64": "dGVzdA==",
        "windows_pfx_password": "pass123",
        "azure_client_secret": "secret",
        "gcloud_service_account_base64": "e30="
    }"#;
    let mut creds = credentials(json);
    creds.zeroize();
    assert!(creds.windows_pfx_base64.is_none());
    assert!(creds.windows_pfx_password.is_none());
    assert!(creds.azure_client_secret.is_none());
    assert!(creds.gcloud_service_account_base64.is_none());
    assert!(!creds.has_pfx());
}
