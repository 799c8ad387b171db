//! Build job types: the manifest of an application and the credentials for
//! signing it.
use crate::text::{opt_text, text_or};
use vstd::prelude::*;
use zeroize::Zeroize;

verus! {

/// What is to be built.
#[derive(Debug, Clone)]
pub struct BuildManifest {
    pub app_name: String,
    pub bundle_id: String,
    pub version: String,
    pub short_version: Option<String>,
    pub entry: String,
    pub icon: Option<String>,
    pub targets: Vec<String>,
    pub category: Option<String>,
    pub minimum_os_version: Option<String>,
    pub entitlements: Option<Vec<String>>,
    pub windows_distribute: Option<String>,
    pub windows_uac_level: Option<String>,
    pub windows_dpi_aware: Option<String>,
    pub windows_file_description: Option<String>,
    pub windows_company_name: Option<String>,
    pub windows_copyright: Option<String>,
}

/// The secrets for signing: a PFX certificate, Azure Trusted Signing, or a key
/// in Google Cloud KMS.
#[derive(Debug)]
pub struct BuildCredentials {
    pub windows_pfx_base64: Option<String>,
    pub windows_pfx_password: Option<String>,
    pub windows_timestamp_url: Option<String>,
    pub azure_tenant_id: Option<String>,
    pub azure_client_id: Option<String>,
    pub azure_client_secret: Option<String>,
    pub azure_signing_endpoint: Option<String>,
    pub azure_signing_account: Option<String>,
    pub azure_signing_profile: Option<String>,
    pub gcloud_kms_key: Option<String>,
    pub gcloud_kms_cert_base64: Option<String>,
    pub gcloud_service_account_base64: Option<String>,
}

/// `Zeroize::zeroize` on an optional string overwrites its characters with
/// zeroes and leaves `None`.
#[verifier::external_body]
fn zeroize_text(secret: &mut Option<String>)
    ensures
        *final(secret) is None,
{
    secret.zeroize()
}

impl BuildCredentials {
    /// Whether a certificate is given.
    pub open spec fn spec_has_pfx(&self) -> bool {
        self.windows_pfx_base64 is Some
    }

    /// Whether all that Azure Trusted Signing asks for is given.
    pub open spec fn spec_has_azure(&self) -> bool {
        &&& self.azure_tenant_id is Some
        &&& self.azure_client_id is Some
        &&& self.azure_client_secret is Some
        &&& self.azure_signing_endpoint is Some
        &&& self.azure_signing_account is Some
        &&& self.azure_signing_profile is Some
    }

    /// Whether all that a key in Google Cloud KMS asks for is given.
    pub open spec fn spec_has_gcloud_kms(&self) -> bool {
        &&& self.gcloud_kms_key is Some
        &&& self.gcloud_kms_cert_base64 is Some
        &&& self.gcloud_service_account_base64 is Some
    }

    /// The timestamp server to use.
    pub open spec fn spec_timestamp_url(&self) -> Seq<char> {
        match opt_text(self.windows_timestamp_url) {
            Some(url) => url,
            None => "http://timestamp.digicert.com"@,
        }
    }

    /// Whether no field holds anything.
    pub open spec fn is_empty(&self) -> bool {
        &&& self.windows_pfx_base64 is None
        &&& self.windows_pfx_password is None
        &&& self.windows_timestamp_url is None
        &&& self.azure_tenant_id is None
        &&& self.azure_client_id is None
        &&& self.azure_client_secret is None
        &&& self.azure_signing_endpoint is None
        &&& self.azure_signing_account is None
        &&& self.azure_signing_profile is None
        &&& self.gcloud_kms_key is None
        &&& self.gcloud_kms_cert_base64 is None
        &&& self.gcloud_service_account_base64 is None
    }

    /// The timestamp server: the one given, or DigiCert's.
    pub fn timestamp_url(&self) -> (r: &str)
        ensures
            r@ == self.spec_timestamp_url(),
    {
        text_or(&self.windows_timestamp_url, "http://timestamp.digicert.com")
    }

    /// Whether the job can be signed with a PFX certificate.
    pub fn has_pfx(&self) -> (r: bool)
        ensures
            r == self.spec_has_pfx(),
    {
        self.windows_pfx_base64.is_some()
    }

    /// Whether the job can be signed with Azure Trusted Signing.
    pub fn has_azure(&self) -> (r: bool)
        ensures
            r == self.spec_has_azure(),
    {
        self.azure_tenant_id.is_some() && self.azure_client_id.is_some()
            && self.azure_client_secret.is_some() && self.azure_signing_endpoint.is_some()
            && self.azure_signing_account.is_some() && self.azure_signing_profile.is_some()
    }

    /// Whether the job can be signed with a key in Google Cloud KMS.
    pub fn has_gcloud_kms(&self) -> (r: bool)
        ensures
            r == self.spec_has_gcloud_kms(),
    {
        self.gcloud_kms_key.is_some() && self.gcloud_kms_cert_base64.is_some()
            && self.gcloud_service_account_base64.is_some()
    }

    /// Wipes every secret from memory.
    pub fn zeroize(&mut self)
        ensures
            final(self).is_empty(),
    {
        zeroize_text(&mut self.windows_pfx_base64);
        zeroize_text(&mut self.windows_pfx_password);
        zeroize_text(&mut self.windows_timestamp_url);
        zeroize_text(&mut self.azure_tenant_id);
        zeroize_text(&mut self.azure_client_id);
        zeroize_text(&mut self.azure_client_secret);
        zeroize_text(&mut self.azure_signing_endpoint);
        zeroize_text(&mut self.azure_signing_account);
        zeroize_text(&mut self.azure_signing_profile);
        zeroize_text(&mut self.gcloud_kms_key);
        zeroize_text(&mut self.gcloud_kms_cert_base64);
        zeroize_text(&mut self.gcloud_service_account_base64);
    }
}

} // verus!
