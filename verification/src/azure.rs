//! Azure VM self-management — deallocate this VM after idle timeout.
//!
//! Uses the Azure REST API to deallocate the VM when the worker has been
//! idle (no jobs) for a configurable number of minutes, stopping compute billing.
//! The VM's OS disk is preserved so it can be started again later.
use crate::config::{number_of, number_or, Environment};
use crate::process::text_pairs;
use crate::text::{cat2, cat3, cat4, text_verdict, verdict};
use vstd::prelude::*;
use vstd::string::*;

verus! {

/// How many minutes the worker stays idle, unless it is configured.
pub const DEFAULT_IDLE_MINS: u64 = 5;

/// The environment variables that the configuration is read from.
pub const AZURE_VARIABLES: [&'static str; 7] = [
    "AZURE_TENANT_ID",
    "AZURE_CLIENT_ID",
    "AZURE_CLIENT_SECRET",
    "AZURE_SUBSCRIPTION_ID",
    "AZURE_VM_RESOURCE_GROUP",
    "AZURE_VM_NAME",
    "AZURE_IDLE_TIMEOUT_MINS",
];

/// Azure VM configuration from environment variables.
pub struct AzureVmConfig {
    pub tenant_id: String,
    pub client_id: String,
    pub client_secret: String,
    pub subscription_id: String,
    pub resource_group: String,
    pub vm_name: String,
}

/// Whether the environment names all that it takes.
pub open spec fn is_configured(env: Environment) -> bool {
    &&& env.value("AZURE_TENANT_ID"@) is Some
    &&& env.value("AZURE_CLIENT_ID"@) is Some
    &&& env.value("AZURE_CLIENT_SECRET"@) is Some
    &&& env.value("AZURE_SUBSCRIPTION_ID"@) is Some
    &&& env.value("AZURE_VM_RESOURCE_GROUP"@) is Some
    &&& env.value("AZURE_VM_NAME"@) is Some
}

impl AzureVmConfig {
    /// Load Azure VM config from environment variables. Returns None if not configured.
    pub fn from_env(env: &Environment) -> (r: Option<Self>)
        ensures
            match r {
                Some(c) => {
                    &&& is_configured(*env)
                    &&& env.value("AZURE_TENANT_ID"@) == Some(c.tenant_id@)
                    &&& env.value("AZURE_CLIENT_ID"@) == Some(c.client_id@)
                    &&& env.value("AZURE_CLIENT_SECRET"@) == Some(c.client_secret@)
                    &&& env.value("AZURE_SUBSCRIPTION_ID"@) == Some(c.subscription_id@)
                    &&& env.value("AZURE_VM_RESOURCE_GROUP"@) == Some(c.resource_group@)
                    &&& env.value("AZURE_VM_NAME"@) == Some(c.vm_name@)
                },
                None => !is_configured(*env),
            },
    {
        let tenant_id = env.get("AZURE_TENANT_ID")?;
        let client_id = env.get("AZURE_CLIENT_ID")?;
        let client_secret = env.get("AZURE_CLIENT_SECRET")?;
        let subscription_id = env.get("AZURE_SUBSCRIPTION_ID")?;
        let resource_group = env.get("AZURE_VM_RESOURCE_GROUP")?;
        let vm_name = env.get("AZURE_VM_NAME")?;
        Some(
            AzureVmConfig {
                tenant_id,
                client_id,
                client_secret,
                subscription_id,
                resource_group,
                vm_name,
            },
        )
    }

    /// Get the idle timeout in minutes from env, defaulting to 5.
    pub fn idle_timeout_mins(env: &Environment) -> (n: u64)
        ensures
            n == number_of(env.value("AZURE_IDLE_TIMEOUT_MINS"@), DEFAULT_IDLE_MINS),
    {
        number_or(&env.get("AZURE_IDLE_TIMEOUT_MINS"), DEFAULT_IDLE_MINS)
    }

    /// Where an access token is asked for.
    pub fn token_url(&self) -> (s: String)
        ensures
            s@ == "https://login.microsoftonline.com/"@ + self.tenant_id@ + "/oauth2/v2.0/token"@,
    {
        cat3("https://login.microsoftonline.com/", &self.tenant_id, "/oauth2/v2.0/token")
    }

    /// The form that an access token is asked for with.
    pub fn token_form(&self) -> (r: Vec<(String, String)>)
        ensures
            text_pairs(r@) == seq![
                ("grant_type"@, "client_credentials"@),
                ("client_id"@, self.client_id@),
                ("client_secret"@, self.client_secret@),
                ("scope"@, "https://management.azure.com/.default"@),
            ],
    {
        let mut r: Vec<(String, String)> = Vec::new();
        r.push(("grant_type".to_owned(), "client_credentials".to_owned()));
        r.push(("client_id".to_owned(), self.client_id.clone()));
        r.push(("client_secret".to_owned(), self.client_secret.clone()));
        r.push(("scope".to_owned(), "https://management.azure.com/.default".to_owned()));
        assert(text_pairs(r@) =~= seq![
            ("grant_type"@, "client_credentials"@),
            ("client_id"@, self.client_id@),
            ("client_secret"@, self.client_secret@),
            ("scope"@, "https://management.azure.com/.default"@),
        ]);
        r
    }

    /// Where deallocating this VM is asked for.
    pub fn deallocate_url(&self) -> (s: String)
        ensures
            s@ == "https://management.azure.com/subscriptions/"@ + self.subscription_id@
                + "/resourceGroups/"@ + self.resource_group@
                + "/providers/Microsoft.Compute/virtualMachines/"@ + self.vm_name@
                + "/deallocate?api-version=2024-07-01"@,
    {
        let mut s = cat4(
            "https://management.azure.com/subscriptions/",
            &self.subscription_id,
            "/resourceGroups/",
            &self.resource_group,
        );
        s.append("/providers/Microsoft.Compute/virtualMachines/");
        s.append(&self.vm_name);
        s.append("/deallocate?api-version=2024-07-01");
        s
    }
}

/// How a request to Azure went.
pub enum AzureReply {
    /// There was no answer.
    NotSent(String),
    /// An answer: its status code, the status as it is shown, and its text.
    Answered { code: u16, status: String, body: String },
}

/// Whether a status code means success.
pub open spec fn is_success_status(code: u16) -> bool {
    200 <= code < 300
}

/// How asking for an access token went, as far as the answer was understood.
pub enum TokenReply {
    /// There was no answer.
    NotSent(String),
    /// Azure refused, with a text.
    Refused(String),
    /// The answer could not be understood.
    NotUnderstood(String),
    /// The token.
    Token(String),
}

/// What comes of asking for an access token.
pub open spec fn token_verdict(reply: TokenReply) -> Result<Seq<char>, Seq<char>> {
    match reply {
        TokenReply::NotSent(e) => Err("Failed to request Azure token: "@ + e@),
        TokenReply::Refused(body) => Err("Azure token request failed: "@ + body@),
        TokenReply::NotUnderstood(e) => Err("Failed to parse Azure token response: "@ + e@),
        TokenReply::Token(token) => Ok(token@),
    }
}

/// What comes of asking for an access token.
pub fn get_access_token(reply: &TokenReply) -> (r: Result<String, String>)
    ensures
        text_verdict(r) == token_verdict(*reply),
{
    match reply {
        TokenReply::NotSent(e) => Err(cat2("Failed to request Azure token: ", e)),
        TokenReply::Refused(body) => Err(cat2("Azure token request failed: ", body)),
        TokenReply::NotUnderstood(e) => Err(cat2("Failed to parse Azure token response: ", e)),
        TokenReply::Token(token) => Ok(token.clone()),
    }
}

/// What comes of asking Azure to deallocate the VM.
pub open spec fn deallocate_verdict(reply: AzureReply) -> Result<(), Seq<char>> {
    match reply {
        AzureReply::NotSent(e) => Err("Failed to call Azure deallocate API: "@ + e@),
        AzureReply::Answered { code, status, body } => if is_success_status(code) {
            Ok(())
        } else {
            Err("Azure deallocate failed ("@ + status@ + "): "@ + body@)
        },
    }
}

/// What comes of asking Azure to deallocate this VM, which stops it and releases
/// compute billing.
pub fn deallocate_self(reply: &AzureReply) -> (r: Result<(), String>)
    ensures
        verdict(r) == deallocate_verdict(*reply),
{
    match reply {
        AzureReply::NotSent(e) => Err(cat2("Failed to call Azure deallocate API: ", e)),
        AzureReply::Answered { code, status, body } => {
            if 200 <= *code && *code < 300 {
                Ok(())
            } else {
                Err(cat4("Azure deallocate failed (", status, "): ", body))
            }
        },
    }
}

} // verus!
