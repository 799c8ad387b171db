//! Microsoft Store submission via REST API.
//! This is a lower-priority feature and is currently a stub.
use vstd::prelude::*;
use vstd::string::*;

verus! {

/// What a submission came to.
pub struct MsStoreUploadResult {
    pub message: String,
    pub submission_id: Option<String>,
}

/// Upload an MSIX package to the Microsoft Store.
/// This requires Microsoft Partner Center API credentials which are not yet implemented.
pub fn upload_to_msstore(
    msix_path: &str,
    tenant_id: &str,
    client_id: &str,
    client_secret: &str,
    app_id: &str,
) -> (r: Result<MsStoreUploadResult, String>)
    ensures
        r matches Err(e) && e@ == "Microsoft Store submission is not yet implemented"@,
{
    Err("Microsoft Store submission is not yet implemented".to_owned())
}

} // verus!
