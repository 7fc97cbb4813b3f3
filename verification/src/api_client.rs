//! The license API client, reduced to offline-only operation: every call
//! answers locally, with no remote server, and the answers are pinned by
//! contract.

use vstd::prelude::*;

verus! {

/// The answer of a trial-status check.
#[derive(Debug, Clone)]
pub struct TrialData {
    /// Whether the trial has run out.
    pub is_expired: bool,
    /// Days left, where the server reports them.
    pub days_left: Option<u32>,
    /// When the trial expires, where the server reports it.
    pub expires_at: Option<String>,
}

/// Envelope of a trial-status check.
#[derive(Debug, Clone)]
pub struct TrialCheckResponse {
    /// Whether the check itself succeeded.
    pub success: bool,
    /// The trial data.
    pub data: TrialData,
}

/// The answer of a license validation.
#[derive(Debug, Clone, Copy, PartialEq, Eq, Structural)]
pub struct ValidateData {
    /// Whether the key is valid.
    pub valid: bool,
}

/// Envelope of a license validation.
#[derive(Debug, Clone)]
pub struct LicenseValidateResponse {
    /// Whether the validation itself succeeded.
    pub success: bool,
    /// The validation data.
    pub data: ValidateData,
    /// A human-readable note, where the server adds one.
    pub message: Option<String>,
}

/// The answer of a license activation.
#[derive(Debug, Clone)]
pub struct ActivateData {
    /// When the license was activated.
    pub activated_at: String,
}

/// Envelope of a license activation.
#[derive(Debug, Clone)]
pub struct LicenseActivateResponse {
    /// Whether the activation succeeded.
    pub success: bool,
    /// The activation data, on success.
    pub data: Option<ActivateData>,
    /// The error, on failure.
    pub error: Option<String>,
    /// A human-readable note.
    pub message: Option<String>,
}

/// The answer of a license deactivation.
#[derive(Debug, Clone)]
pub struct DeactivateData {
    /// When the license was deactivated.
    pub deactivated_at: String,
}

/// Envelope of a license deactivation.
#[derive(Debug, Clone)]
pub struct LicenseDeactivateResponse {
    /// Whether the deactivation succeeded.
    pub success: bool,
    /// The deactivation data, on success.
    pub data: Option<DeactivateData>,
    /// The error, on failure.
    pub error: Option<String>,
    /// A human-readable note.
    pub message: Option<String>,
}

/// The license API client. All validation is handled locally; the
/// application operates in fully licensed, offline mode.
pub struct LicenseApiClient;

impl LicenseApiClient {
    /// Construction always succeeds: there is no remote endpoint to reach.
    pub fn new() -> (r: Result<LicenseApiClient, String>)
        ensures
            r is Ok,
    {
        Ok(LicenseApiClient)
    }

    /// Check trial status: never expired, with no day count or expiry.
    pub fn check_trial(&self, _device_hash: &str) -> (r: Result<TrialCheckResponse, String>)
        ensures
            r matches Ok(t) && t.success && !t.data.is_expired && t.data.days_left is None
                && t.data.expires_at is None,
    {
        Ok(
            TrialCheckResponse {
                success: true,
                data: TrialData { is_expired: false, days_left: None, expires_at: None },
            },
        )
    }

    /// Validate a license key: always valid.
    pub fn validate_license(
        &self,
        _license_key: &str,
        _device_hash: &str,
        _app_version: Option<&str>,
    ) -> (r: Result<LicenseValidateResponse, String>)
        ensures
            r matches Ok(v) && v.success && v.data.valid && v.message is None,
    {
        Ok(
            LicenseValidateResponse {
                success: true,
                data: ValidateData { valid: true },
                message: None,
            },
        )
    }

    /// Activate a license key: always succeeds, stamped "offline".
    pub fn activate_license(
        &self,
        _license_key: &str,
        _device_hash: &str,
        _app_version: Option<&str>,
    ) -> (r: Result<LicenseActivateResponse, String>)
        ensures
            r matches Ok(a) ==> a.success && a.error is None && (a.data matches Some(d)
                && d.activated_at@ == "offline"@) && (a.message matches Some(m) && m@
                == "License activated (offline mode)"@),
            r is Ok,
    {
        Ok(
            LicenseActivateResponse {
                success: true,
                data: Some(ActivateData { activated_at: "offline".to_owned() }),
                error: None,
                message: Some("License activated (offline mode)".to_owned()),
            },
        )
    }

    /// Deactivate a license key: always succeeds, stamped "offline".
    pub fn deactivate_license(
        &self,
        _license_key: &str,
        _device_hash: &str,
    ) -> (r: Result<LicenseDeactivateResponse, String>)
        ensures
            r matches Ok(a) ==> a.success && a.error is None && (a.data matches Some(d)
                && d.deactivated_at@ == "offline"@) && (a.message matches Some(m) && m@
                == "License deactivated (offline mode)"@),
            r is Ok,
    {
        Ok(
            LicenseDeactivateResponse {
                success: true,
                data: Some(DeactivateData { deactivated_at: "offline".to_owned() }),
                error: None,
                message: Some("License deactivated (offline mode)".to_owned()),
            },
        )
    }
}

impl Default for LicenseApiClient {
    /// The default client is the same stateless client `new` returns.
    fn default() -> (r: LicenseApiClient) {
        LicenseApiClient
    }
}

} // verus!
