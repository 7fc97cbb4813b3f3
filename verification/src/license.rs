//! License status — stubbed for fully offline, private operation. Every
//! check answers "licensed" without a network call.

use vstd::prelude::*;

verus! {

/// The license states the application distinguishes.
#[derive(Debug, Clone, Copy, PartialEq, Eq, Structural)]
pub enum LicenseState {
    /// A full license is in effect.
    Licensed,
    /// Running on a trial.
    Trial,
    /// The trial or license has expired.
    Expired,
}

/// A license-status answer as handed to the UI layer.
#[derive(Debug, Clone)]
pub struct LicenseStatus {
    /// The overall state.
    pub status: LicenseState,
    /// Days left of a trial, where one is running.
    pub trial_days_left: Option<u32>,
    /// The kind of license in effect.
    pub license_type: Option<String>,
    /// The key the license was activated with.
    pub license_key: Option<String>,
    /// When the license expires, where it does.
    pub expires_at: Option<String>,
}

/// The one status the offline build ever reports: licensed, of type
/// "offline", with no trial, key or expiry.
pub fn licensed_status() -> (r: LicenseStatus)
    ensures
        r.status is Licensed,
        r.trial_days_left is None,
        r.license_type matches Some(t) && t@ == "offline"@,
        r.license_key is None,
        r.expires_at is None,
{
    LicenseStatus {
        status: LicenseState::Licensed,
        trial_days_left: None,
        license_type: Some("offline".to_owned()),
        license_key: None,
        expires_at: None,
    }
}

/// A monotonic-clock reading, opaque to verification.
#[verifier::external_type_specification]
#[verifier::external_body]
pub struct ExInstant(std::time::Instant);

/// Relies on `Instant` being `Copy`: its `clone` returns the same reading.
pub assume_specification[ <std::time::Instant as Clone>::clone ](i: &std::time::Instant) -> (r:
    std::time::Instant)
    ensures
        r == *i,
;

/// Relies on `std::time::Instant::now`: an opaque reading of the monotonic
/// clock; nothing can be promised of the value.
#[verifier::external_body]
fn instant_now() -> std::time::Instant {
    std::time::Instant::now()
}

/// Relies on `std::time::Instant::elapsed`: the time since the instant, by
/// the monotonic clock, so it never runs backwards; converted to
/// milliseconds, saturating at the largest value. The result depends on
/// when the call runs, so nothing is promised of it.
#[verifier::external_body]
fn elapsed_ms(at: &std::time::Instant) -> u64 {
    let ms = at.elapsed().as_millis();
    if ms > u64::MAX as u128 {
        u64::MAX
    } else {
        ms as u64
    }
}

/// A cached license status, stamped with when it was cached. Kept for
/// interface compatibility; in offline mode the cache never goes stale.
#[derive(Debug, Clone)]
pub struct CachedLicense {
    /// The cached status.
    pub status: LicenseStatus,
    /// The monotonic-clock reading taken when the status was cached.
    pub cached_at: std::time::Instant,
}

impl CachedLicense {
    /// Cache a status, stamped with the monotonic clock now.
    pub fn new(status: LicenseStatus) -> (r: CachedLicense)
        ensures
            r.status == status,
    {
        CachedLicense { status, cached_at: instant_now() }
    }

    /// Whether the cached entry may still be used: always, in offline mode.
    pub fn is_valid(&self) -> (r: bool)
        ensures
            r,
    {
        true
    }

    /// Milliseconds elapsed since the status was cached. Monotonic: later
    /// calls never report less than earlier ones.
    pub fn age(&self) -> u64 {
        elapsed_ms(&self.cached_at)
    }
}

} // verus!
