use text_delivery::license::{licensed_status, CachedLicense, LicenseState};

#[test]
fn offline_status_is_licensed() {
    let status = licensed_status();
    assert!(matches!(status.status, LicenseState::Licensed));
    assert!(status.trial_days_left.is_none());
    assert_eq!(status.license_type.unwrap(), "offline");
    assert!(status.license_key.is_none());
    assert!(status.expires_at.is_none());
}

#[test]
fn cached_license_is_always_valid() {
    let cached = CachedLicense::new(licensed_status());
    assert!(cached.is_valid());
    assert!(matches!(cached.status.status, LicenseState::Licensed));
}

#[test]
fn cached_license_age_moves_forward() {
    let cached = CachedLicense::new(licensed_status());
    let earlier = cached.age();
    let later = cached.age();
    assert!(later >= earlier);
}
