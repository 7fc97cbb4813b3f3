//! Device identity — stubbed for privacy: no hardware fingerprinting, one
//! fixed identifier.

use vstd::prelude::*;

verus! {

/// The static device identifier every caller receives.
pub fn get_device_id() -> (r: Result<String, String>)
    ensures
        r matches Ok(s) && s@ == "offline-mode"@,
{
    Ok("offline-mode".to_owned())
}

} // verus!
