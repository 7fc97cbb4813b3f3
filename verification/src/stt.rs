//! Cloud speech-to-text — removed for offline-only operation: every key
//! validation is refused, and transcription runs on local models.

use vstd::prelude::*;

verus! {

/// Cloud STT keys are never accepted: the refusal, with its exact message,
/// is the whole behavior.
pub fn validate_and_cache_soniox_key(_api_key: Option<&str>) -> (r: Result<(), String>)
    ensures
        r matches Err(m) && m@
            == "Cloud transcription services are disabled. Use local Whisper or Parakeet models instead."@,
{
    Err(
        "Cloud transcription services are disabled. Use local Whisper or Parakeet models instead.".to_owned(),
    )
}

/// Clearing the (absent) cloud key cache succeeds and does nothing.
pub fn clear_soniox_key_cache() -> (r: Result<(), String>)
    ensures
        r is Ok,
{
    Ok(())
}

} // verus!
