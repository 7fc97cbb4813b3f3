//! AI text-enhancement requests: the data types, their validation, and the
//! provider registry.

use vstd::prelude::*;

use crate::prompts::EnhancementOptions;
use crate::strutil::{is_blank, str_eq, ws_only};

verus! {

/// The longest text, in UTF-8 bytes, a request may carry.
pub const MAX_TEXT_LENGTH: usize = 10000;

/// The UTF-8 byte length of a text.
pub open spec fn utf8_len(s: Seq<char>) -> nat {
    vstd::utf8::encode_utf8(s).len()
}

/// A request to enhance a transcribed text.
#[derive(Debug, Clone)]
pub struct AIEnhancementRequest {
    /// The transcribed text to enhance.
    pub text: String,
    /// Optional context the model may use.
    pub context: Option<String>,
    /// How the enhancement should behave.
    pub options: Option<EnhancementOptions>,
}

/// The answer to an enhancement request.
#[derive(Debug, Clone)]
pub struct AIEnhancementResponse {
    /// The enhanced text.
    pub enhanced_text: String,
    /// The text as it was sent.
    pub original_text: String,
    /// Which provider produced the answer.
    pub provider: String,
    /// Which model produced the answer.
    pub model: String,
}

/// What can go wrong when talking to an AI provider.
#[derive(Debug, Clone)]
pub enum AIError {
    /// The provider's API answered with an error.
    ApiError(String),
    /// The provider could not be reached.
    NetworkError(String),
    /// The provider's answer could not be read.
    InvalidResponse(String),
    /// No provider of that name exists.
    ProviderNotFound(String),
    /// The request itself is ill-formed.
    ValidationError(String),
    /// The provider is rate-limiting us.
    RateLimitExceeded,
}

impl AIError {
    /// A user-facing description of the error.
    pub fn message(&self) -> (r: String)
        ensures
            self matches AIError::ValidationError(s) ==> r@ == "Validation error: "@ + s@,
            self matches AIError::ProviderNotFound(s) ==> r@ == "Provider not found: "@ + s@,
            self matches AIError::ApiError(s) ==> r@ == "API error: "@ + s@,
            self matches AIError::NetworkError(s) ==> r@ == "Network error: "@ + s@,
            self matches AIError::InvalidResponse(s) ==> r@ == "Invalid response: "@ + s@,
            self is RateLimitExceeded ==> r@ == "Rate limit exceeded"@,
    {
        match self {
            AIError::ApiError(s) => {
                let mut r = "API error: ".to_owned();
                r.append(s.as_str());
                r
            },
            AIError::NetworkError(s) => {
                let mut r = "Network error: ".to_owned();
                r.append(s.as_str());
                r
            },
            AIError::InvalidResponse(s) => {
                let mut r = "Invalid response: ".to_owned();
                r.append(s.as_str());
                r
            },
            AIError::ProviderNotFound(s) => {
                let mut r = "Provider not found: ".to_owned();
                r.append(s.as_str());
                r
            },
            AIError::ValidationError(s) => {
                let mut r = "Validation error: ".to_owned();
                r.append(s.as_str());
                r
            },
            AIError::RateLimitExceeded => "Rate limit exceeded".to_owned(),
        }
    }
}

impl AIEnhancementRequest {
    /// A request is well-formed when its text is neither blank nor longer
    /// than [`MAX_TEXT_LENGTH`] UTF-8 bytes; anything else is rejected as
    /// a validation error, blankness checked first.
    pub fn validate(&self) -> (r: Result<(), AIError>)
        ensures
            r is Ok <==> (!ws_only(self.text@) && utf8_len(self.text@) <= MAX_TEXT_LENGTH),
            r matches Err(e) ==> e is ValidationError,
            ws_only(self.text@) ==> (r matches Err(AIError::ValidationError(m)) && m@
                == "Text cannot be empty"@),
    {
        if is_blank(self.text.as_str()) {
            return Err(AIError::ValidationError("Text cannot be empty".to_owned()));
        }
        if self.text.as_str().as_bytes().len() > MAX_TEXT_LENGTH {
            return Err(
                AIError::ValidationError(
                    "Text exceeds maximum length of 10000 characters".to_owned(),
                ),
            );
        }
        Ok(())
    }
}

/// A model a provider offers.
#[derive(Debug, Clone)]
pub struct AIModel {
    /// The provider's identifier for the model.
    pub id: String,
    /// A display name.
    pub name: String,
    /// A description, where the provider gives one.
    pub description: Option<String>,
}

/// Registry of the supported providers. Only the local OpenAI-compatible
/// provider (used by Ollama) is supported.
pub struct AIProviderFactory;

impl AIProviderFactory {
    /// Whether `provider` names a supported provider: exactly "openai".
    pub fn is_valid_provider(provider: &str) -> (r: bool)
        ensures
            r == (provider@ == "openai"@),
    {
        str_eq(provider, "openai")
    }
}

} // verus!
