use text_delivery::enhance::{AIEnhancementRequest, AIError, AIProviderFactory, MAX_TEXT_LENGTH};
use text_delivery::prompts::{
    build_enhancement_prompt, EnhancementOptions, EnhancementPreset, BASE_PROMPT,
};

fn request(text: &str) -> AIEnhancementRequest {
    AIEnhancementRequest { text: text.to_string(), context: None, options: None }
}

#[test]
fn validate_accepts_ordinary_text() {
    assert!(request("Hello there.").validate().is_ok());
}

#[test]
fn validate_rejects_blank_text() {
    match request("   \t\n").validate() {
        Err(AIError::ValidationError(m)) => assert_eq!(m, "Text cannot be empty"),
        other => panic!("expected a validation error, got {:?}", other),
    }
}

#[test]
fn validate_rejects_overlong_text() {
    let long = "x".repeat(MAX_TEXT_LENGTH + 1);
    assert!(matches!(request(&long).validate(), Err(AIError::ValidationError(_))));
    let at_limit = "x".repeat(MAX_TEXT_LENGTH);
    assert!(request(&at_limit).validate().is_ok());
}

#[test]
fn validate_measures_utf8_bytes_not_characters() {
    // A two-byte character: 5000 of them fill the limit exactly, one more
    // goes over it though the character count stays far below the limit.
    let at_limit = "\u{00e9}".repeat(MAX_TEXT_LENGTH / 2);
    assert!(request(&at_limit).validate().is_ok());
    let over = "\u{00e9}".repeat(MAX_TEXT_LENGTH / 2 + 1);
    assert!(matches!(request(&over).validate(), Err(AIError::ValidationError(_))));
}

#[test]
fn provider_registry_knows_openai_only() {
    assert!(AIProviderFactory::is_valid_provider("openai"));
    assert!(!AIProviderFactory::is_valid_provider("anthropic"));
    assert!(!AIProviderFactory::is_valid_provider(""));
}

#[test]
fn error_messages_carry_their_detail() {
    assert_eq!(
        AIError::ProviderNotFound("acme".to_string()).message(),
        "Provider not found: acme"
    );
    assert_eq!(AIError::RateLimitExceeded.message(), "Rate limit exceeded");
    assert_eq!(AIError::ApiError("500".to_string()).message(), "API error: 500");
}

#[test]
fn default_options_are_bare() {
    let options: EnhancementOptions = Default::default();
    assert!(matches!(options.preset, EnhancementPreset::Default));
    assert!(options.custom_vocabulary.is_empty());
    assert!(options.custom_instructions.is_none());
    assert!(options.output_prefix.is_none());
}

#[test]
fn prompt_with_bare_options_is_base_plus_text() {
    let options: EnhancementOptions = Default::default();
    let prompt = build_enhancement_prompt("  so I was thinking  ", None, &options);
    let expected = format!("{}\n\nTranscribed text:\nso I was thinking", BASE_PROMPT);
    assert_eq!(prompt, expected);
}

#[test]
fn prompt_carries_vocabulary_instructions_and_context() {
    let options = EnhancementOptions {
        preset: EnhancementPreset::Prompts,
        custom_vocabulary: vec![
            "Kubernetes".to_string(),
            "   ".to_string(),
            "PostgreSQL".to_string(),
        ],
        custom_instructions: Some("  keep it short  ".to_string()),
        output_prefix: None,
    };
    let prompt = build_enhancement_prompt("hello", Some("a standup note"), &options);
    let expected = format!(
        "{}\n\nVocabulary corrections (use these spellings):\n- Kubernetes\n- PostgreSQL\
         \n\nIMPORTANT - You MUST also follow these instructions:\nkeep it short\
         \n\nTranscribed text:\nhello\n\nContext: a standup note",
        BASE_PROMPT
    );
    assert_eq!(prompt, expected);
}

#[test]
fn prompt_drops_all_blank_vocabulary() {
    let options = EnhancementOptions {
        preset: EnhancementPreset::Default,
        custom_vocabulary: vec!["  ".to_string(), "\t".to_string()],
        custom_instructions: Some("   ".to_string()),
        output_prefix: None,
    };
    let prompt = build_enhancement_prompt("text", None, &options);
    let expected = format!("{}\n\nTranscribed text:\ntext", BASE_PROMPT);
    assert_eq!(prompt, expected);
}
