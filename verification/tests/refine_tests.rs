use tomchat::refine::{
    build_prompt, model_info, refine_outcome, token_budget, RefineError, ServiceOutcome,
    TextRefinementConfig,
};

#[test]
fn prompt_substitutes_the_placeholder() {
    assert_eq!(build_prompt("Correct: \"{text}\"", "helo wrld"), "Correct: \"helo wrld\"");
    assert_eq!(build_prompt("{text} and {text}", "x"), "x and x");
    assert_eq!(build_prompt("no placeholder", "x"), "no placeholder");
    assert_eq!(build_prompt("", "x"), "");
}

#[test]
fn default_template_accepts_the_transcript() {
    let config = TextRefinementConfig::default();
    let prompt = build_prompt(config.prompt_template.as_str(), "helo wrld");
    assert!(prompt.contains("Original: \"helo wrld\""));
    assert!(!prompt.contains("{text}"));
}

#[test]
fn token_budget_is_word_count_plus_buffer_or_the_floor() {
    // 3 words + 50 = 53, below the configured 150: the floor wins.
    assert_eq!(token_budget("one two three", 150), 150);
    // 3 words + 50 = 53, above a floor of 10.
    assert_eq!(token_budget("one two three", 10), 53);
    assert_eq!(token_budget("", 0), 50);
}

#[test]
fn completed_response_is_trimmed() {
    let r = refine_outcome(
        ServiceOutcome::Completed(String::from("  Hello world. \n")),
        true,
        "original",
    );
    assert_eq!(r.unwrap(), "Hello world.");
}

#[test]
fn timeout_with_fallback_returns_the_original_unchanged() {
    let r = refine_outcome(ServiceOutcome::TimedOut, true, "the original text");
    assert_eq!(r.unwrap(), "the original text");
}

#[test]
fn timeout_without_fallback_surfaces_the_failure() {
    let r = refine_outcome(ServiceOutcome::TimedOut, false, "text");
    assert_eq!(r, Err(RefineError::TimedOut));
}

#[test]
fn failure_with_fallback_returns_the_original() {
    let r = refine_outcome(ServiceOutcome::Failed, true, "keep me");
    assert_eq!(r.unwrap(), "keep me");
}

#[test]
fn failure_without_fallback_surfaces_the_failure() {
    let r = refine_outcome(ServiceOutcome::Failed, false, "text");
    assert_eq!(r, Err(RefineError::ServiceFailed));
}

#[test]
fn stock_configuration_values() {
    let c = TextRefinementConfig::default();
    assert!(c.enabled);
    assert!(c.is_enabled());
    assert_eq!(c.model_name, "gemma3:1b");
    assert_eq!(c.ollama_url, "http://localhost:11434");
    assert_eq!(c.max_tokens, 150);
    assert_eq!(c.timeout_ms, 8000);
    assert_eq!(c.max_retries, 1);
    assert!(c.fallback_on_timeout);
    assert!(c.prompt_template.contains("{text}"));
}

#[test]
fn model_info_names_model_and_service() {
    let c = TextRefinementConfig::default();
    assert_eq!(model_info(&c), "Ollama model: gemma3:1b at http://localhost:11434");
}
