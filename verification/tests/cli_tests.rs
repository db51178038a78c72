use lint_lang::cli::{should_default_to_lint, LocalBackend};

#[test]
fn text_without_a_command_is_linted() {
    assert!(should_default_to_lint(Some("hello")));
    assert!(should_default_to_lint(Some("--locale")));
    assert!(should_default_to_lint(None));
}

#[test]
fn command_words_and_help_are_left_alone() {
    for word in ["lint", "models", "doctor", "--help", "-h", "--version", "-V"] {
        assert!(!should_default_to_lint(Some(word)), "{word}");
    }
}

#[test]
fn backend_keys_match_configuration_names() {
    assert_eq!(LocalBackend::Auto.config_key(), None);
    assert_eq!(LocalBackend::Llamafile.config_key(), Some("llamafile"));
    assert_eq!(LocalBackend::LlamaCpp.config_key(), Some("llama-cpp"));
}
