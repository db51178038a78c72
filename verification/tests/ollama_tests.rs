use lint_lang::ollama::{api_url, clean_model_output, strip_code_fence};

#[test]
fn removes_common_labels() {
    assert_eq!(clean_model_output("Fixed: I have an apple."), "I have an apple.");
}

#[test]
fn removes_code_fences() {
    assert_eq!(clean_model_output("```text\nI have an apple.\n```"), "I have an apple.");
}

#[test]
fn keeps_quotes_because_they_may_belong_to_the_input() {
    assert_eq!(clean_model_output("\"Hello, world.\""), "\"Hello, world.\"");
}

#[test]
fn keeps_only_text_after_reasoning() {
    assert_eq!(
        clean_model_output("<think>\nthe user wants a fix\n</think>\n\nCorrected:  I have an apple."),
        "I have an apple."
    );
}

#[test]
fn fence_without_info_line_keeps_its_body() {
    assert_eq!(strip_code_fence("```I have an apple.```").as_deref(), Some("I have an apple."));
    assert_eq!(strip_code_fence("I have an apple."), None);
}

#[test]
fn builds_api_urls_without_double_slashes() {
    assert_eq!(api_url("http://localhost:11434//", "tags"), "http://localhost:11434/api/tags");
    assert_eq!(api_url("http://localhost:11434", "chat"), "http://localhost:11434/api/chat");
}

#[test]
fn model_names_are_sorted_once_each() {
    let names = vec!["b".to_owned(), "a".to_owned(), "b".to_owned(), "B".to_owned(), "ab".to_owned()];
    assert_eq!(
        lint_lang::ollama::normalize_model_names(names),
        vec!["B".to_owned(), "a".to_owned(), "ab".to_owned(), "b".to_owned()]
    );
    assert!(lint_lang::ollama::normalize_model_names(vec![]).is_empty());
}

#[test]
fn empty_chat_answer_is_an_error() {
    assert_eq!(lint_lang::ollama::finish_chat_output("Fixed: Hi.").unwrap(), "Hi.");
    assert_eq!(
        lint_lang::ollama::finish_chat_output("  <think></think> ").unwrap_err(),
        "Ollama returned an empty correction"
    );
}
