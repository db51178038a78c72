use lint_lang::config::{ConfiguredModel, ModelBackend};
use lint_lang::prompt::GrammarLocale;
use lint_lang::tui::{
    browse_key_step, compact_model_label, initial_model_choice, loading_line, loading_width, model_list_footer,
    model_list_title, select_key_step, spinner_frame, truncate_line, Key, ModelListMode, SelectStep,
};
use lint_lang::tui_model_list::model_choices;

#[test]
fn loading_status_is_single_line() {
    let line = loading_line(
        "Qwen3-8B-Q4_K_M.gguf (/Users/caioborghi/Library/Application Support/com.caio.lint-lang/models/Qwen3-8B-Q4_K_M.gguf)",
        GrammarLocale::PtBr,
        0,
    );

    assert!(line.contains("Fixing pt-BR grammar"));
    assert!(line.contains("Qwen3-8B-Q4_K_M.gguf"));
    assert!(!line.contains("/Users/"));
    assert!(!line.contains('\n'));
}

#[test]
fn truncates_loading_status_to_fit_terminal_width() {
    let line = truncate_line("abcdef", 4);

    assert_eq!(line, "abc…");
    assert_eq!(line.chars().count(), 4);
}

#[test]
fn short_lines_are_kept_whole() {
    assert_eq!(truncate_line("abc", 3), "abc");
    assert_eq!(truncate_line("abc", 0), "…");
}

#[test]
fn spinner_cycles_through_ten_frames() {
    assert_eq!(spinner_frame(0), "⠋");
    assert_eq!(spinner_frame(10), spinner_frame(0));
    assert_eq!(loading_line("m (x)", GrammarLocale::En, 1), "⠙ Fixing en grammar with m");
}

#[test]
fn compact_label_drops_the_location() {
    assert_eq!(compact_model_label("qwen.gguf (/m/qwen.gguf)"), "qwen.gguf");
    assert_eq!(compact_model_label("plain"), "plain");
}

#[test]
fn loading_width_leaves_one_column_and_at_least_twenty() {
    assert_eq!(loading_width(Some(100)), 99);
    assert_eq!(loading_width(Some(5)), 20);
    assert_eq!(loading_width(None), 79);
}

#[test]
fn titles_and_footers_follow_the_mode() {
    assert_eq!(model_list_title(ModelListMode::Select), " setup needs a grammar model.");
    assert_eq!(model_list_footer(ModelListMode::Browse), "↑/↓ or j/k move · Enter/Esc/q closes");
}

#[test]
fn keys_move_within_the_list() {
    assert_eq!(select_key_step(0, 3, Key::Up), SelectStep::Highlight(0));
    assert_eq!(select_key_step(0, 3, Key::Char('j')), SelectStep::Highlight(1));
    assert_eq!(select_key_step(2, 3, Key::Down), SelectStep::Highlight(2));
    assert_eq!(select_key_step(1, 3, Key::End), SelectStep::Highlight(2));
    assert_eq!(select_key_step(1, 3, Key::Home), SelectStep::Highlight(0));
    assert_eq!(select_key_step(1, 3, Key::Enter), SelectStep::Choose(1));
    assert_eq!(select_key_step(1, 3, Key::Esc), SelectStep::Cancel);
    assert_eq!(browse_key_step(1, 3, Key::Enter), None);
    assert_eq!(browse_key_step(1, 3, Key::Char('k')), Some(0));
    assert_eq!(browse_key_step(1, 3, Key::Other), Some(1));
}

#[test]
fn selector_opens_on_the_current_model_else_a_local_one() {
    let local = ConfiguredModel {
        name: "a.gguf".to_owned(),
        backend: ModelBackend::LlamaCpp { model_path: "/m/a.gguf".to_owned(), llama_cli: None },
    };
    let ollama = ConfiguredModel {
        name: "llama3".to_owned(),
        backend: ModelBackend::Ollama { model: "llama3".to_owned(), endpoint: None },
    };
    let choices = model_choices(&vec![ollama.clone(), local.clone()], None, true);
    assert_eq!(initial_model_choice(&choices, None), 1);
    assert_eq!(initial_model_choice(&choices, Some(&ollama)), 0);
    let only_download = model_choices(&vec![ollama.clone()], None, true);
    assert_eq!(initial_model_choice(&only_download, None), 1);
}
