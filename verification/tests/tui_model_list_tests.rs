use lint_lang::config::{ConfiguredModel, ModelBackend};
use lint_lang::tui::ModelSelection;
use lint_lang::tui_model_list::{candidate_detail, model_choices};

#[test]
fn keeps_current_model_first() {
    let current = ConfiguredModel {
        name: "current.llamafile".to_owned(),
        backend: ModelBackend::Llamafile { path: "current.llamafile".to_owned() },
    };
    let candidate = ConfiguredModel {
        name: "qwen.gguf".to_owned(),
        backend: ModelBackend::LlamaCpp { model_path: "qwen.gguf".to_owned(), llama_cli: None },
    };

    let choices = model_choices(&vec![candidate], Some(&current), false);

    assert_eq!(choices[0].selection, ModelSelection::ConfiguredModel(current));
}

#[test]
fn removes_duplicate_candidates() {
    let candidate = ConfiguredModel {
        name: "qwen.gguf".to_owned(),
        backend: ModelBackend::LlamaCpp { model_path: "qwen.gguf".to_owned(), llama_cli: None },
    };

    let choices = model_choices(&vec![candidate.clone(), candidate], None, false);

    assert_eq!(choices.len(), 1);
}

#[test]
fn adds_download_choice_for_setup() {
    let choices = model_choices(&vec![], None, true);

    assert_eq!(choices[0].selection, ModelSelection::DownloadDefault);
}

#[test]
fn download_choice_comes_last_and_only_once() {
    let a = ConfiguredModel {
        name: "a".to_owned(),
        backend: ModelBackend::Ollama { model: "a".to_owned(), endpoint: None },
    };
    let choices = model_choices(&vec![a.clone(), a], None, true);
    assert_eq!(choices.len(), 2);
    assert_eq!(choices[1].selection, ModelSelection::DownloadDefault);
    assert!(model_choices(&vec![], None, false).is_empty());
}

#[test]
fn details_describe_where_a_model_runs() {
    let a = ConfiguredModel {
        name: "a".to_owned(),
        backend: ModelBackend::LlamaCpp { model_path: "/m/a.gguf".to_owned(), llama_cli: None },
    };
    let d = candidate_detail(&a);
    assert!(d.contains("/m/a.gguf"));
}

#[test]
fn same_model_file_written_differently_is_offered_once() {
    let a = ConfiguredModel {
        name: "q.gguf".to_owned(),
        backend: ModelBackend::LlamaCpp { model_path: "/m/q.gguf".to_owned(), llama_cli: None },
    };
    let b = ConfiguredModel {
        name: "q.gguf".to_owned(),
        backend: ModelBackend::LlamaCpp { model_path: "/m//q.gguf".to_owned(), llama_cli: None },
    };
    assert_eq!(model_choices(&vec![a, b], None, false).len(), 1);
}
