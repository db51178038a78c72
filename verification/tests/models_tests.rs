use lint_lang::cli::{ModelsCli, ModelsCommand, ModelsListArgs};
use lint_lang::config::{AppConfig, ConfiguredModel, ModelBackend};
use lint_lang::models::{endpoint_from_models_args, model_list_text, models_llama_cli, models_locale, models_model_dirs, print_model_list};
use lint_lang::prompt::GrammarLocale;

fn args() -> ModelsCli {
    ModelsCli {
        endpoint: None,
        llama_cli: None,
        model_dir: vec![],
        locale: None,
        pt_br: false,
        command: ModelsCommand::List(ModelsListArgs { plain: true }),
    }
}

#[test]
fn prints_model_list_without_errors() {
    let model = ConfiguredModel {
        name: "qwen.gguf".to_owned(),
        backend: ModelBackend::LlamaCpp { model_path: "qwen.gguf".to_owned(), llama_cli: None },
    };

    print_model_list(Some(&model), &vec![model.clone()]).expect("print model list");
}

#[test]
fn listing_marks_the_current_model() {
    let a = ConfiguredModel {
        name: "a.gguf".to_owned(),
        backend: ModelBackend::LlamaCpp { model_path: "/m/a.gguf".to_owned(), llama_cli: None },
    };
    let b = ConfiguredModel {
        name: "b".to_owned(),
        backend: ModelBackend::Ollama { model: "b".to_owned(), endpoint: None },
    };
    let text = model_list_text(Some(&a), &vec![a.clone(), b], "/c/config.toml");
    assert_eq!(
        text,
        "lint-lang models\n\ncurrent: a.gguf (/m/a.gguf)\n\n* a.gguf · GGUF + native llama.cpp\n- b · Ollama daemon\n- Download Qwen3 8B GGUF · default downloadable model\n\nconfig: /c/config.toml\n"
    );
    let text = model_list_text(None, &vec![], "/c");
    assert_eq!(
        text,
        "lint-lang models\n\n- Download Qwen3 8B GGUF · default downloadable model\n\nconfig: /c\n"
    );
}

#[test]
fn models_settings_prefer_options_then_config() {
    let mut config = AppConfig::default();
    assert_eq!(endpoint_from_models_args(&args(), &config), "http://localhost:11434");
    config.endpoint = Some("http://c:1".to_owned());
    assert_eq!(endpoint_from_models_args(&args(), &config), "http://c:1");
    let mut a = args();
    a.endpoint = Some("http://o:2".to_owned());
    assert_eq!(endpoint_from_models_args(&a, &config), "http://o:2");

    config.locale = Some(GrammarLocale::PtBr);
    assert_eq!(models_locale(&args(), &config), GrammarLocale::PtBr);
    let mut a = args();
    a.locale = Some(GrammarLocale::En);
    assert_eq!(models_locale(&a, &config), GrammarLocale::En);
    a.pt_br = true;
    assert_eq!(models_locale(&a, &AppConfig::default()), GrammarLocale::PtBr);

    let mut a = args();
    a.model_dir = vec!["/x".to_owned(), "/x".to_owned()];
    assert_eq!(models_model_dirs(&a, &config, None), vec!["/x".to_owned(), "/x".to_owned()]);
}

#[test]
fn models_llama_cli_prefers_the_option() {
    let mut config = AppConfig::default();
    let mut a = args();
    assert_eq!(models_llama_cli(&a, &config), None);
    config.llama_cli = Some("/bin/c".to_owned());
    assert_eq!(models_llama_cli(&a, &config), Some("/bin/c".to_owned()));
    a.llama_cli = Some("/bin/o".to_owned());
    assert_eq!(models_llama_cli(&a, &config), Some("/bin/o".to_owned()));
}
