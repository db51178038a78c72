use lint_lang::lint::{cli_model_override_in, model_dirs_in};
use lint_lang::cli::{LintArgs, LocalBackend};
use lint_lang::config::{AppConfig, ConfigError, ConfiguredModel, ModelBackend};
use lint_lang::lint::{
    apply_runtime_config, apply_selection, cli_model_override, collect_model_candidates,
    is_deprecated_default_model, is_local_model, lint_endpoint, lint_llama_cli, local_model_exists,
    local_model_path, model_dirs, ollama_model_is_installed, preferred_config_model, read_input, require_text,
    saved_message, selected_locale, NO_INPUT_MESSAGE,
};
use lint_lang::lint::{
    model_for_path, model_for_text, needs_first_run_setup, stops_after_config_path, stops_after_download,
    stops_after_setup, wants_download,
};
use lint_lang::prompt::GrammarLocale;

fn args() -> LintArgs {
    LintArgs {
        text: vec![],
        model: None,
        model_path: None,
        backend: None,
        llama_cli: None,
        model_dir: vec![],
        download_model: false,
        download_url: None,
        download_output: None,
        force_download: false,
        print_model_path: false,
        endpoint: None,
        locale: None,
        pt_br: false,
        configure: false,
        config_path: false,
        no_clipboard: false,
    }
}

fn gguf(path: &str) -> ConfiguredModel {
    ConfiguredModel {
        name: path.rsplit('/').next().unwrap().to_owned(),
        backend: ModelBackend::LlamaCpp { model_path: path.to_owned(), llama_cli: None },
    }
}

fn ollama(name: &str) -> ConfiguredModel {
    ConfiguredModel {
        name: name.to_owned(),
        backend: ModelBackend::Ollama { model: name.to_owned(), endpoint: None },
    }
}

#[test]
fn command_line_model_overrides() {
    assert_eq!(cli_model_override(&args(), "http://e", None, false), Ok(None));
    let mut a = args();
    a.model = Some("llama3".to_owned());
    assert_eq!(
        cli_model_override(&a, "http://e", None, false),
        Ok(Some(ConfiguredModel {
            name: "llama3".to_owned(),
            backend: ModelBackend::Ollama { model: "llama3".to_owned(), endpoint: Some("http://e".to_owned()) },
        }))
    );
    let mut a = args();
    a.model_path = Some("/m/q.bin".to_owned());
    a.backend = Some(LocalBackend::Llamafile);
    assert_eq!(
        cli_model_override(&a, "http://e", None, false).unwrap().unwrap().backend,
        ModelBackend::Llamafile { path: "/m/q.bin".to_owned() }
    );
    a.backend = Some(LocalBackend::Auto);
    assert_eq!(
        cli_model_override(&a, "http://e", None, false),
        Err(ConfigError::CannotInferBackend("/m/q.bin".to_owned()))
    );
}

#[test]
fn old_defaults_are_recognised_by_name_or_path() {
    assert!(is_deprecated_default_model(&gguf("/m/qwen2.5-1.5b-instruct-q4.gguf")));
    let mut m = gguf("/m/Qwen2.5-0.5B-Instruct/model.gguf");
    m.name = "model.gguf".to_owned();
    assert!(is_deprecated_default_model(&m));
    assert!(!is_deprecated_default_model(&gguf("/m/Qwen3-8B-Q4_K_M.gguf")));
    assert!(is_deprecated_default_model(&ollama("Qwen2.5-0.5B-Instruct")));
}

#[test]
fn local_models_have_paths() {
    assert!(is_local_model(&gguf("/m/a.gguf")));
    assert_eq!(local_model_path(&gguf("/m/a.gguf")), Some("/m/a.gguf"));
    assert!(!is_local_model(&ollama("x")));
    assert_eq!(local_model_path(&ollama("x")), None);
    assert!(local_model_exists(&gguf("/m/a.gguf"), true));
    assert!(!local_model_exists(&ollama("x"), true));
}

#[test]
fn runtime_settings_fill_only_missing_values() {
    let m = apply_runtime_config(ollama("x"), "http://e", Some("/bin/l".to_owned()));
    assert_eq!(m.backend, ModelBackend::Ollama { model: "x".to_owned(), endpoint: Some("http://e".to_owned()) });
    let again = apply_runtime_config(m.clone(), "http://other", None);
    assert_eq!(again, m);
    let g = apply_runtime_config(gguf("/m/a.gguf"), "http://e", Some("/bin/l".to_owned()));
    assert_eq!(
        g.backend,
        ModelBackend::LlamaCpp { model_path: "/m/a.gguf".to_owned(), llama_cli: Some("/bin/l".to_owned()) }
    );
}

#[test]
fn run_settings_prefer_options_then_config() {
    let mut config = AppConfig::default();
    assert_eq!(lint_endpoint(&args(), &config), "http://localhost:11434");
    config.endpoint = Some("http://c".to_owned());
    config.llama_cli = Some("/bin/c".to_owned());
    let mut a = args();
    assert_eq!(lint_endpoint(&a, &config), "http://c");
    assert_eq!(lint_llama_cli(&a, &config), Some("/bin/c".to_owned()));
    a.llama_cli = Some("/bin/o".to_owned());
    assert_eq!(lint_llama_cli(&a, &config), Some("/bin/o".to_owned()));
    assert_eq!(selected_locale(&a, &config), GrammarLocale::En);
    a.pt_br = true;
    assert_eq!(selected_locale(&a, &config), GrammarLocale::PtBr);
    let mut a = args();
    a.model_dir = vec!["/a".to_owned()];
    assert_eq!(model_dirs(&a, &config, None), vec!["/a".to_owned()]);
}

#[test]
fn configuration_gives_way_when_its_model_is_unusable() {
    let bundled = Some(gguf("/b/bundled.llamafile"));
    let mut config = AppConfig::default();
    assert_eq!(preferred_config_model(&config, None, false, false), (None, None));

    config.selected_model = Some(gguf("/m/a.gguf"));
    assert_eq!(preferred_config_model(&config, None, true, false), (Some(gguf("/m/a.gguf")), None));
    let (m, w) = preferred_config_model(&config, bundled.clone(), false, false);
    assert_eq!(m, bundled);
    assert_eq!(w.unwrap(), "warning: configured local model is missing; ignoring `a.gguf (/m/a.gguf)`");

    config.selected_model = Some(gguf("/m/qwen2.5-1.5b-instruct.gguf"));
    let (m, w) = preferred_config_model(&config, None, true, false);
    assert_eq!(m, None);
    assert!(w.unwrap().ends_with("is the old weak default; opening setup for a better llama.cpp model"));

    config.selected_model = Some(ollama("llama3"));
    assert_eq!(preferred_config_model(&config, None, false, true), (Some(ollama("llama3")), None));
    let (m, w) = preferred_config_model(&config, None, false, false);
    assert_eq!(m, None);
    assert_eq!(
        w.unwrap(),
        "warning: configured Ollama model `llama3` is unavailable; using a local/downloaded model instead"
    );
}

#[test]
fn installed_means_listed() {
    let names = Some(vec!["a".to_owned(), "llama3".to_owned()]);
    assert!(ollama_model_is_installed(&names, "llama3"));
    assert!(!ollama_model_is_installed(&names, "llama"));
    assert!(!ollama_model_is_installed(&None, "llama3"));
}

#[test]
fn candidates_are_bundled_then_local_then_ollama() {
    let c = collect_model_candidates(
        Some(gguf("/b/bundled.gguf")),
        vec![gguf("/m/qwen2.5-1.5b-instruct.gguf"), gguf("/m/new.gguf")],
        Some(vec!["llama3".to_owned()]),
        "http://e",
    );
    let names: Vec<&str> = c.iter().map(|m| m.name.as_str()).collect();
    assert_eq!(names, ["bundled.gguf", "new.gguf", "llama3"]);
    assert_eq!(c[2].backend, ModelBackend::Ollama { model: "llama3".to_owned(), endpoint: Some("http://e".to_owned()) });
    assert!(collect_model_candidates(None, vec![], None, "http://e").is_empty());
}

#[test]
fn selection_is_saved_and_read_back() {
    let mut config = AppConfig::default();
    config.model = Some("legacy".to_owned());
    apply_selection(&mut config, gguf("/m/a.gguf"), "http://e", None, &vec!["/d".to_owned()], GrammarLocale::PtBr);
    assert_eq!(config.configured_model(), Some(gguf("/m/a.gguf")));
    assert_eq!(config.model, None);
    assert_eq!(config.endpoint.as_deref(), Some("http://e"));
    assert_eq!(config.locale, Some(GrammarLocale::PtBr));
    assert_eq!(config.model_dirs, vec!["/d".to_owned()]);
    assert_eq!(
        saved_message(&gguf("/m/a.gguf"), GrammarLocale::PtBr, "/c/config.toml"),
        "Saved model `a.gguf (/m/a.gguf)` and locale `pt-BR` to /c/config.toml"
    );
}

#[test]
fn input_comes_from_arguments_or_stdin() {
    assert_eq!(read_input(&vec!["i".to_owned(), "has".to_owned(), "a aplle".to_owned()], None).unwrap(), "i has a aplle");
    assert_eq!(read_input(&vec![], Some("text\r\n\n".to_owned())).unwrap(), "text");
    assert_eq!(read_input(&vec![], None).unwrap_err(), NO_INPUT_MESSAGE);
    assert!(require_text(" \n").is_err());
    assert_eq!(require_text("  ").unwrap_err(), "provide a non-empty string to fix");
    assert!(require_text(" a ").is_ok());
}

#[test]
fn run_flow_decisions() {
    let mut a = args();
    assert!(stops_after_config_path(&a));
    assert!(!wants_download(&a));
    a.download_url = Some("https://x/m.gguf".to_owned());
    assert!(wants_download(&a));
    assert!(stops_after_download(&a, true));
    assert!(!stops_after_download(&a, false));
    a.configure = true;
    assert!(!stops_after_config_path(&a));
    assert!(!stops_after_download(&a, true));
    assert!(stops_after_setup(&a, true));
    a.text = vec!["hi".to_owned()];
    assert!(!stops_after_setup(&a, true));
    assert!(needs_first_run_setup(&None, &None, &None, true));
    assert!(!needs_first_run_setup(&None, &None, &Some(ollama("x")), true));
    assert!(!needs_first_run_setup(&None, &None, &None, false));
}

#[test]
fn model_preference_order() {
    assert_eq!(model_for_text(None, Some(ollama("d")), Some(ollama("c"))), Some(ollama("d")));
    assert_eq!(model_for_text(Some(ollama("a")), Some(ollama("d")), None), Some(ollama("a")));
    assert_eq!(model_for_text(None, None, None), None);
    assert_eq!(model_for_path(None, None, None, Some(ollama("b"))), Some(ollama("b")));
    assert_eq!(model_for_path(None, None, Some(ollama("c")), Some(ollama("b"))), Some(ollama("c")));
}

#[test]
fn model_path_and_dirs_expand_to_the_given_home() {
    let mut a = args();
    a.model_path = Some("~/models/x.gguf".to_owned());
    assert_eq!(
        cli_model_override_in(&a, "http://e", None, false, Some("/home/u".to_owned())).unwrap().unwrap().backend,
        ModelBackend::LlamaCpp { model_path: "/home/u/models/x.gguf".to_owned(), llama_cli: None }
    );
    let mut a = args();
    a.model_dir = vec!["~/m".to_owned(), "/abs".to_owned()];
    assert_eq!(
        model_dirs_in(&a, &AppConfig::default(), None, Some("/home/u".to_owned()), None),
        vec!["/home/u/m".to_owned(), "/abs".to_owned()]
    );
    assert_eq!(
        model_dirs_in(&args(), &AppConfig::default(), Some("/w".to_owned()), None, Some("/d/models".to_owned())),
        vec!["/w/models".to_owned(), "/d/models".to_owned()]
    );
}
