use lint_lang::config::expand_home_in;
use lint_lang::config::{app_model_dir, app_project_id, config_path};
use lint_lang::config::{app_model_dir_in, config_path_in, model_dirs_from};
use lint_lang::config::configured_model_from_path_in;
use lint_lang::config::{
    configured_model_from_path, expand_home, extension_is, AppConfig, ConfigError, ConfiguredModel,
    ModelBackend,
};
use lint_lang::prompt::GrammarLocale;

#[test]
fn infers_gguf_as_llama_cpp() {
    let model = configured_model_from_path("qwen.gguf".to_owned(), None, None, false).unwrap();

    assert!(matches!(model.backend, ModelBackend::LlamaCpp { .. }));
}

#[test]
fn infers_llamafile_as_binary() {
    let model = configured_model_from_path("qwen.llamafile".to_owned(), None, None, false).unwrap();

    assert!(matches!(model.backend, ModelBackend::Llamafile { .. }));
}

#[test]
fn expands_home_prefix() {
    let expanded = expand_home("~/models/qwen.gguf".to_owned());

    assert!(!expanded.starts_with('~'));
}

#[test]
fn leaves_paths_without_tilde_unchanged() {
    assert_eq!(expand_home("models/qwen.gguf".to_owned()), "models/qwen.gguf");
    assert_eq!(expand_home("/abs/~/x".to_owned()), "/abs/~/x");
}

#[test]
fn executable_file_without_known_extension_is_a_llamafile() {
    let model = configured_model_from_path("/opt/m/qwen-run".to_owned(), None, None, true).unwrap();
    assert_eq!(
        model,
        ConfiguredModel {
            name: "qwen-run".to_owned(),
            backend: ModelBackend::Llamafile { path: "/opt/m/qwen-run".to_owned() },
        }
    );
}

#[test]
fn unknown_file_cannot_be_inferred() {
    let err = configured_model_from_path("/opt/m/notes.txt".to_owned(), None, None, false).unwrap_err();
    assert_eq!(err, ConfigError::CannotInferBackend("/opt/m/notes.txt".to_owned()));
    assert!(err.message().contains("/opt/m/notes.txt"));
}

#[test]
fn unknown_backend_name_is_refused() {
    let err = configured_model_from_path("/m/a.gguf".to_owned(), Some("vllm"), None, false).unwrap_err();
    assert_eq!(err, ConfigError::UnsupportedBackend("vllm".to_owned()));
}

#[test]
fn explicit_backend_overrides_extension() {
    let model =
        configured_model_from_path("/m/a.bin".to_owned(), Some("llama-cpp"), Some("/bin/llama".to_owned()), false)
            .unwrap();
    assert_eq!(
        model.backend,
        ModelBackend::LlamaCpp { model_path: "/m/a.bin".to_owned(), llama_cli: Some("/bin/llama".to_owned()) }
    );
    assert_eq!(model.name, "a.bin");
}

#[test]
fn extension_check_ignores_ascii_case() {
    assert!(extension_is("/m/Qwen.GGUF", "gguf"));
    assert!(!extension_is("/m/gguf", "gguf"));
    assert!(!extension_is("/m/a.gguf.part", "gguf"));
}

#[test]
fn labels_name_where_the_model_lives() {
    let local = ConfiguredModel {
        name: "qwen.gguf".to_owned(),
        backend: ModelBackend::LlamaCpp { model_path: "/m/qwen.gguf".to_owned(), llama_cli: None },
    };
    assert_eq!(local.label(), "qwen.gguf (/m/qwen.gguf)");
    assert_eq!(local.backend.kind_label(), "GGUF + native llama.cpp");
    let ollama = ConfiguredModel {
        name: "x".to_owned(),
        backend: ModelBackend::Ollama { model: "llama3".to_owned(), endpoint: None },
    };
    assert_eq!(ollama.label(), "llama3 (Ollama)");
    assert_eq!(ollama.backend.kind_label(), "Ollama daemon");
}

#[test]
fn legacy_model_name_migrates_to_ollama() {
    let mut config = AppConfig::default();
    config.model = Some("llama3".to_owned());
    config.endpoint = Some("http://host:1".to_owned());
    assert_eq!(
        config.configured_model(),
        Some(ConfiguredModel {
            name: "llama3".to_owned(),
            backend: ModelBackend::Ollama { model: "llama3".to_owned(), endpoint: Some("http://host:1".to_owned()) },
        })
    );
    config.locale = Some(GrammarLocale::PtBr);
    assert_eq!(AppConfig::default().configured_model(), None);
}

#[test]
fn configured_model_dirs_are_deduplicated() {
    let mut config = AppConfig::default();
    config.model_dirs = vec!["/a".to_owned(), "/b".to_owned(), "/a".to_owned()];
    assert_eq!(config.model_dirs_or_defaults(None), vec!["/a".to_owned(), "/b".to_owned()]);
}

#[test]
fn default_model_dirs_include_the_working_directory_models() {
    let config = AppConfig::default();
    let dirs = config.model_dirs_or_defaults(Some("/work".to_owned()));
    assert!(dirs.contains(&"/work/models".to_owned()));
    let mut seen = std::collections::HashSet::new();
    assert!(dirs.iter().all(|d| seen.insert(d.clone())));
}

#[test]
fn each_config_error_has_its_message() {
    assert_eq!(ConfigError::NoConfigDir.message(), "could not find a config directory for this platform");
    assert_eq!(ConfigError::NoDataDir.message(), "could not find an app data directory for this platform");
    assert_eq!(ConfigError::UnsupportedBackend("x".to_owned()).message(), "unsupported local backend `x`");
    assert_eq!(
        ConfigError::CannotInferBackend("/m/a".to_owned()).message(),
        "could not infer local model backend for /m/a; use --backend llamafile or --backend llama-cpp"
    );
}

#[test]
fn home_expansion_follows_the_given_home() {
    assert_eq!(expand_home_in("~/models/qwen.gguf".to_owned(), Some("/home/u".to_owned())), "/home/u/models/qwen.gguf");
    assert_eq!(expand_home_in("~".to_owned(), Some("/home/u".to_owned())), "/home/u");
    assert_eq!(expand_home_in("~/x".to_owned(), None), "~/x");
    assert_eq!(expand_home_in("~user/x".to_owned(), Some("/home/u".to_owned())), "~user/x");
}

#[test]
fn platform_paths_follow_the_given_directories() {
    assert_eq!(config_path_in(Some("/c".to_owned())).unwrap(), "/c/config.toml");
    assert_eq!(config_path_in(None), Err(ConfigError::NoConfigDir));
    assert_eq!(app_model_dir_in(Some("/d".to_owned())).unwrap(), "/d/models");
    assert_eq!(app_model_dir_in(None), Err(ConfigError::NoDataDir));
    assert_eq!(
        model_dirs_from(Some("/w".to_owned()), Some("/h".to_owned()), Some("/d/models".to_owned())),
        vec!["/w/models".to_owned(), "/h/models".to_owned(), "/d/models".to_owned()]
    );
    assert_eq!(
        model_dirs_from(Some("/h".to_owned()), Some("/h".to_owned()), None),
        vec!["/h/models".to_owned()]
    );
    let config = AppConfig::default();
    assert_eq!(
        config.model_dirs_or_defaults_in(None, Some("/h".to_owned()), None),
        vec!["/h/models".to_owned()]
    );
}

#[test]
fn model_path_tilde_expands_to_the_given_home() {
    let model =
        configured_model_from_path_in("~/models/x.gguf".to_owned(), None, None, false, Some("/home/u".to_owned()))
            .unwrap();
    assert_eq!(
        model.backend,
        ModelBackend::LlamaCpp { model_path: "/home/u/models/x.gguf".to_owned(), llama_cli: None }
    );
    assert_eq!(model.name, "x.gguf");
}

#[test]
fn directories_differing_only_in_separators_count_once() {
    let mut config = AppConfig::default();
    config.model_dirs = vec!["/a/b".to_owned(), "/a//b/".to_owned(), "./a".to_owned(), "a".to_owned()];
    assert_eq!(
        config.model_dirs_or_defaults(None),
        vec!["/a/b".to_owned(), "./a".to_owned(), "a".to_owned()]
    );
}

#[test]
fn app_project_id_names_lint_lang() {
    assert_eq!(app_project_id(), ("com", "caio", "lint-lang"));
}

#[test]
fn platform_paths_hold_the_application_name() {
    if let Ok(p) = config_path() {
        assert!(p.contains("lint-lang") && p.ends_with("config.toml"));
    }
    if let Ok(p) = app_model_dir() {
        assert!(p.contains("lint-lang") && p.ends_with("models"));
    }
}
