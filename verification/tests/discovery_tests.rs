use lint_lang::config::{ConfiguredModel, ModelBackend};
use lint_lang::discovery::{
    backend_rank, discover_local_models, model_from_file, sort_models, validate_local_model, within_scan_depth,
    ScannedFile, MAX_MODELS,
};

fn file(path: &str) -> ScannedFile {
    ScannedFile { path: path.to_owned(), canonical: Some(path.to_owned()) }
}

#[test]
fn discovers_gguf_and_llamafile_models() {
    let root = "/tmp/lint-lang-test";
    let files = vec![
        file(&format!("{root}/qwen.gguf")),
        file(&format!("{root}/qwen.llamafile")),
        file(&format!("{root}/notes.txt")),
    ];

    let models = discover_local_models(&files, Some("llama-cli".to_owned()));

    assert_eq!(models.len(), 2);
    assert!(matches!(models[0].backend, ModelBackend::Llamafile { .. }));
    assert!(models.iter().any(|model| matches!(model.backend, ModelBackend::Llamafile { .. })));
    assert!(models.iter().any(|model| matches!(model.backend, ModelBackend::LlamaCpp { .. })));
}

#[test]
fn same_canonical_file_is_listed_once() {
    let files = vec![
        ScannedFile { path: "/a/q.gguf".to_owned(), canonical: Some("/real/q.gguf".to_owned()) },
        ScannedFile { path: "/b/q.gguf".to_owned(), canonical: Some("/real/q.gguf".to_owned()) },
        ScannedFile { path: "/c/q.gguf".to_owned(), canonical: None },
    ];
    let models = discover_local_models(&files, None);
    assert_eq!(models.len(), 2);
    assert_eq!(
        models[0].backend,
        ModelBackend::LlamaCpp { model_path: "/a/q.gguf".to_owned(), llama_cli: None }
    );
}

#[test]
fn keeps_at_most_the_model_limit() {
    let files: Vec<ScannedFile> = (0..MAX_MODELS + 5).map(|i| file(&format!("/m/{i}.gguf"))).collect();
    assert_eq!(discover_local_models(&files, None).len(), MAX_MODELS);
}

#[test]
fn qwen_models_sort_first_then_llamafiles_then_by_name() {
    let mk = |name: &str, ext: &str| model_from_file(&format!("/m/{name}.{ext}"), None).unwrap();
    let mut models = vec![mk("zeta", "gguf"), mk("beta", "llamafile"), mk("alpha", "gguf"), mk("my-QWEN", "gguf")];
    sort_models(&mut models);
    let names: Vec<&str> = models.iter().map(|m| m.name.as_str()).collect();
    assert_eq!(names, ["my-QWEN.gguf", "beta.llamafile", "alpha.gguf", "zeta.gguf"]);
    assert_eq!(backend_rank(&models[1]), 0);
    assert_eq!(backend_rank(&models[2]), 1);
}

#[test]
fn only_model_files_become_models() {
    assert!(model_from_file("/m/notes.txt", None).is_none());
    assert_eq!(
        model_from_file("/m/q.GGUF", Some("/bin/llama".to_owned())),
        Some(ConfiguredModel {
            name: "q.GGUF".to_owned(),
            backend: ModelBackend::LlamaCpp { model_path: "/m/q.GGUF".to_owned(), llama_cli: Some("/bin/llama".to_owned()) },
        })
    );
}

#[test]
fn scan_depth_stops_below_three_levels() {
    assert!(within_scan_depth(3));
    assert!(!within_scan_depth(4));
}

#[test]
fn missing_local_model_fails_validation() {
    let lf = ConfiguredModel {
        name: "q".to_owned(),
        backend: ModelBackend::Llamafile { path: "/m/q.llamafile".to_owned() },
    };
    assert_eq!(validate_local_model(&lf, false).unwrap_err(), "llamafile not found: /m/q.llamafile");
    assert!(validate_local_model(&lf, true).is_ok());
    let gguf = ConfiguredModel {
        name: "q".to_owned(),
        backend: ModelBackend::LlamaCpp { model_path: "/m/q.gguf".to_owned(), llama_cli: None },
    };
    assert_eq!(validate_local_model(&gguf, false).unwrap_err(), "GGUF model not found: /m/q.gguf");
    let ollama = ConfiguredModel {
        name: "q".to_owned(),
        backend: ModelBackend::Ollama { model: "q".to_owned(), endpoint: None },
    };
    assert!(validate_local_model(&ollama, false).is_ok());
}
