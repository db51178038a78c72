use lint_lang::bundled::bundled_model_path_in;
use lint_lang::config::ConfigError;
use lint_lang::bundled::{bundled_file_name, configured_model, make_executable_if_needed, should_extract};

#[test]
fn this_build_ships_no_model() {
    assert_eq!(configured_model(None), Ok(None));
}

#[test]
fn bundled_file_keeps_its_source_name() {
    assert_eq!(bundled_file_name("/build/qwen.llamafile"), "qwen.llamafile");
    assert_eq!(bundled_file_name("/"), "bundled-model.llamafile");
}

#[test]
fn extracts_unless_same_length_file_exists() {
    assert!(should_extract(None, 10));
    assert!(should_extract(Some(9), 10));
    assert!(!should_extract(Some(10), 10));
}

#[test]
fn gguf_weights_are_not_made_executable() {
    assert_eq!(make_executable_if_needed("/m/q.gguf", 0o644), None);
    assert_eq!(make_executable_if_needed("/m/q.llamafile", 0o600), Some(0o755));
    assert_eq!(make_executable_if_needed("/m/q.llamafile", 0o4600), Some(0o4755));
}

#[test]
fn bundled_path_follows_the_data_directory() {
    assert_eq!(
        bundled_model_path_in(Some("/d".to_owned()), "q.llamafile").unwrap(),
        "/d/bundled-model/q.llamafile"
    );
    assert_eq!(bundled_model_path_in(None, "q.llamafile"), Err(ConfigError::NoDataDir));
}
