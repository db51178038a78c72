use lint_lang::config::app_model_dir;
use lint_lang::config::ConfigError;
use lint_lang::download::{default_download_output_in, target_path_in};
use lint_lang::download::{
    check_download_complete, existing_file_is_complete, file_name_from_url, looks_like_model_file,
    needs_executable_bit, part_path, target_path, DownloadError, DEFAULT_MODEL_FILENAME,
};
use lint_lang::units::format_bytes;
use std::path::Path;

#[test]
fn extracts_file_name_from_url() {
    assert_eq!(
        file_name_from_url("https://example.com/models/qwen.llamafile?download=1").as_deref(),
        Some("qwen.llamafile")
    );
}

#[test]
fn treats_model_extension_as_output_file() {
    let path = target_path(
        Some("~/models/custom.llamafile".to_owned()),
        "https://example.com/qwen.llamafile",
        false,
    )
    .unwrap();

    assert!(Path::new(&path).ends_with("custom.llamafile"));
}

#[test]
fn treats_plain_output_as_directory() {
    let path = target_path(Some("models".to_owned()), "https://example.com/qwen.llamafile", false).unwrap();

    assert!(Path::new(&path).ends_with("models/qwen.llamafile"));
}

#[test]
fn formats_bytes() {
    assert_eq!(format_bytes(1024 * 1024), "1.0 MB");
}

#[test]
fn default_filename_is_a_gguf() {
    assert!(DEFAULT_MODEL_FILENAME.ends_with(".gguf"));
}

#[test]
fn url_without_file_name_gives_none() {
    assert_eq!(file_name_from_url("https://example.com/models/"), None);
    assert_eq!(file_name_from_url("https://example.com/a/b.gguf"), Some("b.gguf".to_owned()));
}

#[test]
fn existing_directory_receives_the_url_file_name() {
    let path = target_path(Some("/data/custom.gguf".to_owned()), "https://x/y/q.gguf?x=1", true).unwrap();
    assert_eq!(path, "/data/custom.gguf/q.gguf");
    let path = target_path(Some("/data".to_owned()), "https://x/y/", false).unwrap();
    assert_eq!(path, format!("/data/{DEFAULT_MODEL_FILENAME}"));
}

#[test]
fn model_file_names_are_recognised() {
    assert!(looks_like_model_file("a.gguf"));
    assert!(looks_like_model_file("a.LLAMAFILE"));
    assert!(looks_like_model_file("run.exe"));
    assert!(!looks_like_model_file("models"));
}

#[test]
fn part_file_sits_beside_the_target() {
    assert_eq!(part_path("/m/q.gguf").unwrap(), "/m/q.gguf.part");
    let err = part_path("/").unwrap_err();
    assert!(matches!(err, DownloadError::NoFileName(ref p) if p == "/"));
    assert_eq!(err.message(), "download target has no file name: /");
}

#[test]
fn existing_file_must_match_announced_length() {
    assert!(existing_file_is_complete(true, 10, Some(10)));
    assert!(!existing_file_is_complete(true, 9, Some(10)));
    assert!(existing_file_is_complete(true, 1, None));
    assert!(!existing_file_is_complete(true, 0, None));
    assert!(!existing_file_is_complete(false, 10, Some(10)));
}

#[test]
fn short_download_is_an_error() {
    assert!(check_download_complete(5, None).is_ok());
    assert!(check_download_complete(5, Some(5)).is_ok());
    let err = check_download_complete(1024, Some(2048)).unwrap_err();
    assert_eq!(err.message(), "incomplete model download: got 1.0 KB, expected 2.0 KB");
}

#[test]
fn only_gguf_weights_stay_non_executable() {
    assert!(!needs_executable_bit("/m/q.gguf"));
    assert!(needs_executable_bit("/m/q.llamafile"));
}

#[test]
fn platform_errors_keep_their_message() {
    assert_eq!(
        DownloadError::Config(lint_lang::config::ConfigError::NoDataDir).message(),
        "could not find an app data directory for this platform"
    );
}

#[test]
fn default_target_keeps_the_url_file_name() {
    let path = target_path(None, "https://example.com/qwen.llamafile", false).unwrap();
    assert_eq!(Path::new(&path).to_path_buf(), Path::new(&app_model_dir().unwrap()).join("qwen.llamafile"));
}

#[test]
fn target_follows_the_given_directories() {
    assert_eq!(
        target_path_in(None, "https://example.com/qwen.llamafile", false, None, Some("/data".to_owned())).unwrap(),
        "/data/models/qwen.llamafile"
    );
    assert_eq!(
        target_path_in(None, "https://example.com/", false, None, Some("/data".to_owned())).unwrap(),
        format!("/data/models/{DEFAULT_MODEL_FILENAME}")
    );
    assert_eq!(target_path_in(None, "https://x/q.gguf", false, None, None), Err(ConfigError::NoDataDir));
    assert_eq!(
        target_path_in(Some("~/m/custom.gguf".to_owned()), "https://x/q.gguf", false, Some("/home/u".to_owned()), None)
            .unwrap(),
        "/home/u/m/custom.gguf"
    );
    assert_eq!(
        target_path_in(Some("~/m".to_owned()), "https://x/q.gguf", false, Some("/home/u".to_owned()), None).unwrap(),
        "/home/u/m/q.gguf"
    );
    assert_eq!(
        default_download_output_in(Some("/data".to_owned())).unwrap(),
        format!("/data/models/{DEFAULT_MODEL_FILENAME}")
    );
    assert_eq!(default_download_output_in(None), Err(ConfigError::NoDataDir));
}
