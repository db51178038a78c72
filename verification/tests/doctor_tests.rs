use lint_lang::config::{AppConfig, ConfigError};
use lint_lang::doctor::{
    inspect_clipboard, inspect_config, inspect_local_model_file, inspect_locale, inspect_model, DoctorReport,
    DoctorStatus, FileProbe, ModelProbe,
};
use lint_lang::units::format_bytes;

#[test]
fn formats_report_with_fix_steps() {
    let mut report = DoctorReport::new();
    report.fail("Selected model", "none configured".to_owned(), Some("Run `lint-lang --configure`."));

    let rendered = report.render();

    assert!(rendered.contains("✗ Selected model: none configured"));
    assert!(rendered.contains("→ Run `lint-lang --configure`."));
    assert!(report.has_failures());
}

#[test]
fn reports_existing_local_model_file() {
    let path = "/tmp/lint-lang-doctor-existing-model.gguf";
    let mut report = DoctorReport::default();

    inspect_local_model_file(&mut report, path, FileProbe::File { len: 4 });

    assert_eq!(report.checks[0].status, DoctorStatus::Pass);
    assert!(report.checks[0].detail.contains("existing-model.gguf"));
}

#[test]
fn reports_missing_local_model_file() {
    let path = "/tmp/lint-lang-doctor-missing-model.gguf";
    let mut report = DoctorReport::default();

    inspect_local_model_file(
        &mut report,
        path,
        FileProbe::Unreadable("No such file or directory (os error 2)".to_owned()),
    );

    assert_eq!(report.checks[0].status, DoctorStatus::Fail);
    assert!(report.checks[0].detail.contains("missing-model.gguf"));
}

#[test]
fn formats_bytes_for_model_sizes() {
    assert_eq!(format_bytes(1024 * 1024 * 5), "5.0 MB");
}

#[test]
fn empty_and_odd_model_files_fail() {
    let mut report = DoctorReport::new();
    inspect_local_model_file(&mut report, "/m/a.gguf", FileProbe::File { len: 0 });
    inspect_local_model_file(&mut report, "/m", FileProbe::NotAFile);
    assert_eq!(report.checks[0].detail, "/m/a.gguf is empty");
    assert_eq!(report.checks[1].detail, "/m is not a file");
    assert!(report.checks.iter().all(|c| c.status == DoctorStatus::Fail));
}

#[test]
fn passing_checks_do_not_fail_the_report() {
    let mut report = DoctorReport::new();
    report.ok("A", "fine".to_owned());
    report.warn("B", "meh".to_owned(), None);
    assert!(!report.has_failures());
    assert_eq!(report.render(), "lint-lang doctor\n\n✓ A: fine\n! B: meh\n");
    report.fail("C", "bad".to_owned(), None);
    assert!(report.has_failures());
}

#[test]
fn missing_config_directory_fails_the_config_check() {
    let mut report = DoctorReport::new();
    let config = inspect_config(&mut report, Err(ConfigError::NoConfigDir), false, Err("unreadable".to_owned()));
    assert_eq!(config.configured_model(), None);
    assert_eq!(report.checks.len(), 2);
    assert!(report.checks.iter().all(|c| c.status == DoctorStatus::Fail));
    let mut report = DoctorReport::new();
    inspect_config(&mut report, Ok("/c/config.toml".to_owned()), false, Ok(AppConfig::default()));
    assert_eq!(report.checks[0].detail, "/c/config.toml");
    assert_eq!(report.checks[1].status, DoctorStatus::Warn);
    inspect_locale(&mut report, &AppConfig::default());
    assert_eq!(report.checks[2].detail, "en");
}

#[test]
fn missing_selection_fails_and_asks_nothing_more() {
    let mut report = DoctorReport::new();
    assert!(inspect_model(&mut report, None).is_none());
    assert_eq!(report.checks[0].detail, "none configured");
    let model = lint_lang::config::ConfiguredModel {
        name: "q".to_owned(),
        backend: lint_lang::config::ModelBackend::Llamafile { path: "/m/q.llamafile".to_owned() },
    };
    let probe = inspect_model(&mut report, Some(&model));
    assert!(matches!(probe, Some(ModelProbe::LocalFile(ref p)) if p == "/m/q.llamafile"));
}

#[test]
fn clipboard_failure_is_only_a_warning() {
    let mut report = DoctorReport::new();
    inspect_clipboard(&mut report, Err("no display".to_owned()));
    assert_eq!(report.checks[0].status, DoctorStatus::Warn);
    assert!(!report.has_failures());
}
