//! The `doctor` report: the checks it holds, how it is rendered, and how each
//! probe of the environment becomes a check.
use vstd::prelude::*;
use crate::config::{
    opt_view, spec_config_error_message, spec_kind_label, AppConfig, BackendView,
    ConfigError, ConfiguredModel, ModelBackend, views,
};
use crate::prompt::{locale_label, GrammarLocale};
use crate::text::{from_chars, push_str_chars, to_chars};
use crate::units::{format_bytes, spec_format_bytes};

verus! {

/// The outcome of one check.
#[derive(Debug, Clone, Copy, PartialEq, Eq, Structural)]
pub enum DoctorStatus {
    Pass,
    Warn,
    Fail,
}

pub open spec fn spec_icon(s: DoctorStatus) -> Seq<char> {
    match s {
        DoctorStatus::Pass => "✓"@,
        DoctorStatus::Warn => "!"@,
        DoctorStatus::Fail => "✗"@,
    }
}

impl DoctorStatus {
    /// The symbol printed before a check.
    pub fn icon(self) -> (r: &'static str)
        ensures
            r@ == spec_icon(self),
    {
        match self {
            DoctorStatus::Pass => "✓",
            DoctorStatus::Warn => "!",
            DoctorStatus::Fail => "✗",
        }
    }
}

/// One line of the report, with an optional suggested fix.
#[derive(Debug)]
pub struct DoctorCheck {
    pub status: DoctorStatus,
    pub name: String,
    pub detail: String,
    pub fix: Option<String>,
}

/// A check in terms of characters.
pub struct CheckView {
    pub status: DoctorStatus,
    pub name: Seq<char>,
    pub detail: Seq<char>,
    pub fix: Option<Seq<char>>,
}

impl View for DoctorCheck {
    type V = CheckView;

    open spec fn view(&self) -> CheckView {
        CheckView {
            status: self.status,
            name: self.name@,
            detail: self.detail@,
            fix: opt_view(self.fix),
        }
    }
}

/// The checks `doctor` ran, in order.
#[derive(Debug)]
pub struct DoctorReport {
    pub checks: Vec<DoctorCheck>,
}

impl View for DoctorReport {
    type V = Seq<CheckView>;

    open spec fn view(&self) -> Seq<CheckView> {
        self.checks@.map_values(|c: DoctorCheck| c@)
    }
}

pub open spec fn check(status: DoctorStatus, name: Seq<char>, detail: Seq<char>, fix: Option<Seq<char>>) -> CheckView {
    CheckView { status, name, detail, fix }
}

/// Some check failed.
pub open spec fn spec_has_failures(checks: Seq<CheckView>) -> bool {
    exists|i: int| 0 <= i < checks.len() && checks[i].status == DoctorStatus::Fail
}

/// The lines printed for one check: `{icon} {name}: {detail}` and, when there
/// is a fix, `  → {fix}`.
pub open spec fn check_lines(c: CheckView) -> Seq<char> {
    let head = spec_icon(c.status) + " "@ + c.name + ": "@ + c.detail + "\n"@;
    match c.fix {
        Some(f) => head + "  → "@ + f + "\n"@,
        None => head,
    }
}

pub open spec fn render_checks(checks: Seq<CheckView>) -> Seq<char>
    decreases checks.len(),
{
    if checks.len() == 0 {
        Seq::empty()
    } else {
        render_checks(checks.drop_last()) + check_lines(checks.last())
    }
}

/// The printed report: a title, a blank line, then each check.
pub open spec fn spec_render(checks: Seq<CheckView>) -> Seq<char> {
    "lint-lang doctor\n\n"@ + render_checks(checks)
}

fn opt_string(o: Option<&str>) -> (r: Option<String>)
    ensures
        opt_view(r) == crate::config::opt_str_view(o),
{
    match o {
        Some(s) => Some(String::from_str(s)),
        None => None,
    }
}

impl DoctorReport {
    /// A report without checks.
    pub fn new() -> (r: Self)
        ensures
            r@ == Seq::<CheckView>::empty(),
    {
        let r = DoctorReport { checks: Vec::new() };
        assert(r@ =~= Seq::<CheckView>::empty());
        r
    }

    /// Whether some check failed.
    pub fn has_failures(&self) -> (r: bool)
        ensures
            r == spec_has_failures(self@),
    {
        let mut i: usize = 0;
        while i < self.checks.len()
            invariant
                i <= self.checks.len(),
                forall|j: int| 0 <= j < i ==> self@[j].status != DoctorStatus::Fail,
            decreases self.checks.len() - i,
        {
            if self.checks[i].status == DoctorStatus::Fail {
                assert(self@[i as int].status == DoctorStatus::Fail);
                return true;
            }
            i = i + 1;
        }
        false
    }

    fn push(&mut self, status: DoctorStatus, name: &str, detail: String, fix: Option<&str>)
        ensures
            final(self)@ == old(self)@.push(
                check(status, name@, detail@, crate::config::opt_str_view(fix)),
            ),
    {
        let c = DoctorCheck { status, name: String::from_str(name), detail, fix: opt_string(fix) };
        self.checks.push(c);
        assert(self@ =~= old(self)@.push(
            check(status, name@, detail@, crate::config::opt_str_view(fix)),
        ));
    }

    /// Records a passed check.
    pub fn ok(&mut self, name: &str, detail: String)
        ensures
            final(self)@ == old(self)@.push(check(DoctorStatus::Pass, name@, detail@, None)),
    {
        self.push(DoctorStatus::Pass, name, detail, None);
    }

    /// Records a warning, with an optional fix.
    pub fn warn(&mut self, name: &str, detail: String, fix: Option<&str>)
        ensures
            final(self)@ == old(self)@.push(
                check(DoctorStatus::Warn, name@, detail@, crate::config::opt_str_view(fix)),
            ),
    {
        self.push(DoctorStatus::Warn, name, detail, fix);
    }

    /// Records a failed check, with an optional fix.
    pub fn fail(&mut self, name: &str, detail: String, fix: Option<&str>)
        ensures
            final(self)@ == old(self)@.push(
                check(DoctorStatus::Fail, name@, detail@, crate::config::opt_str_view(fix)),
            ),
    {
        self.push(DoctorStatus::Fail, name, detail, fix);
    }

    /// The report as printed.
    pub fn render(&self) -> (r: String)
        ensures
            r@ == spec_render(self@),
    {
        let mut out: Vec<char> = Vec::new();
        push_str_chars(&mut out, "lint-lang doctor\n\n");
        let ghost head = out@;
        let mut i: usize = 0;
        assert(self@.take(0) =~= Seq::<CheckView>::empty());
        while i < self.checks.len()
            invariant
                i <= self.checks.len(),
                head == "lint-lang doctor\n\n"@,
                out@ == head + render_checks(self@.take(i as int)),
            decreases self.checks.len() - i,
        {
            let c = &self.checks[i];
            push_str_chars(&mut out, c.status.icon());
            push_str_chars(&mut out, " ");
            push_str_chars(&mut out, c.name.as_str());
            push_str_chars(&mut out, ": ");
            push_str_chars(&mut out, c.detail.as_str());
            push_str_chars(&mut out, "\n");
            if let Some(f) = &c.fix {
                push_str_chars(&mut out, "  → ");
                push_str_chars(&mut out, f.as_str());
                push_str_chars(&mut out, "\n");
            }
            assert(self@.take(i + 1).drop_last() =~= self@.take(i as int));
            assert(self@.take(i + 1).last() == c@);
            assert(out@ =~= head + render_checks(self@.take(i + 1)));
            i = i + 1;
        }
        assert(self@.take(self.checks.len() as int) =~= self@);
        from_chars(&out)
    }
}

impl Default for DoctorReport {
    fn default() -> (r: Self)
        ensures
            r@ == Seq::<CheckView>::empty(),
    {
        DoctorReport::new()
    }
}

/// A report gains a failure when a failed check is recorded, and keeps its
/// failures when anything else is recorded.
pub proof fn lemma_failures_accumulate(checks: Seq<CheckView>, c: CheckView)
    ensures
        c.status == DoctorStatus::Fail ==> spec_has_failures(checks.push(c)),
        spec_has_failures(checks) ==> spec_has_failures(checks.push(c)),
        c.status != DoctorStatus::Fail ==> (spec_has_failures(checks.push(c)) == spec_has_failures(
            checks,
        )),
{
    if c.status == DoctorStatus::Fail {
        assert(checks.push(c)[checks.len() as int].status == DoctorStatus::Fail);
    }
    if spec_has_failures(checks) {
        let i = choose|i: int| 0 <= i < checks.len() && checks[i].status == DoctorStatus::Fail;
        assert(checks.push(c)[i].status == DoctorStatus::Fail);
    }
    if c.status != DoctorStatus::Fail && spec_has_failures(checks.push(c)) {
        let i = choose|i: int|
            0 <= i < checks.len() + 1 && checks.push(c)[i].status == DoctorStatus::Fail;
        assert(checks[i].status == DoctorStatus::Fail);
    }
}

/// A string made of `a` then `b`.
fn cat2(a: &str, b: &str) -> (r: String)
    ensures
        r@ == a@ + b@,
{
    let mut out = to_chars(a);
    push_str_chars(&mut out, b);
    from_chars(&out)
}

/// A string made of `a`, `b`, `c` and `d`.
fn cat4(a: &str, b: &str, c: &str, d: &str) -> (r: String)
    ensures
        r@ == a@ + b@ + c@ + d@,
{
    let mut out = to_chars(a);
    push_str_chars(&mut out, b);
    push_str_chars(&mut out, c);
    push_str_chars(&mut out, d);
    from_chars(&out)
}

/// The checks recorded for the configuration file: its path (or why there is
/// none), whether it exists, and whether it could be read.
pub open spec fn spec_config_checks(
    path: Result<Seq<char>, Seq<char>>,
    file_exists: bool,
    load_error: Option<Seq<char>>,
) -> Seq<CheckView> {
    let a = match path {
        Ok(p) => if file_exists {
            seq![
                check(DoctorStatus::Pass, "Config path"@, p, None),
                check(DoctorStatus::Pass, "Config file"@, "found"@, None),
            ]
        } else {
            seq![
                check(DoctorStatus::Pass, "Config path"@, p, None),
                check(
                    DoctorStatus::Warn,
                    "Config file"@,
                    "not created yet"@,
                    Some("Run `lint-lang --configure` or `lint-lang --download-model`."@),
                ),
            ]
        },
        Err(msg) => seq![
            check(
                DoctorStatus::Fail,
                "Config path"@,
                msg,
                Some("Check your platform config directory permissions."@),
            ),
        ],
    };
    match load_error {
        Some(msg) => a.push(
            check(
                DoctorStatus::Fail,
                "Config file"@,
                msg,
                Some("Fix or remove the config file, then run `lint-lang --configure`."@),
            ),
        ),
        None => a,
    }
}

/// Records the configuration checks. `path` is where the configuration file
/// lives, `file_exists` whether it is there, and `loaded` what reading it
/// gave. Returns the configuration read, or the default one.
pub fn inspect_config(
    report: &mut DoctorReport,
    path: Result<String, ConfigError>,
    file_exists: bool,
    loaded: Result<AppConfig, String>,
) -> (r: AppConfig)
    ensures
        final(report)@ == old(report)@ + spec_config_checks(
            match path {
                Ok(p) => Ok(p@),
                Err(e) => Err(spec_config_error_message(e@)),
            },
            file_exists,
            match loaded {
                Ok(_) => None,
                Err(m) => Some(m@),
            },
        ),
        loaded matches Ok(c) ==> r == c,
        loaded is Err ==> r@ == AppConfig::default_view(),
{
    let ghost start = report@;
    match path {
        Ok(p) => {
            report.ok("Config path", p);
            if file_exists {
                report.ok("Config file", String::from_str("found"));
            } else {
                report.warn(
                    "Config file",
                    String::from_str("not created yet"),
                    Some("Run `lint-lang --configure` or `lint-lang --download-model`."),
                );
            }
        },
        Err(e) => {
            report.fail(
                "Config path",
                e.message(),
                Some("Check your platform config directory permissions."),
            );
        },
    }
    let ghost mid = report@;
    let r = match loaded {
        Ok(config) => config,
        Err(msg) => {
            report.fail(
                "Config file",
                msg,
                Some("Fix or remove the config file, then run `lint-lang --configure`."),
            );
            AppConfig::default()
        },
    };
    assert(report@ =~= old(report)@ + spec_config_checks(
        match path {
            Ok(p) => Ok(p@),
            Err(e) => Err(spec_config_error_message(e@)),
        },
        file_exists,
        match loaded {
            Ok(_) => None,
            Err(m) => Some(m@),
        },
    ));
    r
}

pub open spec fn locale_or_default(l: Option<GrammarLocale>) -> GrammarLocale {
    match l {
        Some(x) => x,
        None => GrammarLocale::En,
    }
}

/// Records the locale in use (English when none is configured).
pub fn inspect_locale(report: &mut DoctorReport, config: &AppConfig)
    ensures
        final(report)@ == old(report)@.push(
            check(DoctorStatus::Pass, "Locale"@, locale_label(locale_or_default(config.locale)), None),
        ),
{
    let locale = match config.locale {
        Some(l) => l,
        None => GrammarLocale::default(),
    };
    report.ok("Locale", String::from_str(locale.label()));
}

/// What must be probed to check the selected model.
#[derive(Debug)]
pub enum ModelProbe {
    /// The model file at this path.
    LocalFile(String),
    /// This model at the Ollama endpoint.
    Ollama(String),
}

/// Records the selected model and its backend, and says what to probe next;
/// a missing selection is a failure.
pub fn inspect_model(report: &mut DoctorReport, selected_model: Option<&ConfiguredModel>) -> (r:
    Option<ModelProbe>)
    ensures
        selected_model is None ==> r is None && final(report)@ == old(report)@.push(
            check(
                DoctorStatus::Fail,
                "Selected model"@,
                "none configured"@,
                Some("Run `lint-lang --configure` or `lint-lang --download-model`."@),
            ),
        ),
        selected_model matches Some(m) ==> final(report)@ == old(report)@.push(
            check(DoctorStatus::Pass, "Selected model"@, m.name@, None),
        ).push(check(DoctorStatus::Pass, "Backend"@, spec_kind_label(m.backend@), None)),
        selected_model matches Some(m) ==> match m.backend@ {
            BackendView::Llamafile { path } => r matches Some(ModelProbe::LocalFile(p)) && p@ == path,
            BackendView::LlamaCpp { model_path, .. } => r matches Some(ModelProbe::LocalFile(p))
                && p@ == model_path,
            BackendView::Ollama { model, .. } => r matches Some(ModelProbe::Ollama(n)) && n@
                == model,
        },
{
    match selected_model {
        None => {
            report.fail(
                "Selected model",
                String::from_str("none configured"),
                Some("Run `lint-lang --configure` or `lint-lang --download-model`."),
            );
            None
        },
        Some(model) => {
            report.ok("Selected model", model.name.clone());
            report.ok("Backend", String::from_str(model.backend.kind_label()));
            match &model.backend {
                ModelBackend::Llamafile { path } => Some(ModelProbe::LocalFile(path.clone())),
                ModelBackend::LlamaCpp { model_path, .. } => Some(
                    ModelProbe::LocalFile(model_path.clone()),
                ),
                ModelBackend::Ollama { model, .. } => Some(ModelProbe::Ollama(model.clone())),
            }
        },
    }
}

/// What the file system reported about a model file.
#[derive(Debug)]
pub enum FileProbe {
    /// A regular file of this many bytes.
    File { len: u64 },
    /// Something that is not a regular file.
    NotAFile,
    /// The file could not be inspected, for this reason.
    Unreadable(String),
}

pub open spec fn spec_model_file_check(path: Seq<char>, probe: FileProbe) -> CheckView {
    match probe {
        FileProbe::File { len } => if len > 0 {
            check(
                DoctorStatus::Pass,
                "Model file"@,
                path + " ("@ + spec_format_bytes(len as nat) + ")"@,
                None,
            )
        } else {
            check(
                DoctorStatus::Fail,
                "Model file"@,
                path + " is empty"@,
                Some("Re-download the model with `lint-lang --download-model --force-download`."@),
            )
        },
        FileProbe::NotAFile => check(
            DoctorStatus::Fail,
            "Model file"@,
            path + " is not a file"@,
            Some("Configure a GGUF file with `lint-lang --configure --model-path <path>`."@),
        ),
        FileProbe::Unreadable(e) => check(
            DoctorStatus::Fail,
            "Model file"@,
            path + " ("@ + e@ + ")"@,
            Some("Run `lint-lang --download-model` or configure an existing GGUF file."@),
        ),
    }
}

/// Records whether the local model file is usable: a non-empty regular file.
pub fn inspect_local_model_file(report: &mut DoctorReport, path: &str, probe: FileProbe)
    ensures
        final(report)@ == old(report)@.push(spec_model_file_check(path@, probe)),
{
    let ghost pv = probe;
    match probe {
        FileProbe::File { len } => {
            if len > 0 {
                let size = format_bytes(len);
                report.ok("Model file", cat4(path, " (", size.as_str(), ")"));
            } else {
                report.fail(
                    "Model file",
                    cat2(path, " is empty"),
                    Some("Re-download the model with `lint-lang --download-model --force-download`."),
                );
            }
        },
        FileProbe::NotAFile => {
            report.fail(
                "Model file",
                cat2(path, " is not a file"),
                Some("Configure a GGUF file with `lint-lang --configure --model-path <path>`."),
            );
        },
        FileProbe::Unreadable(e) => {
            report.fail(
                "Model file",
                cat4(path, " (", e.as_str(), ")"),
                Some("Run `lint-lang --download-model` or configure an existing GGUF file."),
            );
        },
    }
}

/// Whether some entry of `names` equals `name`.
pub fn contains_name(names: &Vec<String>, name: &str) -> (r: bool)
    ensures
        r == (exists|i: int| 0 <= i < names@.len() && names@[i]@ == name@),
{
    let mut i: usize = 0;
    while i < names.len()
        invariant
            i <= names.len(),
            forall|j: int| 0 <= j < i ==> names@[j]@ != name@,
        decreases names.len() - i,
    {
        if crate::text::str_eq(names[i].as_str(), name) {
            return true;
        }
        i = i + 1;
    }
    false
}

pub open spec fn spec_ollama_check(
    endpoint: Seq<char>,
    model_name: Seq<char>,
    listed: Result<Seq<Seq<char>>, Seq<char>>,
) -> CheckView {
    match listed {
        Ok(models) => if models.contains(model_name) {
            check(DoctorStatus::Pass, "Ollama model"@, model_name + " at "@ + endpoint, None)
        } else {
            check(
                DoctorStatus::Fail,
                "Ollama model"@,
                model_name + " is not installed at "@ + endpoint,
                Some("Install it with `ollama pull <model>` or configure a local GGUF model."@),
            )
        },
        Err(e) => check(
            DoctorStatus::Warn,
            "Ollama endpoint"@,
            endpoint + " ("@ + e + ")"@,
            Some("Ignore this if you use native GGUF. Otherwise start Ollama."@),
        ),
    }
}

/// The Ollama check passes exactly when the configured model is among
/// those the endpoint lists; a missing model fails the check, and the
/// report then has failures. A listing that could not be had only warns.
pub proof fn lemma_ollama_check_status(
    checks: Seq<CheckView>,
    endpoint: Seq<char>,
    model_name: Seq<char>,
    listed: Result<Seq<Seq<char>>, Seq<char>>,
)
    ensures
        listed matches Ok(models) ==> (spec_ollama_check(endpoint, model_name, listed).status
            == DoctorStatus::Pass <==> models.contains(model_name)),
        listed matches Ok(models) ==> (!models.contains(model_name) <==> spec_ollama_check(
            endpoint,
            model_name,
            listed,
        ).status == DoctorStatus::Fail),
        listed matches Ok(models) && !models.contains(model_name) ==> spec_has_failures(
            checks.push(spec_ollama_check(endpoint, model_name, listed)),
        ),
        listed is Err ==> spec_ollama_check(endpoint, model_name, listed).status
            == DoctorStatus::Warn,
{
    lemma_failures_accumulate(checks, spec_ollama_check(endpoint, model_name, listed));
}

/// Records whether the configured Ollama model is installed, given what
/// listing the endpoint's models gave.
pub fn inspect_ollama_model(
    report: &mut DoctorReport,
    endpoint: &str,
    model_name: &str,
    listed: Result<Vec<String>, String>,
)
    ensures
        final(report)@ == old(report)@.push(
            spec_ollama_check(
                endpoint@,
                model_name@,
                match listed {
                    Ok(v) => Ok(views(v@)),
                    Err(e) => Err(e@),
                },
            ),
        ),
{
    match listed {
        Ok(models) => {
            let found = contains_name(&models, model_name);
            proof {
                if found {
                    let i = choose|i: int| 0 <= i < models@.len() && models@[i]@ == model_name@;
                    assert(views(models@)[i] == model_name@);
                }
                if views(models@).contains(model_name@) {
                    let i = choose|i: int|
                        0 <= i < views(models@).len() && views(models@)[i] == model_name@;
                    assert(models@[i]@ == model_name@);
                }
            }
            if found {
                report.ok("Ollama model", cat4(model_name, " at ", endpoint, ""));
                proof {
                    assert(""@ =~= Seq::<char>::empty()) by {
                        reveal_strlit("");
                    }
                    assert(model_name@ + " at "@ + endpoint@ + ""@ =~= model_name@ + " at "@
                        + endpoint@);
                }
            } else {
                report.fail(
                    "Ollama model",
                    cat4(model_name, " is not installed at ", endpoint, ""),
                    Some("Install it with `ollama pull <model>` or configure a local GGUF model."),
                );
                proof {
                    assert(""@ =~= Seq::<char>::empty()) by {
                        reveal_strlit("");
                    }
                    assert(model_name@ + " is not installed at "@ + endpoint@ + ""@ =~= model_name@
                        + " is not installed at "@ + endpoint@);
                }
            }
        },
        Err(e) => {
            report.warn(
                "Ollama endpoint",
                cat4(endpoint, " (", e.as_str(), ")"),
                Some("Ignore this if you use native GGUF. Otherwise start Ollama."),
            );
        },
    }
}

pub open spec fn spec_default_path_checks(
    app_dir: Result<Seq<char>, Seq<char>>,
    download: Result<Seq<char>, Seq<char>>,
    download_exists: bool,
) -> Seq<CheckView> {
    seq![
        match app_dir {
            Ok(p) => check(DoctorStatus::Pass, "Default model directory"@, p, None),
            Err(e) => check(
                DoctorStatus::Warn,
                "Default model directory"@,
                e,
                Some("Check your platform data directory permissions."@),
            ),
        },
        match download {
            Ok(p) => if download_exists {
                check(DoctorStatus::Pass, "Default Qwen3 model"@, p, None)
            } else {
                check(
                    DoctorStatus::Warn,
                    "Default Qwen3 model"@,
                    p + " is not downloaded"@,
                    Some("Run `lint-lang --download-model`."@),
                )
            },
            Err(e) => check(DoctorStatus::Warn, "Default Qwen3 model"@, e, None),
        },
    ]
}

/// Records the default model directory and whether the default model is
/// downloaded there, given the two locations and whether the model file exists.
pub fn inspect_default_model_path(
    report: &mut DoctorReport,
    app_dir: Result<String, ConfigError>,
    download_output: Result<String, ConfigError>,
    download_exists: bool,
)
    ensures
        final(report)@ == old(report)@ + spec_default_path_checks(
            match app_dir {
                Ok(p) => Ok(p@),
                Err(e) => Err(spec_config_error_message(e@)),
            },
            match download_output {
                Ok(p) => Ok(p@),
                Err(e) => Err(spec_config_error_message(e@)),
            },
            download_exists,
        ),
{
    match app_dir {
        Ok(p) => report.ok("Default model directory", p),
        Err(e) => report.warn(
            "Default model directory",
            e.message(),
            Some("Check your platform data directory permissions."),
        ),
    }
    match download_output {
        Ok(p) => {
            if download_exists {
                report.ok("Default Qwen3 model", p);
            } else {
                report.warn(
                    "Default Qwen3 model",
                    cat2(p.as_str(), " is not downloaded"),
                    Some("Run `lint-lang --download-model`."),
                );
            }
        },
        Err(e) => report.warn("Default Qwen3 model", e.message(), None),
    }
    assert(report@ =~= old(report)@ + spec_default_path_checks(
        match app_dir {
            Ok(p) => Ok(p@),
            Err(e) => Err(spec_config_error_message(e@)),
        },
        match download_output {
            Ok(p) => Ok(p@),
            Err(e) => Err(spec_config_error_message(e@)),
        },
        download_exists,
    ));
}

pub open spec fn spec_native_check(init: Result<bool, Seq<char>>) -> CheckView {
    match init {
        Ok(true) => check(DoctorStatus::Pass, "Native llama.cpp"@, "GPU offload available"@, None),
        Ok(false) => check(
            DoctorStatus::Warn,
            "Native llama.cpp"@,
            "GPU offload unavailable; CPU inference will work but may be slow"@,
            None,
        ),
        Err(e) => check(
            DoctorStatus::Warn,
            "Native llama.cpp"@,
            e,
            Some("Retry in a fresh process if another llama.cpp session is active."@),
        ),
    }
}

/// Records what starting native llama.cpp gave: whether GPU offload is
/// available, or why it could not start.
pub fn inspect_native_backend(report: &mut DoctorReport, init: Result<bool, String>)
    ensures
        final(report)@ == old(report)@.push(
            spec_native_check(
                match init {
                    Ok(b) => Ok(b),
                    Err(e) => Err(e@),
                },
            ),
        ),
{
    match init {
        Ok(true) => report.ok("Native llama.cpp", String::from_str("GPU offload available")),
        Ok(false) => report.warn(
            "Native llama.cpp",
            String::from_str("GPU offload unavailable; CPU inference will work but may be slow"),
            None,
        ),
        Err(e) => report.warn(
            "Native llama.cpp",
            e,
            Some("Retry in a fresh process if another llama.cpp session is active."),
        ),
    }
}

/// Records whether the system clipboard could be opened.
pub fn inspect_clipboard(report: &mut DoctorReport, opened: Result<(), String>)
    ensures
        final(report)@ == old(report)@.push(
            match opened {
                Ok(_) => check(DoctorStatus::Pass, "Clipboard"@, "available"@, None),
                Err(e) => check(
                    DoctorStatus::Warn,
                    "Clipboard"@,
                    e@,
                    Some("Use `--no-clipboard` to skip clipboard writes."@),
                ),
            },
        ),
{
    match opened {
        Ok(_) => report.ok("Clipboard", String::from_str("available")),
        Err(e) => report.warn(
            "Clipboard",
            e,
            Some("Use `--no-clipboard` to skip clipboard writes."),
        ),
    }
}

} // verus!
