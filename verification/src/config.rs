//! The saved configuration and the model it selects: backends, labels,
//! model directories, and how a local model file is turned into a model.
use vstd::prelude::*;
use crate::dirs::{base_dirs_new, base_home_dir, plain_app_name, project_dirs_from};
use crate::path::{
    path_key, same_path_exec, PathKey, eq_ignore_ascii_case_chars, extension_chars, file_name, file_name_chars, has_extension, join,
    path_join,
};
use crate::prompt::GrammarLocale;
use crate::text::{from_chars, occurs, push_str_chars, slice_of, starts_with, str_eq, to_chars};

verus! {

pub const DEFAULT_ENDPOINT: &'static str = "http://localhost:11434";

pub const DEFAULT_LLAMA_CLI: &'static str = "llama-cli";

/// The characters of an optional string.
pub open spec fn opt_view(o: Option<String>) -> Option<Seq<char>> {
    match o {
        Some(s) => Some(s@),
        None => None,
    }
}

/// The characters of an optional string slice.
pub open spec fn opt_str_view(o: Option<&str>) -> Option<Seq<char>> {
    match o {
        Some(s) => Some(s@),
        None => None,
    }
}

/// The characters of each string.
pub open spec fn views(v: Seq<String>) -> Seq<Seq<char>> {
    v.map_values(|s: String| s@)
}

/// What a backend is, in terms of characters.
pub enum BackendView {
    Llamafile { path: Seq<char> },
    LlamaCpp { model_path: Seq<char>, llama_cli: Option<Seq<char>> },
    Ollama { model: Seq<char>, endpoint: Option<Seq<char>> },
}

/// What a configured model is, in terms of characters.
pub struct ModelView {
    pub name: Seq<char>,
    pub backend: BackendView,
}

/// How a model is run.
#[derive(Debug, PartialEq, Eq, Hash)]
pub enum ModelBackend {
    /// A self-contained llamafile executable. This is the closest option to a model binary.
    Llamafile { path: String },
    /// A GGUF weights file executed through a local llama.cpp binary.
    LlamaCpp { model_path: String, llama_cli: Option<String> },
    /// Legacy daemon mode through Ollama's local HTTP API.
    Ollama { model: String, endpoint: Option<String> },
}

impl View for ModelBackend {
    type V = BackendView;

    open spec fn view(&self) -> BackendView {
        match self {
            ModelBackend::Llamafile { path } => BackendView::Llamafile { path: path@ },
            ModelBackend::LlamaCpp { model_path, llama_cli } => BackendView::LlamaCpp {
                model_path: model_path@,
                llama_cli: opt_view(*llama_cli),
            },
            ModelBackend::Ollama { model, endpoint } => BackendView::Ollama {
                model: model@,
                endpoint: opt_view(*endpoint),
            },
        }
    }
}

/// What `==` on backends compares: paths by their components, other text
/// as it is.
pub enum BackendKey {
    Llamafile { path: PathKey },
    LlamaCpp { model_path: PathKey, llama_cli: Option<PathKey> },
    Ollama { model: Seq<char>, endpoint: Option<Seq<char>> },
}

/// What `==` on models compares: the name, and the backend's key.
pub struct ModelKey {
    pub name: Seq<char>,
    pub backend: BackendKey,
}

pub open spec fn opt_path_key(o: Option<Seq<char>>) -> Option<PathKey> {
    match o {
        Some(p) => Some(path_key(p)),
        None => None,
    }
}

pub open spec fn backend_key(b: BackendView) -> BackendKey {
    match b {
        BackendView::Llamafile { path } => BackendKey::Llamafile { path: path_key(path) },
        BackendView::LlamaCpp { model_path, llama_cli } => BackendKey::LlamaCpp {
            model_path: path_key(model_path),
            llama_cli: opt_path_key(llama_cli),
        },
        BackendView::Ollama { model, endpoint } => BackendKey::Ollama { model, endpoint },
    }
}

pub open spec fn model_key(m: ModelView) -> ModelKey {
    ModelKey { name: m.name, backend: backend_key(m.backend) }
}

/// Whether two optional paths are both absent or the same path.
fn opt_path_eq(a: &Option<String>, b: &Option<String>) -> (r: bool)
    ensures
        r == (opt_path_key(opt_view(*a)) == opt_path_key(opt_view(*b))),
{
    match (a, b) {
        (Some(x), Some(y)) => same_path_exec(x.as_str(), y.as_str()),
        (None, None) => true,
        _ => false,
    }
}

/// A copy of an optional string.
pub fn clone_opt(o: &Option<String>) -> (r: Option<String>)
    ensures
        r == *o,
{
    match o {
        Some(s) => Some(s.clone()),
        None => None,
    }
}

/// Whether two optional strings hold the same characters.
pub fn opt_str_eq(a: &Option<String>, b: &Option<String>) -> (r: bool)
    ensures
        r == (opt_view(*a) == opt_view(*b)),
{
    match (a, b) {
        (Some(x), Some(y)) => *x == *y,
        (None, None) => true,
        _ => false,
    }
}

impl Clone for ModelBackend {
    fn clone(&self) -> (r: Self)
        ensures
            r == *self,
    {
        match self {
            ModelBackend::Llamafile { path } => ModelBackend::Llamafile { path: path.clone() },
            ModelBackend::LlamaCpp { model_path, llama_cli } => ModelBackend::LlamaCpp {
                model_path: model_path.clone(),
                llama_cli: clone_opt(llama_cli),
            },
            ModelBackend::Ollama { model, endpoint } => ModelBackend::Ollama {
                model: model.clone(),
                endpoint: clone_opt(endpoint),
            },
        }
    }
}

pub open spec fn spec_kind_label(b: BackendView) -> Seq<char> {
    match b {
        BackendView::Llamafile { .. } => "llamafile binary"@,
        BackendView::LlamaCpp { llama_cli: Some(_), .. } => "GGUF + llama-cli"@,
        BackendView::LlamaCpp { .. } => "GGUF + native llama.cpp"@,
        BackendView::Ollama { .. } => "Ollama daemon"@,
    }
}

impl ModelBackend {
    /// A short description of how the model runs.
    pub fn kind_label(&self) -> (r: &'static str)
        ensures
            r@ == spec_kind_label(self@),
    {
        match self {
            ModelBackend::Llamafile { .. } => "llamafile binary",
            ModelBackend::LlamaCpp { llama_cli: Some(_), .. } => "GGUF + llama-cli",
            ModelBackend::LlamaCpp { .. } => "GGUF + native llama.cpp",
            ModelBackend::Ollama { .. } => "Ollama daemon",
        }
    }

    /// Whether two backends are the same, paths compared by their components.
    pub fn same_as(&self, other: &ModelBackend) -> (r: bool)
        ensures
            r == (backend_key(self@) == backend_key(other@)),
    {
        match (self, other) {
            (ModelBackend::Llamafile { path: a }, ModelBackend::Llamafile { path: b }) => same_path_exec(
                a.as_str(),
                b.as_str(),
            ),
            (
                ModelBackend::LlamaCpp { model_path: a, llama_cli: x },
                ModelBackend::LlamaCpp { model_path: b, llama_cli: y },
            ) => same_path_exec(a.as_str(), b.as_str()) && opt_path_eq(x, y),
            (
                ModelBackend::Ollama { model: a, endpoint: x },
                ModelBackend::Ollama { model: b, endpoint: y },
            ) => *a == *b && opt_str_eq(x, y),
            _ => false,
        }
    }
}

/// A model that lint-lang can run, with the name shown for it.
#[derive(Debug, PartialEq, Eq, Hash)]
pub struct ConfiguredModel {
    pub name: String,
    pub backend: ModelBackend,
}

impl View for ConfiguredModel {
    type V = ModelView;

    open spec fn view(&self) -> ModelView {
        ModelView { name: self.name@, backend: self.backend@ }
    }
}

impl Clone for ConfiguredModel {
    fn clone(&self) -> (r: Self)
        ensures
            r == *self,
    {
        ConfiguredModel { name: self.name.clone(), backend: self.backend.clone() }
    }
}

/// The characters of an optional model.
pub open spec fn opt_model_view(o: Option<ConfiguredModel>) -> Option<ModelView> {
    match o {
        Some(m) => Some(m@),
        None => None,
    }
}

/// The characters of an optional borrowed model.
pub open spec fn opt_ref_view(o: Option<&ConfiguredModel>) -> Option<ModelView> {
    match o {
        Some(c) => Some(c@),
        None => None,
    }
}

pub open spec fn spec_model_label(m: ModelView) -> Seq<char> {
    match m.backend {
        BackendView::Llamafile { path } => m.name + " ("@ + path + ")"@,
        BackendView::LlamaCpp { model_path, .. } => m.name + " ("@ + model_path + ")"@,
        BackendView::Ollama { model, .. } => model + " (Ollama)"@,
    }
}

impl ConfiguredModel {
    /// The model's name with where it lives: its path, or "(Ollama)".
    pub fn label(&self) -> (r: String)
        ensures
            r@ == spec_model_label(self@),
    {
        let mut out: Vec<char> = Vec::new();
        match &self.backend {
            ModelBackend::Llamafile { path } => {
                push_str_chars(&mut out, self.name.as_str());
                push_str_chars(&mut out, " (");
                push_str_chars(&mut out, path.as_str());
                push_str_chars(&mut out, ")");
            },
            ModelBackend::LlamaCpp { model_path, .. } => {
                push_str_chars(&mut out, self.name.as_str());
                push_str_chars(&mut out, " (");
                push_str_chars(&mut out, model_path.as_str());
                push_str_chars(&mut out, ")");
            },
            ModelBackend::Ollama { model, .. } => {
                push_str_chars(&mut out, model.as_str());
                push_str_chars(&mut out, " (Ollama)");
            },
        }
        assert(out@ =~= spec_model_label(self@));
        from_chars(&out)
    }

    /// Whether two models are the same: the same name and backend, paths
    /// compared by their components.
    pub fn same_as(&self, other: &ConfiguredModel) -> (r: bool)
        ensures
            r == (model_key(self@) == model_key(other@)),
    {
        self.name == other.name && self.backend.same_as(&other.backend)
    }
}

/// What the configuration holds, in terms of characters.
pub struct ConfigView {
    pub selected_model: Option<ModelView>,
    pub endpoint: Option<Seq<char>>,
    pub llama_cli: Option<Seq<char>>,
    pub locale: Option<GrammarLocale>,
    pub model_dirs: Seq<Seq<char>>,
    pub model: Option<Seq<char>>,
}

/// The saved configuration.
#[derive(Debug)]
pub struct AppConfig {
    pub selected_model: Option<ConfiguredModel>,
    pub endpoint: Option<String>,
    pub llama_cli: Option<String>,
    pub locale: Option<GrammarLocale>,
    pub model_dirs: Vec<String>,
    /// Legacy config from the first Ollama-only version. Kept so existing configs migrate.
    pub model: Option<String>,
}

impl View for AppConfig {
    type V = ConfigView;

    open spec fn view(&self) -> ConfigView {
        ConfigView {
            selected_model: opt_model_view(self.selected_model),
            endpoint: opt_view(self.endpoint),
            llama_cli: opt_view(self.llama_cli),
            locale: self.locale,
            model_dirs: views(self.model_dirs@),
            model: opt_view(self.model),
        }
    }
}

impl AppConfig {
    /// What the default configuration holds.
    pub open spec fn default_view() -> ConfigView {
        ConfigView {
            selected_model: None,
            endpoint: None,
            llama_cli: None,
            locale: None,
            model_dirs: Seq::empty(),
            model: None,
        }
    }
}

impl Default for AppConfig {
    fn default() -> (r: Self)
        ensures
            r.selected_model is None,
            r.endpoint is None,
            r.llama_cli is None,
            r.locale is None,
            r.model_dirs@.len() == 0,
            r.model is None,
            r@ == AppConfig::default_view(),
    {
        let r = AppConfig {
            selected_model: None,
            endpoint: None,
            llama_cli: None,
            locale: None,
            model_dirs: Vec::new(),
            model: None,
        };
        assert(r@.model_dirs =~= Seq::<Seq<char>>::empty());
        r
    }
}

/// The model a configuration selects: the saved selection, else the legacy
/// Ollama model name with the configured endpoint.
pub open spec fn spec_configured_model(c: ConfigView) -> Option<ModelView> {
    match c.selected_model {
        Some(m) => Some(m),
        None => match c.model {
            Some(name) => Some(
                ModelView {
                    name: name,
                    backend: BackendView::Ollama { model: name, endpoint: c.endpoint },
                },
            ),
            None => None,
        },
    }
}

/// Why a configuration step failed.
#[derive(Debug, PartialEq, Eq)]
pub enum ConfigError {
    /// The platform reports no config directory.
    NoConfigDir,
    /// The platform reports no app data directory.
    NoDataDir,
    /// An explicit backend name that lint-lang does not know.
    UnsupportedBackend(String),
    /// A local model file whose backend cannot be told from its name.
    CannotInferBackend(String),
}

/// What a configuration error is, in terms of characters.
pub enum ConfigErrorView {
    NoConfigDir,
    NoDataDir,
    UnsupportedBackend(Seq<char>),
    CannotInferBackend(Seq<char>),
}

impl View for ConfigError {
    type V = ConfigErrorView;

    open spec fn view(&self) -> ConfigErrorView {
        match self {
            ConfigError::NoConfigDir => ConfigErrorView::NoConfigDir,
            ConfigError::NoDataDir => ConfigErrorView::NoDataDir,
            ConfigError::UnsupportedBackend(b) => ConfigErrorView::UnsupportedBackend(b@),
            ConfigError::CannotInferBackend(p) => ConfigErrorView::CannotInferBackend(p@),
        }
    }
}

pub open spec fn spec_config_error_message(e: ConfigErrorView) -> Seq<char> {
    match e {
        ConfigErrorView::NoConfigDir => "could not find a config directory for this platform"@,
        ConfigErrorView::NoDataDir => "could not find an app data directory for this platform"@,
        ConfigErrorView::UnsupportedBackend(b) => "unsupported local backend `"@ + b + "`"@,
        ConfigErrorView::CannotInferBackend(p) => "could not infer local model backend for "@ + p
            + "; use --backend llamafile or --backend llama-cpp"@,
    }
}

impl ConfigError {
    /// The message shown for this error.
    pub fn message(&self) -> (r: String)
        ensures
            r@ == spec_config_error_message(self@),
    {
        let mut out: Vec<char> = Vec::new();
        match self {
            ConfigError::NoConfigDir => {
                push_str_chars(&mut out, "could not find a config directory for this platform");
            },
            ConfigError::NoDataDir => {
                push_str_chars(&mut out, "could not find an app data directory for this platform");
            },
            ConfigError::UnsupportedBackend(b) => {
                push_str_chars(&mut out, "unsupported local backend `");
                push_str_chars(&mut out, b.as_str());
                push_str_chars(&mut out, "`");
            },
            ConfigError::CannotInferBackend(p) => {
                push_str_chars(&mut out, "could not infer local model backend for ");
                push_str_chars(&mut out, p.as_str());
                push_str_chars(&mut out, "; use --backend llamafile or --backend llama-cpp");
            },
        }
        assert(out@ =~= spec_config_error_message(self@));
        from_chars(&out)
    }
}

/// A copy of a list of strings.
pub fn clone_strings(v: &Vec<String>) -> (r: Vec<String>)
    ensures
        r@ == v@,
{
    let mut r: Vec<String> = Vec::new();
    let mut i: usize = 0;
    while i < v.len()
        invariant
            i <= v.len(),
            r@ == v@.take(i as int),
        decreases v.len() - i,
    {
        r.push(v[i].clone());
        i = i + 1;
        assert(r@ =~= v@.take(i as int));
    }
    assert(v@.take(v@.len() as int) =~= v@);
    r
}

/// The component form of each path.
pub open spec fn path_keys(s: Seq<Seq<char>>) -> Seq<PathKey> {
    s.map_values(|p: Seq<char>| path_key(p))
}

/// `s` without repeated paths (paths with the same components), each kept
/// where it first occurs.
pub open spec fn dedup(s: Seq<Seq<char>>) -> Seq<Seq<char>>
    decreases s.len(),
{
    if s.len() == 0 {
        s
    } else {
        let d = dedup(s.drop_last());
        if path_keys(d).contains(path_key(s.last())) {
            d
        } else {
            d.push(s.last())
        }
    }
}

proof fn lemma_views_push(s: Seq<String>, x: String)
    ensures
        views(s.push(x)) == views(s).push(x@),
{
    assert(views(s.push(x)) =~= views(s).push(x@));
}

proof fn lemma_path_keys_push(s: Seq<Seq<char>>, x: Seq<char>)
    ensures
        path_keys(s.push(x)) == path_keys(s).push(path_key(x)),
{
    assert(path_keys(s.push(x)) =~= path_keys(s).push(path_key(x)));
}

/// Whether `v` holds a path with the same components as `x`.
pub fn contains_path(v: &Vec<String>, x: &String) -> (r: bool)
    ensures
        r == path_keys(views(v@)).contains(path_key(x@)),
{
    let mut j: usize = 0;
    while j < v.len()
        invariant
            j <= v.len(),
            forall|k: int| 0 <= k < j ==> path_key(v@[k]@) != path_key(x@),
        decreases v.len() - j,
    {
        if same_path_exec(v[j].as_str(), x.as_str()) {
            assert(path_keys(views(v@))[j as int] == path_key(x@));
            return true;
        }
        j = j + 1;
    }
    assert forall|k: int| 0 <= k < path_keys(views(v@)).len() implies path_keys(views(v@))[k]
        != path_key(x@) by {
        assert(path_keys(views(v@))[k] == path_key(v@[k]@));
    }
    false
}

/// Removes repeated paths, keeping each where it first occurs; paths with
/// the same components count as the same.
pub fn dedup_paths(paths: Vec<String>) -> (r: Vec<String>)
    ensures
        views(r@) == dedup(views(paths@)),
{
    let mut out: Vec<String> = Vec::new();
    let mut i: usize = 0;
    assert(views(paths@).take(0) =~= Seq::<Seq<char>>::empty());
    assert(views(out@) =~= Seq::<Seq<char>>::empty());
    while i < paths.len()
        invariant
            i <= paths.len(),
            views(out@) == dedup(views(paths@).take(i as int)),
        decreases paths.len() - i,
    {
        let ghost before = views(paths@).take(i as int);
        let ghost after = views(paths@).take(i + 1);
        assert(after.drop_last() =~= before);
        assert(after.last() == paths@[i as int]@);
        if !contains_path(&out, &paths[i]) {
            let p = paths[i].clone();
            proof {
                lemma_views_push(out@, p);
            }
            out.push(p);
        }
        i = i + 1;
    }
    assert(views(paths@).take(paths@.len() as int) =~= views(paths@));
    out
}

proof fn lemma_contains_push<A>(d: Seq<A>, y: A, x: A)
    ensures
        d.push(y).contains(x) <==> (d.contains(x) || x == y),
{
    if d.push(y).contains(x) && x != y {
        let k = choose|k: int| 0 <= k < d.len() + 1 && d.push(y)[k] == x;
        assert(d[k] == x);
    }
    if d.contains(x) {
        let k = choose|k: int| 0 <= k < d.len() && d[k] == x;
        assert(d.push(y)[k] == x);
    }
    if x == y {
        assert(d.push(y)[d.len() as int] == x);
    }
}

/// No two paths in `dedup(s)` have the same components, and it holds a
/// path with given components exactly when `s` does.
pub proof fn lemma_dedup_unique_and_complete(s: Seq<Seq<char>>)
    ensures
        path_keys(dedup(s)).no_duplicates(),
        forall|k: PathKey| path_keys(dedup(s)).contains(k) <==> path_keys(s).contains(k),
    decreases s.len(),
{
    if s.len() > 0 {
        let t = s.drop_last();
        lemma_dedup_unique_and_complete(t);
        let d = dedup(t);
        let y = s.last();
        assert(s =~= t.push(y));
        lemma_path_keys_push(t, y);
        lemma_path_keys_push(d, y);
        assert forall|k: PathKey| path_keys(dedup(s)).contains(k) <==> path_keys(s).contains(k) by {
            lemma_contains_push(path_keys(t), path_key(y), k);
            lemma_contains_push(path_keys(d), path_key(y), k);
        }
        if !path_keys(d).contains(path_key(y)) {
            let kd = path_keys(d);
            assert forall|i: int, j: int|
                0 <= i < kd.len() + 1 && 0 <= j < kd.len() + 1 && i != j implies kd.push(
                path_key(y),
            )[i] != kd.push(path_key(y))[j] by {
                if i == kd.len() {
                    assert(kd[j] != path_key(y));
                } else if j == kd.len() {
                    assert(kd[i] != path_key(y));
                }
            }
        }
    }
}

/// Removing repeats from paths that all differ changes nothing.
pub proof fn lemma_dedup_of_unique(s: Seq<Seq<char>>)
    requires
        path_keys(s).no_duplicates(),
    ensures
        dedup(s) == s,
    decreases s.len(),
{
    if s.len() > 0 {
        let t = s.drop_last();
        assert(path_keys(t) =~= path_keys(s).drop_last());
        lemma_dedup_of_unique(t);
        lemma_dedup_unique_and_complete(t);
        if path_keys(dedup(t)).contains(path_key(s.last())) {
            let k = choose|k: int| 0 <= k < t.len() && path_keys(t)[k] == path_key(s.last());
            assert(path_keys(s)[k] == path_keys(s)[s.len() - 1]);
        }
        assert(t.push(s.last()) =~= s);
    }
}

/// Removing repeated paths twice gives what removing them once gave.
pub proof fn lemma_dedup_idempotent(s: Seq<Seq<char>>)
    ensures
        dedup(dedup(s)) == dedup(s),
{
    lemma_dedup_unique_and_complete(s);
    lemma_dedup_of_unique(dedup(s));
}

impl AppConfig {
    /// The model this configuration selects: the saved selection, else a
    /// legacy Ollama model name migrated to an Ollama model.
    pub fn configured_model(&self) -> (r: Option<ConfiguredModel>)
        ensures
            opt_model_view(r) == spec_configured_model(self@),
    {
        match &self.selected_model {
            Some(m) => Some(m.clone()),
            None => match &self.model {
                Some(name) => Some(
                    ConfiguredModel {
                        name: name.clone(),
                        backend: ModelBackend::Ollama {
                            model: name.clone(),
                            endpoint: clone_opt(&self.endpoint),
                        },
                    },
                ),
                None => None,
            },
        }
    }

    /// The configured model directories without repeats, or the default
    /// directories when none are configured: `models` under the working
    /// directory `current_dir` and under the home directory `home`, and the
    /// app's model directory `app_models`, each when it is known.
    pub fn model_dirs_or_defaults_in(
        &self,
        current_dir: Option<String>,
        home: Option<String>,
        app_models: Option<String>,
    ) -> (r: Vec<String>)
        ensures
            self.model_dirs@.len() > 0 ==> views(r@) == dedup(views(self.model_dirs@)),
            self.model_dirs@.len() == 0 ==> views(r@) == dedup(
                default_dir_candidates(opt_view(current_dir), opt_view(home), opt_view(app_models)),
            ),
    {
        if self.model_dirs.len() == 0 {
            return model_dirs_from(current_dir, home, app_models);
        }
        dedup_paths(clone_strings(&self.model_dirs))
    }

    /// The configured model directories without repeats, or the default
    /// directories when none are configured, with the home directory and
    /// the app's model directory as the platform reports them.
    /// `current_dir` is the process's working directory, when it is known.
    pub fn model_dirs_or_defaults(&self, current_dir: Option<String>) -> (r: Vec<String>)
        ensures
            self.model_dirs@.len() > 0 ==> views(r@) == dedup(views(self.model_dirs@)),
            self.model_dirs@.len() == 0 ==> exists|h: Option<Seq<char>>, a: Option<Seq<char>>|
                app_models_dir(a) && views(r@) == dedup(
                    default_dir_candidates(opt_view(current_dir), h, a),
                ),
    {
        if self.model_dirs.len() == 0 {
            return default_model_dirs(current_dir);
        }
        dedup_paths(clone_strings(&self.model_dirs))
    }
}

/// `p` with a leading `~` expanded to `home`, when a home directory is known.
pub open spec fn expand_home_with(p: Seq<char>, home: Option<Seq<char>>) -> Seq<char> {
    if p == seq!['~'] {
        match home {
            Some(h) => h,
            None => p,
        }
    } else if starts_with(p, seq!['~', '/']) {
        match home {
            Some(h) => join(h, p.skip(2)),
            None => p,
        }
    } else {
        p
    }
}

/// The user's home directory, when the platform reports one.
pub(crate) fn home_dir() -> Option<String> {
    match base_dirs_new() {
        Some(d) => Some(base_home_dir(&d)),
        None => None,
    }
}

/// The home directory, looked up only for a path that starts with `~`.
pub(crate) fn home_for(path: &str) -> Option<String> {
    let v = to_chars(path);
    if v.len() > 0 && v[0] == '~' {
        home_dir()
    } else {
        None
    }
}

/// The project the platform directories are looked up for: qualifier,
/// organization and application name.
pub open spec fn spec_app_project_id() -> (Seq<char>, Seq<char>, Seq<char>) {
    ("com"@, "caio"@, "lint-lang"@)
}

/// The project the platform directories are looked up for: `com`, `caio`,
/// `lint-lang` (on macOS this makes `com.caio.lint-lang`).
pub fn app_project_id() -> (r: (&'static str, &'static str, &'static str))
    ensures
        r.0@ == "com"@,
        r.1@ == "caio"@,
        r.2@ == "lint-lang"@,
        (r.0@, r.1@, r.2@) == spec_app_project_id(),
{
    ("com", "caio", "lint-lang")
}

/// A directory the platform reports for this app: its path holds the
/// application name of `app_project_id`.
pub open spec fn app_dir(d: Seq<char>) -> bool {
    occurs(d, spec_app_project_id().2)
}

/// The app's model directory as the platform reports it, when it reports one.
pub open spec fn app_models_dir(a: Option<Seq<char>>) -> bool {
    a matches Some(x) ==> exists|d: Seq<char>| app_dir(d) && x == join(d, "models"@)
}

proof fn lemma_app_name_is_plain()
    ensures
        plain_app_name(spec_app_project_id().2),
{
    reveal_strlit("lint-lang");
    let a = spec_app_project_id().2;
    assert(a =~= seq!['l', 'i', 'n', 't', '-', 'l', 'a', 'n', 'g']);
}

/// The platform's directories for this app (config, data), when there are
/// any: looked up for `app_project_id`.
fn platform_dirs() -> (r: Option<(String, String)>)
    ensures
        r matches Some(dirs) ==> app_dir(dirs.0@) && app_dir(dirs.1@),
{
    let (qualifier, organization, application) = app_project_id();
    proof {
        lemma_app_name_is_plain();
    }
    project_dirs_from(qualifier, organization, application)
}

/// The platform's config directory for this app, when there is one.
fn platform_config_dir() -> (r: Option<String>)
    ensures
        r matches Some(d) ==> app_dir(d@),
{
    match platform_dirs() {
        Some(dirs) => Some(dirs.0),
        None => None,
    }
}

/// The platform's data directory for this app, when there is one.
pub(crate) fn platform_data_dir() -> (r: Option<String>)
    ensures
        r matches Some(d) ==> app_dir(d@),
{
    match platform_dirs() {
        Some(dirs) => Some(dirs.1),
        None => None,
    }
}

/// Expands a leading `~` or `~/` to `home`; other paths, and every path
/// when no home directory is known, are returned unchanged.
pub fn expand_home_in(path: String, home: Option<String>) -> (r: String)
    ensures
        r@ == expand_home_with(path@, opt_view(home)),
{
    let v = to_chars(path.as_str());
    if v.len() == 1 && v[0] == '~' {
        assert(v@ =~= seq!['~']);
        return match home {
            Some(h) => h,
            None => path,
        };
    }
    if v.len() >= 2 && v[0] == '~' && v[1] == '/' {
        assert(starts_with(v@, seq!['~', '/'])) by {
            assert(v@.take(2) =~= seq!['~', '/']);
        }
        return match home {
            Some(h) => {
                let rest = from_chars(&slice_of(&v, 2, v.len()));
                assert(rest@ =~= path@.skip(2));
                path_join(h.as_str(), rest.as_str())
            },
            None => path,
        };
    }
    proof {
        if path@ == seq!['~'] {
            assert(v@[0] == '~');
        }
        if starts_with(path@, seq!['~', '/']) {
            assert(path@.take(2)[0] == '~' && path@.take(2)[1] == '/');
        }
    }
    path
}

/// Expands a leading `~` or `~/` to the home directory the platform
/// reports. Other paths are returned unchanged.
pub fn expand_home(path: String) -> (r: String)
    ensures
        exists|h: Option<Seq<char>>| r@ == expand_home_with(path@, h),
        !(path@.len() > 0 && path@[0] == '~') ==> r@ == path@,
{
    let home = home_for(path.as_str());
    let ghost hv = opt_view(home);
    let r = expand_home_in(path, home);
    proof {
        if !(path@.len() > 0 && path@[0] == '~') {
            if path@ == seq!['~'] {
                assert(path@[0] == '~');
            }
            if starts_with(path@, seq!['~', '/']) {
                assert(path@.take(2)[0] == '~');
            }
        }
    }
    r
}

/// The configuration file's path inside the config directory `config_dir`;
/// without one there is none.
pub fn config_path_in(config_dir: Option<String>) -> (r: Result<String, ConfigError>)
    ensures
        match config_dir {
            Some(d) => (r matches Ok(p) && p@ == join(d@, "config.toml"@)),
            None => r == Err::<String, ConfigError>(ConfigError::NoConfigDir),
        },
{
    match config_dir {
        Some(d) => Ok(path_join(d.as_str(), "config.toml")),
        None => Err(ConfigError::NoConfigDir),
    }
}

/// The path of the configuration file, inside the platform config directory.
pub fn config_path() -> (r: Result<String, ConfigError>)
    ensures
        r matches Ok(p) ==> exists|d: Seq<char>| app_dir(d) && p@ == join(d, "config.toml"@),
        r matches Err(e) ==> e == ConfigError::NoConfigDir,
{
    config_path_in(platform_config_dir())
}

/// The directory where downloaded models are kept inside the data
/// directory `data_dir`; without one there is none.
pub fn app_model_dir_in(data_dir: Option<String>) -> (r: Result<String, ConfigError>)
    ensures
        match data_dir {
            Some(d) => (r matches Ok(p) && p@ == join(d@, "models"@)),
            None => r == Err::<String, ConfigError>(ConfigError::NoDataDir),
        },
{
    match data_dir {
        Some(d) => Ok(path_join(d.as_str(), "models")),
        None => Err(ConfigError::NoDataDir),
    }
}

/// The directory where downloaded models are kept, inside the platform data directory.
pub fn app_model_dir() -> (r: Result<String, ConfigError>)
    ensures
        r matches Ok(p) ==> exists|d: Seq<char>| app_dir(d) && p@ == join(d, "models"@),
        r matches Err(e) ==> e == ConfigError::NoDataDir,
{
    app_model_dir_in(platform_data_dir())
}

/// `s` with `x` appended when there is one.
pub open spec fn push_some(s: Seq<Seq<char>>, x: Option<Seq<char>>) -> Seq<Seq<char>> {
    match x {
        Some(v) => s.push(v),
        None => s,
    }
}

/// `models` under `d`, when `d` is known.
pub open spec fn models_under(d: Option<Seq<char>>) -> Option<Seq<char>> {
    match d {
        Some(v) => Some(join(v, "models"@)),
        None => None,
    }
}

/// The default model directories before repeats are removed: `models`
/// under the working directory, `models` under the home directory, and the
/// app's own model directory, each when it is known.
pub open spec fn default_dir_candidates(
    current_dir: Option<Seq<char>>,
    home: Option<Seq<char>>,
    app_models: Option<Seq<char>>,
) -> Seq<Seq<char>> {
    push_some(
        push_some(push_some(Seq::empty(), models_under(current_dir)), models_under(home)),
        app_models,
    )
}

/// The default directories scanned for models, given the working
/// directory, the home directory and the app's model directory, each when
/// it is known.
pub fn model_dirs_from(
    current_dir: Option<String>,
    home: Option<String>,
    app_models: Option<String>,
) -> (r: Vec<String>)
    ensures
        views(r@) == dedup(
            default_dir_candidates(opt_view(current_dir), opt_view(home), opt_view(app_models)),
        ),
{
    let mut dirs: Vec<String> = Vec::new();
    if let Some(cur) = &current_dir {
        let p = path_join(cur.as_str(), "models");
        proof {
            lemma_views_push(dirs@, p);
        }
        dirs.push(p);
    }
    if let Some(h) = &home {
        let p = path_join(h.as_str(), "models");
        proof {
            lemma_views_push(dirs@, p);
        }
        dirs.push(p);
    }
    if let Some(app) = app_models {
        proof {
            lemma_views_push(dirs@, app);
        }
        dirs.push(app);
    }
    assert(views(dirs@) =~= default_dir_candidates(
        opt_view(current_dir),
        opt_view(home),
        opt_view(app_models),
    ));
    dedup_paths(dirs)
}

/// The default directories scanned for models. `current_dir` is the
/// process's working directory, when it is known.
pub fn default_model_dirs(current_dir: Option<String>) -> (r: Vec<String>)
    ensures
        exists|h: Option<Seq<char>>, a: Option<Seq<char>>|
            app_models_dir(a) && views(r@) == dedup(
                default_dir_candidates(opt_view(current_dir), h, a),
            ),
{
    let home = home_dir();
    let app_models = match app_model_dir() {
        Ok(d) => Some(d),
        Err(_) => None,
    };
    let ghost hv = opt_view(home);
    let ghost av = opt_view(app_models);
    model_dirs_from(current_dir, home, app_models)
}

/// Whether the path's extension is `expected`, ignoring ASCII case.
pub fn extension_is(path: &str, expected: &str) -> (r: bool)
    ensures
        r == has_extension(path@, expected@),
{
    let v = to_chars(path);
    let want = to_chars(expected);
    match extension_chars(&v) {
        Some(e) => eq_ignore_ascii_case_chars(&e, &want),
        None => false,
    }
}

/// The name given to a local model: its file name, or `local-model`.
pub open spec fn model_name_for(p: Seq<char>) -> Seq<char> {
    match file_name(p) {
        Some(f) => f,
        None => "local-model"@,
    }
}

/// A local model whose backend is told from its path: `.gguf` runs through
/// llama.cpp; `.llamafile`, or any file with an execute permission, is a
/// llamafile; anything else cannot be inferred.
pub open spec fn spec_infer_model(p: Seq<char>, llama_cli: Option<Seq<char>>, executable: bool) -> Result<
    ModelView,
    ConfigErrorView,
> {
    if has_extension(p, "gguf"@) {
        Ok(
            ModelView {
                name: model_name_for(p),
                backend: BackendView::LlamaCpp { model_path: p, llama_cli: llama_cli },
            },
        )
    } else if has_extension(p, "llamafile"@) || executable {
        Ok(ModelView { name: model_name_for(p), backend: BackendView::Llamafile { path: p } })
    } else {
        Err(ConfigErrorView::CannotInferBackend(p))
    }
}

/// A local model at the (already expanded) path `p`, with an explicit backend
/// name or, without one, the backend inferred from the path.
pub open spec fn spec_model_for_path(
    p: Seq<char>,
    explicit_backend: Option<Seq<char>>,
    llama_cli: Option<Seq<char>>,
    executable: bool,
) -> Result<ModelView, ConfigErrorView> {
    match explicit_backend {
        Some(b) => if b == "llamafile"@ {
            Ok(ModelView { name: model_name_for(p), backend: BackendView::Llamafile { path: p } })
        } else if b == "llama-cpp"@ {
            Ok(
                ModelView {
                    name: model_name_for(p),
                    backend: BackendView::LlamaCpp { model_path: p, llama_cli: llama_cli },
                },
            )
        } else {
            Err(ConfigErrorView::UnsupportedBackend(b))
        },
        None => spec_infer_model(p, llama_cli, executable),
    }
}

/// The characters of a model-or-error result.
pub open spec fn model_result_view(r: Result<ConfiguredModel, ConfigError>) -> Result<
    ModelView,
    ConfigErrorView,
> {
    match r {
        Ok(m) => Ok(m@),
        Err(e) => Err(e@),
    }
}

fn model_name_of(path: &str) -> (r: String)
    ensures
        r@ == model_name_for(path@),
{
    let v = to_chars(path);
    match file_name_chars(&v) {
        Some(f) => from_chars(&f),
        None => String::from_str("local-model"),
    }
}

/// A local model at `path`, with its backend told from the path.
/// `executable` tells whether the file carries an execute permission.
fn infer_model_from_path(path: String, llama_cli: Option<String>, executable: bool) -> (r: Result<
    ConfiguredModel,
    ConfigError,
>)
    ensures
        model_result_view(r) == spec_infer_model(path@, opt_view(llama_cli), executable),
{
    let name = model_name_of(path.as_str());
    if extension_is(path.as_str(), "gguf") {
        return Ok(
            ConfiguredModel {
                name,
                backend: ModelBackend::LlamaCpp { model_path: path, llama_cli },
            },
        );
    }
    if extension_is(path.as_str(), "llamafile") || executable {
        return Ok(ConfiguredModel { name, backend: ModelBackend::Llamafile { path } });
    }
    Err(ConfigError::CannotInferBackend(path))
}

/// A local model for `path`, after expanding `~` to `home`. `explicit_backend` is
/// `llamafile` or `llama-cpp`, or `None` to infer the backend from the path;
/// `executable` tells whether the expanded path's file carries an execute
/// permission, which makes an unknown file a llamafile.
pub fn configured_model_from_path_in(
    path: String,
    explicit_backend: Option<&str>,
    llama_cli: Option<String>,
    executable: bool,
    home: Option<String>,
) -> (r: Result<ConfiguredModel, ConfigError>)
    ensures
        model_result_view(r) == spec_model_for_path(
            expand_home_with(path@, opt_view(home)),
            opt_str_view(explicit_backend),
            opt_view(llama_cli),
            executable,
        ),
{
    let ghost h = opt_view(home);
    let expanded = expand_home_in(path, home);
    let name = model_name_of(expanded.as_str());
    match explicit_backend {
        Some(b) => {
            if str_eq(b, "llamafile") {
                let r = Ok(ConfiguredModel { name, backend: ModelBackend::Llamafile { path: expanded } });
                assert(model_result_view(r) == spec_model_for_path(
                    expand_home_with(path@, h),
                    opt_str_view(explicit_backend),
                    opt_view(llama_cli),
                    executable,
                ));
                r
            } else if str_eq(b, "llama-cpp") {
                let r = Ok(
                    ConfiguredModel {
                        name,
                        backend: ModelBackend::LlamaCpp { model_path: expanded, llama_cli },
                    },
                );
                assert(model_result_view(r) == spec_model_for_path(
                    expand_home_with(path@, h),
                    opt_str_view(explicit_backend),
                    opt_view(llama_cli),
                    executable,
                ));
                r
            } else {
                let r = Err(ConfigError::UnsupportedBackend(String::from_str(b)));
                assert(model_result_view(r) == spec_model_for_path(
                    expand_home_with(path@, h),
                    opt_str_view(explicit_backend),
                    opt_view(llama_cli),
                    executable,
                ));
                r
            }
        },
        None => {
            let ghost lv = opt_view(llama_cli);
            let r = infer_model_from_path(expanded, llama_cli, executable);
            assert(model_result_view(r) == spec_model_for_path(
                expand_home_with(path@, h),
                opt_str_view(explicit_backend),
                lv,
                executable,
            ));
            r
        },
    }
}


/// A local model for `path`, after expanding `~` to the home directory the
/// platform reports. `explicit_backend` is `llamafile` or `llama-cpp`, or
/// `None` to infer the backend from the path; `executable` tells whether the
/// expanded path's file carries an execute permission.
pub fn configured_model_from_path(
    path: String,
    explicit_backend: Option<&str>,
    llama_cli: Option<String>,
    executable: bool,
) -> (r: Result<ConfiguredModel, ConfigError>)
    ensures
        exists|h: Option<Seq<char>>|
            model_result_view(r) == spec_model_for_path(
                expand_home_with(path@, h),
                opt_str_view(explicit_backend),
                opt_view(llama_cli),
                executable,
            ),
{
    let home = home_for(path.as_str());
    let ghost hv = opt_view(home);
    configured_model_from_path_in(path, explicit_backend, llama_cli, executable, home)
}
} // verus!
