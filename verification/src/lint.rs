//! The `lint` command's decisions: which model fixes the text and with
//! which settings, which models setup offers, what a selection saves, and
//! which text is fixed.
use vstd::prelude::*;
use crate::cli::{spec_config_key, LintArgs};
use crate::config::{
    app_model_dir, app_models_dir, clone_opt, clone_strings, configured_model_from_path_in, dedup, default_dir_candidates,
    expand_home_in, expand_home_with, home_dir, home_for,
    opt_model_view, opt_str_view, opt_view, spec_configured_model, spec_model_for_path,
    spec_model_label, views, AppConfig, BackendView, ConfigError, ConfigErrorView, ConfigView,
    ConfiguredModel, ModelBackend, ModelView, DEFAULT_ENDPOINT,
};
use crate::discovery::{model_path, spec_model_path};
use crate::prompt::{locale_label, GrammarLocale};
use crate::text::{
    contains, contains_lit, drop_trail, drop_trail_chars, from_chars, push_str_chars, to_chars,
    trim, trim_chars, CharClass,
};

verus! {

/// An earlier default model, too weak to keep using.
pub const OLD_DEFAULT_SMALL: &'static str = "Qwen2.5-0.5B-Instruct";

/// Another earlier default model, too weak to keep using.
pub const OLD_DEFAULT_MEDIUM: &'static str = "qwen2.5-1.5b-instruct";

/// The endpoint in use: the option, else the configured one, else the default.
pub open spec fn spec_endpoint(flag: Option<Seq<char>>, configured: Option<Seq<char>>) -> Seq<char> {
    match flag {
        Some(e) => e,
        None => match configured {
            Some(e) => e,
            None => DEFAULT_ENDPOINT@,
        },
    }
}

/// The Ollama endpoint for this run.
pub fn lint_endpoint(args: &LintArgs, config: &AppConfig) -> (r: String)
    ensures
        r@ == spec_endpoint(opt_view(args.endpoint), opt_view(config.endpoint)),
{
    match &args.endpoint {
        Some(e) => e.clone(),
        None => match &config.endpoint {
            Some(e) => e.clone(),
            None => String::from_str(DEFAULT_ENDPOINT),
        },
    }
}

/// The llama-cli binary for this run: the option, else the configured one.
pub fn lint_llama_cli(args: &LintArgs, config: &AppConfig) -> (r: Option<String>)
    ensures
        r == (if args.llama_cli is Some { args.llama_cli } else { config.llama_cli }),
{
    match &args.llama_cli {
        Some(p) => Some(p.clone()),
        None => clone_opt(&config.llama_cli),
    }
}

/// The characters of an optional-model result.
pub open spec fn opt_model_result_view(r: Result<Option<ConfiguredModel>, ConfigError>) -> Result<
    Option<ModelView>,
    ConfigErrorView,
> {
    match r {
        Ok(m) => Ok(opt_model_view(m)),
        Err(e) => Err(e@),
    }
}

/// A model result with the model made optional.
pub open spec fn as_some(r: Result<ModelView, ConfigErrorView>) -> Result<Option<ModelView>, ConfigErrorView> {
    match r {
        Ok(m) => Ok(Some(m)),
        Err(e) => Err(e),
    }
}

/// The model asked for on the command line, if any: `--model-path` gives a
/// local model at the path with `~` expanded to `home` (with `--backend`,
/// else inferred; `executable` tells whether the file at the expanded path
/// carries an execute permission), `--model` an Ollama model at `endpoint`.
pub fn cli_model_override_in(
    args: &LintArgs,
    endpoint: &str,
    llama_cli: Option<String>,
    executable: bool,
    home: Option<String>,
) -> (r: Result<Option<ConfiguredModel>, ConfigError>)
    ensures
        args.model_path matches Some(p) ==> opt_model_result_view(r) == as_some(
                spec_model_for_path(
                    expand_home_with(p@, opt_view(home)),
                    match args.backend {
                        Some(b) => spec_config_key(b),
                        None => None,
                    },
                    opt_view(llama_cli),
                    executable,
                ),
            ),
        args.model_path is None ==> match args.model {
            Some(name) => r matches Ok(Some(m)) && m@ == (ModelView {
                name: name@,
                backend: BackendView::Ollama { model: name@, endpoint: Some(endpoint@) },
            }),
            None => r matches Ok(None),
        },
{
    match &args.model_path {
        Some(p) => {
            let explicit_backend = match args.backend {
                Some(b) => b.config_key(),
                None => None,
            };
            let ghost key = match args.backend {
                Some(b) => spec_config_key(b),
                None => None,
            };
            assert(opt_str_view(explicit_backend) == key);
            let ghost lc = opt_view(llama_cli);
            let m = configured_model_from_path_in(p.clone(), explicit_backend, llama_cli, executable, home);
            match m {
                Ok(model) => Ok(Some(model)),
                Err(e) => Err(e),
            }
        },
        None => match &args.model {
            Some(name) => Ok(
                Some(
                    ConfiguredModel {
                        name: name.clone(),
                        backend: ModelBackend::Ollama {
                            model: name.clone(),
                            endpoint: Some(String::from_str(endpoint)),
                        },
                    },
                ),
            ),
            None => Ok(None),
        },
    }
}

/// The model asked for on the command line, with `~` in `--model-path`
/// expanded to the home directory the platform reports.
pub fn cli_model_override(
    args: &LintArgs,
    endpoint: &str,
    llama_cli: Option<String>,
    executable: bool,
) -> (r: Result<Option<ConfiguredModel>, ConfigError>)
    ensures
        args.model_path matches Some(p) ==> exists|h: Option<Seq<char>>|
            opt_model_result_view(r) == as_some(
                spec_model_for_path(
                    #[trigger] expand_home_with(p@, h),
                    match args.backend {
                        Some(b) => spec_config_key(b),
                        None => None,
                    },
                    opt_view(llama_cli),
                    executable,
                ),
            ),
        args.model_path is None ==> match args.model {
            Some(name) => r matches Ok(Some(m)) && m@ == (ModelView {
                name: name@,
                backend: BackendView::Ollama { model: name@, endpoint: Some(endpoint@) },
            }),
            None => r matches Ok(None),
        },
{
    let home = match &args.model_path {
        Some(p) => home_for(p.as_str()),
        None => None,
    };
    let ghost hv = opt_view(home);
    cli_model_override_in(args, endpoint, llama_cli, executable, home)
}

/// `d` occurs in the model's name or in its file path.
pub open spec fn mentions(m: ModelView, d: Seq<char>) -> bool {
    ||| contains(m.name, d)
    ||| (spec_model_path(m) matches Some(p) && contains(p, d))
}

/// The model is one of the earlier, weaker defaults.
pub open spec fn spec_is_deprecated(m: ModelView) -> bool {
    mentions(m, OLD_DEFAULT_SMALL@) || mentions(m, OLD_DEFAULT_MEDIUM@)
}

fn mentions_exec(model: &ConfiguredModel, d: &str) -> (r: bool)
    ensures
        r == mentions(model@, d@),
{
    if contains_lit(&to_chars(model.name.as_str()), d) {
        return true;
    }
    match model_path(model) {
        Some(p) => contains_lit(&to_chars(p), d),
        None => false,
    }
}

/// Whether the model is one of the earlier, weaker defaults, by name or path.
pub fn is_deprecated_default_model(model: &ConfiguredModel) -> (r: bool)
    ensures
        r == spec_is_deprecated(model@),
{
    mentions_exec(model, OLD_DEFAULT_SMALL) || mentions_exec(model, OLD_DEFAULT_MEDIUM)
}

pub open spec fn spec_is_local(m: ModelView) -> bool {
    m.backend is Llamafile || m.backend is LlamaCpp
}

/// Whether the model runs from a local file.
pub fn is_local_model(model: &ConfiguredModel) -> (r: bool)
    ensures
        r == spec_is_local(model@),
        r == spec_model_path(model@) is Some,
{
    match &model.backend {
        ModelBackend::Llamafile { .. } => true,
        ModelBackend::LlamaCpp { .. } => true,
        ModelBackend::Ollama { .. } => false,
    }
}

/// The file a local model runs from; Ollama models have none.
pub fn local_model_path(model: &ConfiguredModel) -> (r: Option<&str>)
    ensures
        match r {
            Some(p) => spec_model_path(model@) == Some(p@),
            None => spec_model_path(model@) is None,
        },
{
    model_path(model)
}

/// Whether the model's file is there: `path_exists` tells whether the file
/// system has the model's path; an Ollama model has no file.
pub fn local_model_exists(model: &ConfiguredModel, path_exists: bool) -> (r: bool)
    ensures
        r == (spec_model_path(model@) is Some && path_exists),
{
    match local_model_path(model) {
        Some(_) => path_exists,
        None => false,
    }
}

/// The model with the run's settings filled in where it has none: the
/// endpoint for Ollama models, the llama-cli binary for GGUF models.
pub open spec fn spec_runtime_config(m: ModelView, endpoint: Seq<char>, llama_cli: Option<Seq<char>>) -> ModelView {
    match m.backend {
        BackendView::Ollama { model, endpoint: e } => ModelView {
            name: m.name,
            backend: BackendView::Ollama {
                model: model,
                endpoint: if e is Some {
                    e
                } else {
                    Some(endpoint)
                },
            },
        },
        BackendView::LlamaCpp { model_path, llama_cli: l } => ModelView {
            name: m.name,
            backend: BackendView::LlamaCpp {
                model_path: model_path,
                llama_cli: if l is Some {
                    l
                } else {
                    llama_cli
                },
            },
        },
        BackendView::Llamafile { .. } => m,
    }
}

/// Fills in the run's endpoint and llama-cli binary where the model has none.
pub fn apply_runtime_config(model: ConfiguredModel, endpoint: &str, llama_cli: Option<String>) -> (r:
    ConfiguredModel)
    ensures
        r@ == spec_runtime_config(model@, endpoint@, opt_view(llama_cli)),
{
    let ConfiguredModel { name, backend } = model;
    let backend = match backend {
        ModelBackend::Ollama { model, endpoint: e } => ModelBackend::Ollama {
            model,
            endpoint: match e {
                Some(x) => Some(x),
                None => Some(String::from_str(endpoint)),
            },
        },
        ModelBackend::LlamaCpp { model_path, llama_cli: l } => ModelBackend::LlamaCpp {
            model_path,
            llama_cli: match l {
                Some(x) => Some(x),
                None => llama_cli,
            },
        },
        ModelBackend::Llamafile { path } => ModelBackend::Llamafile { path },
    };
    ConfiguredModel { name, backend }
}

/// Filling in the run's settings a second time changes nothing, and a
/// setting the model already has is kept.
pub proof fn lemma_runtime_config_idempotent(
    m: ModelView,
    endpoint: Seq<char>,
    llama_cli: Option<Seq<char>>,
)
    ensures
        spec_runtime_config(spec_runtime_config(m, endpoint, llama_cli), endpoint, llama_cli)
            == spec_runtime_config(m, endpoint, llama_cli),
        spec_runtime_config(m, endpoint, llama_cli).name == m.name,
        m.backend matches BackendView::Ollama { endpoint: Some(e), .. } ==> spec_runtime_config(
            m,
            endpoint,
            llama_cli,
        ) == m,
        m.backend matches BackendView::LlamaCpp { llama_cli: Some(l), .. } ==> spec_runtime_config(
            m,
            endpoint,
            llama_cli,
        ) == m,
{
}

pub open spec fn spec_selected_locale(pt_br: bool, flag: Option<GrammarLocale>, configured: Option<
    GrammarLocale,
>) -> GrammarLocale {
    if pt_br {
        GrammarLocale::PtBr
    } else {
        match flag {
            Some(l) => l,
            None => match configured {
                Some(l) => l,
                None => GrammarLocale::En,
            },
        }
    }
}

/// The locale for this run: `--pt-br`, else `--locale`, else the
/// configured one, else English.
pub fn selected_locale(args: &LintArgs, config: &AppConfig) -> (r: GrammarLocale)
    ensures
        r == spec_selected_locale(args.pt_br, args.locale, config.locale),
{
    if args.pt_br {
        return GrammarLocale::PtBr;
    }
    match args.locale {
        Some(l) => l,
        None => match config.locale {
            Some(l) => l,
            None => GrammarLocale::En,
        },
    }
}

/// Each directory with a leading `~` expanded to `home`.
pub open spec fn expand_all(dirs: Seq<Seq<char>>, home: Option<Seq<char>>) -> Seq<Seq<char>> {
    dirs.map_values(|d: Seq<char>| expand_home_with(d, home))
}

/// Each directory with a leading `~` expanded to `home`.
pub fn expand_dirs_in(dirs: &Vec<String>, home: &Option<String>) -> (r: Vec<String>)
    ensures
        views(r@) == expand_all(views(dirs@), opt_view(*home)),
{
    let mut out: Vec<String> = Vec::new();
    let mut i: usize = 0;
    while i < dirs.len()
        invariant
            i <= dirs.len(),
            views(out@) == expand_all(views(dirs@).take(i as int), opt_view(*home)),
        decreases dirs.len() - i,
    {
        let e = expand_home_in(dirs[i].clone(), clone_opt(home));
        let ghost before = out@;
        out.push(e);
        assert(views(out@) =~= views(before).push(e@));
        assert(views(dirs@).take(i + 1) =~= views(dirs@).take(i as int).push(dirs@[i as int]@));
        assert(expand_all(views(dirs@).take(i + 1), opt_view(*home)) =~= expand_all(
            views(dirs@).take(i as int),
            opt_view(*home),
        ).push(expand_home_with(dirs@[i as int]@, opt_view(*home))));
        i = i + 1;
    }
    assert(views(dirs@).take(dirs.len() as int) =~= views(dirs@));
    out
}

/// The directories scanned for models: `given` (from `--model-dir`) with
/// `~` expanded to `home`, else the configured directories without
/// repeats, else the default ones.
pub open spec fn spec_model_dirs(
    given: Seq<Seq<char>>,
    configured: Seq<Seq<char>>,
    current_dir: Option<Seq<char>>,
    home: Option<Seq<char>>,
    app_models: Option<Seq<char>>,
) -> Seq<Seq<char>> {
    if given.len() > 0 {
        expand_all(given, home)
    } else if configured.len() > 0 {
        dedup(configured)
    } else {
        dedup(default_dir_candidates(current_dir, home, app_models))
    }
}

/// The directories scanned for models, given the working directory, the
/// home directory and the app's model directory, each when it is known.
pub fn model_dirs_in(
    args: &LintArgs,
    config: &AppConfig,
    current_dir: Option<String>,
    home: Option<String>,
    app_models: Option<String>,
) -> (r: Vec<String>)
    ensures
        views(r@) == spec_model_dirs(
            views(args.model_dir@),
            views(config.model_dirs@),
            opt_view(current_dir),
            opt_view(home),
            opt_view(app_models),
        ),
{
    if args.model_dir.len() == 0 {
        return config.model_dirs_or_defaults_in(current_dir, home, app_models);
    }
    expand_dirs_in(&args.model_dir, &home)
}

/// The directories scanned for models: those given with `--model-dir`
/// (with `~` expanded), else the configured or default ones.
/// `current_dir` is the working directory, when it is known.
pub fn model_dirs(args: &LintArgs, config: &AppConfig, current_dir: Option<String>) -> (r: Vec<
    String,
>)
    ensures
        exists|h: Option<Seq<char>>, a: Option<Seq<char>>|
            app_models_dir(a) && views(r@) == spec_model_dirs(
                views(args.model_dir@),
                views(config.model_dirs@),
                opt_view(current_dir),
                h,
                a,
            ),
{
    let home = home_dir();
    let app_models = match app_model_dir() {
        Ok(d) => Some(d),
        Err(_) => None,
    };
    let ghost hv = opt_view(home);
    let ghost av = opt_view(app_models);
    model_dirs_in(args, config, current_dir, home, app_models)
}

pub open spec fn deprecated_warning(m: ModelView) -> Seq<char> {
    "warning: configured model `"@ + spec_model_label(m)
        + "` is the old weak default; opening setup for a better llama.cpp model"@
}

pub open spec fn missing_local_warning(m: ModelView) -> Seq<char> {
    "warning: configured local model is missing; ignoring `"@ + spec_model_label(m) + "`"@
}

pub open spec fn unavailable_ollama_warning(model_name: Seq<char>) -> Seq<char> {
    "warning: configured Ollama model `"@ + model_name
        + "` is unavailable; using a local/downloaded model instead"@
}

/// Which model the configuration leads to, and the warning to print: an
/// old default or a local model whose file is gone gives way to the bundled
/// model, as does an Ollama model that Ollama does not list.
pub open spec fn spec_preferred(
    configured: Option<ModelView>,
    bundled: Option<ModelView>,
    local_exists: bool,
    ollama_installed: bool,
) -> (Option<ModelView>, Option<Seq<char>>) {
    match configured {
        None => (bundled, None),
        Some(m) => if spec_is_deprecated(m) {
            (bundled, Some(deprecated_warning(m)))
        } else if spec_model_path(m) is Some && local_exists {
            (Some(m), None)
        } else if spec_is_local(m) {
            (bundled, Some(missing_local_warning(m)))
        } else {
            match m.backend {
                BackendView::Ollama { model, .. } => if ollama_installed {
                    (Some(m), None)
                } else {
                    (bundled, Some(unavailable_ollama_warning(model)))
                },
                _ => (bundled, None),
            }
        },
    }
}

fn text_of(v: Vec<char>) -> (r: String)
    ensures
        r@ == v@,
{
    from_chars(&v)
}

/// The model to use from the configuration, and the warning to print.
/// `local_exists` tells whether the configured model's file is there, and
/// `ollama_installed` whether Ollama lists the configured Ollama model;
/// each is only looked at for a model of its kind.
pub fn preferred_config_model(
    config: &AppConfig,
    bundled_model: Option<ConfiguredModel>,
    local_exists: bool,
    ollama_installed: bool,
) -> (r: (Option<ConfiguredModel>, Option<String>))
    ensures
        (opt_model_view(r.0), opt_view(r.1)) == spec_preferred(
            spec_configured_model(config@),
            opt_model_view(bundled_model),
            local_exists,
            ollama_installed,
        ),
{
    let model = match config.configured_model() {
        None => {
            return (bundled_model, None);
        },
        Some(m) => m,
    };
    if is_deprecated_default_model(&model) {
        let mut w: Vec<char> = Vec::new();
        push_str_chars(&mut w, "warning: configured model `");
        push_str_chars(&mut w, model.label().as_str());
        push_str_chars(
            &mut w,
            "` is the old weak default; opening setup for a better llama.cpp model",
        );
        assert(w@ =~= deprecated_warning(model@));
        return (bundled_model, Some(text_of(w)));
    }
    if local_model_exists(&model, local_exists) {
        return (Some(model), None);
    }
    if is_local_model(&model) {
        let mut w: Vec<char> = Vec::new();
        push_str_chars(&mut w, "warning: configured local model is missing; ignoring `");
        push_str_chars(&mut w, model.label().as_str());
        push_str_chars(&mut w, "`");
        assert(w@ =~= missing_local_warning(model@));
        return (bundled_model, Some(text_of(w)));
    }
    let warning = match &model.backend {
        ModelBackend::Ollama { model: name, .. } => {
            if ollama_installed {
                return (Some(model), None);
            }
            let mut w: Vec<char> = Vec::new();
            push_str_chars(&mut w, "warning: configured Ollama model `");
            push_str_chars(&mut w, name.as_str());
            push_str_chars(&mut w, "` is unavailable; using a local/downloaded model instead");
            assert(w@ =~= unavailable_ollama_warning(name@));
            Some(text_of(w))
        },
        _ => None,
    };
    (bundled_model, warning)
}

/// Whether Ollama listed the model: `listed` is the names it reported, or
/// `None` when listing failed.
pub fn ollama_model_is_installed(listed: &Option<Vec<String>>, model_name: &str) -> (r: bool)
    ensures
        r == (listed matches Some(names) && views(names@).contains(model_name@)),
{
    match listed {
        Some(names) => {
            let found = crate::doctor::contains_name(names, model_name);
            proof {
                if found {
                    let i = choose|i: int| 0 <= i < names@.len() && names@[i]@ == model_name@;
                    assert(views(names@)[i] == model_name@);
                }
            }
            found
        },
        None => false,
    }
}

/// `s` without the earlier default models, in order.
pub open spec fn without_deprecated(s: Seq<ModelView>) -> Seq<ModelView>
    decreases s.len(),
{
    if s.len() == 0 {
        s
    } else {
        let d = without_deprecated(s.drop_last());
        if spec_is_deprecated(s.last()) {
            d
        } else {
            d.push(s.last())
        }
    }
}

/// The Ollama model of each listed name, at `endpoint`.
pub open spec fn ollama_models(names: Seq<Seq<char>>, endpoint: Seq<char>) -> Seq<ModelView> {
    names.map_values(
        |n: Seq<char>|
            ModelView { name: n, backend: BackendView::Ollama { model: n, endpoint: Some(endpoint) } },
    )
}

/// The models offered at setup, in order: the bundled model, the
/// discovered local models other than the earlier defaults, then the models
/// Ollama lists (none when listing failed).
pub open spec fn spec_candidates(
    bundled: Option<ModelView>,
    discovered: Seq<ModelView>,
    ollama: Option<Seq<Seq<char>>>,
    endpoint: Seq<char>,
) -> Seq<ModelView> {
    let first = match bundled {
        Some(b) => seq![b],
        None => Seq::empty(),
    };
    let last = match ollama {
        Some(n) => ollama_models(n, endpoint),
        None => Seq::empty(),
    };
    first + without_deprecated(discovered) + last
}

/// Gathers the models offered at setup. `ollama_names` is what Ollama
/// listed, or `None` when listing failed.
pub fn collect_model_candidates(
    bundled_model: Option<ConfiguredModel>,
    discovered: Vec<ConfiguredModel>,
    ollama_names: Option<Vec<String>>,
    endpoint: &str,
) -> (r: Vec<ConfiguredModel>)
    ensures
        crate::tui_model_list::model_views(r@) == spec_candidates(
            opt_model_view(bundled_model),
            crate::tui_model_list::model_views(discovered@),
            match ollama_names {
                Some(n) => Some(views(n@)),
                None => None,
            },
            endpoint@,
        ),
{
    let ghost first = match opt_model_view(bundled_model) {
        Some(b) => seq![b],
        None => Seq::<ModelView>::empty(),
    };
    let mut out: Vec<ConfiguredModel> = Vec::new();
    match bundled_model {
        Some(b) => out.push(b),
        None => {},
    }
    assert(crate::tui_model_list::model_views(out@) =~= first);
    let ghost dv = crate::tui_model_list::model_views(discovered@);
    let mut i: usize = 0;
    assert(dv.take(0) =~= Seq::<ModelView>::empty());
    while i < discovered.len()
        invariant
            i <= discovered.len(),
            dv == crate::tui_model_list::model_views(discovered@),
            crate::tui_model_list::model_views(out@) == first + without_deprecated(
                dv.take(i as int),
            ),
        decreases discovered.len() - i,
    {
        assert(dv.take(i + 1).drop_last() =~= dv.take(i as int));
        assert(dv.take(i + 1).last() == discovered@[i as int]@);
        if !is_deprecated_default_model(&discovered[i]) {
            let ghost before = out@;
            out.push(discovered[i].clone());
            assert(crate::tui_model_list::model_views(out@) =~= crate::tui_model_list::model_views(
                before,
            ).push(discovered@[i as int]@));
        }
        i = i + 1;
    }
    assert(dv.take(discovered.len() as int) =~= dv);
    let ghost mid = crate::tui_model_list::model_views(out@);
    match ollama_names {
        Some(names) => {
            let ghost nv = views(names@);
            let mut j: usize = 0;
            while j < names.len()
                invariant
                    j <= names.len(),
                    nv == views(names@),
                    crate::tui_model_list::model_views(out@) == mid + ollama_models(
                        nv.take(j as int),
                        endpoint@,
                    ),
                decreases names.len() - j,
            {
                let ghost before = out@;
                let n = names[j].clone();
                out.push(
                    ConfiguredModel {
                        name: n.clone(),
                        backend: ModelBackend::Ollama {
                            model: n,
                            endpoint: Some(String::from_str(endpoint)),
                        },
                    },
                );
                assert(ollama_models(nv.take(j + 1), endpoint@) =~= ollama_models(
                    nv.take(j as int),
                    endpoint@,
                ).push(
                    ModelView {
                        name: names@[j as int]@,
                        backend: BackendView::Ollama {
                            model: names@[j as int]@,
                            endpoint: Some(endpoint@),
                        },
                    },
                ));
                assert(crate::tui_model_list::model_views(out@) =~= crate::tui_model_list::model_views(
                    before,
                ).push(out@[j + before.len() - j]@));
                j = j + 1;
            }
            assert(nv.take(names.len() as int) =~= nv);
        },
        None => {
            assert(mid =~= mid + Seq::<ModelView>::empty());
        },
    }
    out
}

/// What the configuration holds once a model is selected: the model, the
/// run's endpoint, llama-cli binary, model directories and locale; the
/// legacy model name is dropped.
pub open spec fn spec_selected_config(
    selected: ModelView,
    endpoint: Seq<char>,
    llama_cli: Option<Seq<char>>,
    model_dirs: Seq<Seq<char>>,
    locale: GrammarLocale,
) -> ConfigView {
    ConfigView {
        selected_model: Some(selected),
        endpoint: Some(endpoint),
        llama_cli: llama_cli,
        locale: Some(locale),
        model_dirs: model_dirs,
        model: None,
    }
}

/// Records a selected model in the configuration, with the settings of the
/// run that selected it; the configuration is then saved as it stands.
pub fn apply_selection(
    config: &mut AppConfig,
    selected_model: ConfiguredModel,
    endpoint: &str,
    llama_cli: Option<String>,
    model_dirs: &Vec<String>,
    locale: GrammarLocale,
)
    ensures
        final(config)@ == spec_selected_config(
            selected_model@,
            endpoint@,
            opt_view(llama_cli),
            views(model_dirs@),
            locale,
        ),
{
    config.selected_model = Some(selected_model);
    config.model = None;
    config.endpoint = Some(String::from_str(endpoint));
    config.llama_cli = llama_cli;
    config.model_dirs = clone_strings(model_dirs);
    config.locale = Some(locale);
}

/// Once a model is selected, the configuration selects that model, in that
/// locale, whatever it selected before.
pub proof fn lemma_selection_is_read_back(
    selected: ModelView,
    endpoint: Seq<char>,
    llama_cli: Option<Seq<char>>,
    model_dirs: Seq<Seq<char>>,
    locale: GrammarLocale,
)
    ensures
        spec_configured_model(spec_selected_config(selected, endpoint, llama_cli, model_dirs, locale))
            == Some(selected),
        spec_selected_config(selected, endpoint, llama_cli, model_dirs, locale).locale == Some(
            locale,
        ),
{
}

pub open spec fn spec_saved_message(m: ModelView, locale: GrammarLocale, path: Seq<char>) -> Seq<
    char,
> {
    "Saved model `"@ + spec_model_label(m) + "` and locale `"@ + locale_label(locale) + "` to "@
        + path
}

/// The note printed once a selection is saved to `path`.
pub fn saved_message(model: &ConfiguredModel, locale: GrammarLocale, path: &str) -> (r: String)
    ensures
        r@ == spec_saved_message(model@, locale, path@),
{
    let mut w: Vec<char> = Vec::new();
    push_str_chars(&mut w, "Saved model `");
    push_str_chars(&mut w, model.label().as_str());
    push_str_chars(&mut w, "` and locale `");
    push_str_chars(&mut w, locale.label());
    push_str_chars(&mut w, "` to ");
    push_str_chars(&mut w, path);
    assert(w@ =~= spec_saved_message(model@, locale, path@));
    from_chars(&w)
}

/// The words joined with single spaces.
pub open spec fn join_words(words: Seq<Seq<char>>) -> Seq<char>
    decreases words.len(),
{
    if words.len() == 0 {
        Seq::empty()
    } else if words.len() == 1 {
        words[0]
    } else {
        join_words(words.drop_last()) + " "@ + words.last()
    }
}

/// The message when there is no text to fix and nothing to read it from.
pub const NO_INPUT_MESSAGE: &'static str = "provide text as an argument, pipe text on stdin, or run `lint-lang --configure`";

/// The text to fix: the arguments joined with spaces, else what was piped
/// on stdin (`stdin`, `None` when stdin is a terminal) without its trailing
/// line breaks.
pub fn read_input(args: &Vec<String>, stdin: Option<String>) -> (r: Result<String, String>)
    ensures
        args@.len() > 0 ==> (r matches Ok(t) && t@ == join_words(views(args@))),
        args@.len() == 0 ==> match stdin {
            Some(b) => (r matches Ok(t) && t@ == drop_trail(b@, CharClass::LineBreak)),
            None => (r matches Err(e) && e@ == NO_INPUT_MESSAGE@),
        },
{
    if args.len() > 0 {
        let mut w: Vec<char> = Vec::new();
        let mut i: usize = 0;
        while i < args.len()
            invariant
                0 <= i <= args.len(),
                args@.len() > 0,
                i == 0 ==> w@.len() == 0,
                i > 0 ==> w@ == join_words(views(args@).take(i as int)),
            decreases args.len() - i,
        {
            let ghost before = w@;
            if i > 0 {
                push_str_chars(&mut w, " ");
            }
            push_str_chars(&mut w, args[i].as_str());
            proof {
                let t = views(args@).take(i + 1);
                assert(t.drop_last() =~= views(args@).take(i as int));
                assert(t.last() == args@[i as int]@);
                if i == 0 {
                    assert(w@ =~= t[0]);
                } else {
                    assert(w@ =~= join_words(t.drop_last()) + " "@ + t.last());
                }
            }
            i = i + 1;
        }
        assert(views(args@).take(args.len() as int) =~= views(args@));
        return Ok(from_chars(&w));
    }
    match stdin {
        Some(b) => Ok(from_chars(&drop_trail_chars(&to_chars(b.as_str()), CharClass::LineBreak))),
        None => Err(String::from_str(NO_INPUT_MESSAGE)),
    }
}

/// Checks that there is something to fix besides whitespace.
pub fn require_text(input: &str) -> (r: Result<(), String>)
    ensures
        r is Ok <==> trim(input@).len() > 0,
        r matches Err(e) ==> e@ == "provide a non-empty string to fix"@,
{
    if trim_chars(&to_chars(input)).len() == 0 {
        Err(String::from_str("provide a non-empty string to fix"))
    } else {
        Ok(())
    }
}

/// After printing the configuration path, the run ends unless setup or
/// text was asked for.
pub fn stops_after_config_path(args: &LintArgs) -> (r: bool)
    ensures
        r == (!args.configure && args.text@.len() == 0),
{
    !args.configure && args.text.len() == 0
}

/// The run downloads a model first: `--download-model` or `--download-url`.
pub fn wants_download(args: &LintArgs) -> (r: bool)
    ensures
        r == (args.download_model || args.download_url is Some),
{
    args.download_model || args.download_url.is_some()
}

/// After a download the run ends when there is no text, no setup, and
/// nothing piped on stdin (`stdin_is_terminal`).
pub fn stops_after_download(args: &LintArgs, stdin_is_terminal: bool) -> (r: bool)
    ensures
        r == (args.text@.len() == 0 && !args.configure && stdin_is_terminal),
{
    args.text.len() == 0 && !args.configure && stdin_is_terminal
}

/// After setup the run ends when there is no text and nothing piped.
pub fn stops_after_setup(args: &LintArgs, stdin_is_terminal: bool) -> (r: bool)
    ensures
        r == (args.text@.len() == 0 && stdin_is_terminal),
{
    args.text.len() == 0 && stdin_is_terminal
}

/// Setup opens on its own when no model is known from the command line, a
/// download or the configuration, and a terminal is there to show it.
pub fn needs_first_run_setup(
    cli_model: &Option<ConfiguredModel>,
    downloaded_model: &Option<ConfiguredModel>,
    config_model: &Option<ConfiguredModel>,
    terminal_available: bool,
) -> (r: bool)
    ensures
        r == (cli_model is None && downloaded_model is None && config_model is None
            && terminal_available),
{
    cli_model.is_none() && downloaded_model.is_none() && config_model.is_none() && terminal_available
}

/// The first model that is known, in order of preference.
pub open spec fn first_known(models: Seq<Option<ModelView>>) -> Option<ModelView>
    decreases models.len(),
{
    if models.len() == 0 {
        None
    } else if models[0] is Some {
        models[0]
    } else {
        first_known(models.drop_first())
    }
}

fn first_of(a: Option<ConfiguredModel>, b: Option<ConfiguredModel>) -> (r: Option<ConfiguredModel>)
    ensures
        opt_model_view(r) == (if a is Some {
            opt_model_view(a)
        } else {
            opt_model_view(b)
        }),
{
    match a {
        Some(m) => Some(m),
        None => b,
    }
}

/// The model that fixes the text: the command line's, else the one just
/// downloaded, else the configuration's.
pub fn model_for_text(
    cli_model: Option<ConfiguredModel>,
    downloaded_model: Option<ConfiguredModel>,
    config_model: Option<ConfiguredModel>,
) -> (r: Option<ConfiguredModel>)
    ensures
        opt_model_view(r) == first_known(
            seq![
                opt_model_view(cli_model),
                opt_model_view(downloaded_model),
                opt_model_view(config_model),
            ],
        ),
{
    proof {
        reveal_with_fuel(first_known, 4);
    }
    first_of(cli_model, first_of(downloaded_model, config_model))
}

/// The model whose path `--print-model-path` prints: as for the text, else
/// the bundled model.
pub fn model_for_path(
    cli_model: Option<ConfiguredModel>,
    downloaded_model: Option<ConfiguredModel>,
    config_model: Option<ConfiguredModel>,
    bundled_model: Option<ConfiguredModel>,
) -> (r: Option<ConfiguredModel>)
    ensures
        opt_model_view(r) == first_known(
            seq![
                opt_model_view(cli_model),
                opt_model_view(downloaded_model),
                opt_model_view(config_model),
                opt_model_view(bundled_model),
            ],
        ),
{
    proof {
        reveal_with_fuel(first_known, 5);
    }
    first_of(cli_model, first_of(downloaded_model, first_of(config_model, bundled_model)))
}

} // verus!
