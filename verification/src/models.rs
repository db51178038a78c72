//! The `models` command's decisions: its settings and the plain listing of
//! the models it can select.
use vstd::prelude::*;
use crate::cli::ModelsCli;
use crate::config::{
    app_dir, app_model_dir, app_models_dir, clone_opt, config_path, home_dir, model_key, opt_ref_view, opt_view, spec_kind_label,
    spec_model_label, views, AppConfig, ConfigError, ConfiguredModel, ModelView,
};
use crate::lint::{expand_dirs_in, spec_endpoint, spec_model_dirs, spec_selected_locale};
use crate::path::join;
use crate::prompt::GrammarLocale;
use crate::text::{from_chars, push_str_chars};
use crate::tui_model_list::model_views;

verus! {

/// The Ollama endpoint for `models`: the option, else the configured one,
/// else the default.
pub fn endpoint_from_models_args(args: &ModelsCli, config: &AppConfig) -> (r: String)
    ensures
        r@ == spec_endpoint(opt_view(args.endpoint), opt_view(config.endpoint)),
{
    match &args.endpoint {
        Some(e) => e.clone(),
        None => match &config.endpoint {
            Some(e) => e.clone(),
            None => String::from_str(crate::config::DEFAULT_ENDPOINT),
        },
    }
}

/// The llama-cli binary for `models`: the option, else the configured one.
pub fn models_llama_cli(args: &ModelsCli, config: &AppConfig) -> (r: Option<String>)
    ensures
        r == (if args.llama_cli is Some { args.llama_cli } else { config.llama_cli }),
{
    match &args.llama_cli {
        Some(p) => Some(p.clone()),
        None => clone_opt(&config.llama_cli),
    }
}

/// The directories `models` scans, given the working directory, the home
/// directory and the app's model directory, each when it is known.
pub fn models_model_dirs_in(
    args: &ModelsCli,
    config: &AppConfig,
    current_dir: Option<String>,
    home: Option<String>,
    app_models: Option<String>,
) -> (r: Vec<String>)
    ensures
        views(r@) == spec_model_dirs(
            views(args.model_dir@),
            views(config.model_dirs@),
            opt_view(current_dir),
            opt_view(home),
            opt_view(app_models),
        ),
{
    if args.model_dir.len() == 0 {
        return config.model_dirs_or_defaults_in(current_dir, home, app_models);
    }
    expand_dirs_in(&args.model_dir, &home)
}

/// The directories `models` scans: those given with `--model-dir` (with
/// `~` expanded), else the configured or default ones. `current_dir` is the
/// working directory, when it is known.
pub fn models_model_dirs(args: &ModelsCli, config: &AppConfig, current_dir: Option<String>) -> (r:
    Vec<String>)
    ensures
        exists|h: Option<Seq<char>>, a: Option<Seq<char>>|
            app_models_dir(a) && views(r@) == spec_model_dirs(
                views(args.model_dir@),
                views(config.model_dirs@),
                opt_view(current_dir),
                h,
                a,
            ),
{
    let home = home_dir();
    let app_models = match app_model_dir() {
        Ok(d) => Some(d),
        Err(_) => None,
    };
    let ghost hv = opt_view(home);
    let ghost av = opt_view(app_models);
    models_model_dirs_in(args, config, current_dir, home, app_models)
}

/// The locale `models` saves: `--pt-br`, else `--locale`, else the
/// configured one, else English.
pub fn models_locale(args: &ModelsCli, config: &AppConfig) -> (r: GrammarLocale)
    ensures
        r == spec_selected_locale(args.pt_br, args.locale, config.locale),
{
    if args.pt_br {
        return GrammarLocale::PtBr;
    }
    match args.locale {
        Some(l) => l,
        None => match config.locale {
            Some(l) => l,
            None => GrammarLocale::En,
        },
    }
}

/// The model is the current one: the same name and backend, paths
/// compared by their components.
pub open spec fn is_current_model(m: ModelView, current: Option<ModelView>) -> bool {
    match current {
        Some(c) => model_key(c) == model_key(m),
        None => false,
    }
}

/// One line of the listing: `*` marks the current model.
pub open spec fn list_line(m: ModelView, current: Option<ModelView>) -> Seq<char> {
    (if is_current_model(m, current) {
        "*"@
    } else {
        "-"@
    }) + " "@ + m.name + " · "@ + spec_kind_label(m.backend) + "\n"@
}

/// The lines of the listing for each candidate, in order.
pub open spec fn list_lines(candidates: Seq<ModelView>, current: Option<ModelView>) -> Seq<char>
    decreases candidates.len(),
{
    if candidates.len() == 0 {
        Seq::empty()
    } else {
        list_lines(candidates.drop_last(), current) + list_line(candidates.last(), current)
    }
}

/// The plain listing of models: a header, the current model, one line per
/// candidate, the downloadable default, and where the configuration lives.
pub open spec fn spec_model_list(
    current: Option<ModelView>,
    candidates: Seq<ModelView>,
    config_path: Seq<char>,
) -> Seq<char> {
    "lint-lang models\n\n"@ + (match current {
        Some(m) => "current: "@ + spec_model_label(m) + "\n\n"@,
        None => Seq::empty(),
    }) + list_lines(candidates, current)
        + "- Download Qwen3 8B GGUF · default downloadable model\n\nconfig: "@ + config_path
        + "\n"@
}

/// The plain listing of models, given where the configuration lives.
pub fn model_list_text(
    current_model: Option<&ConfiguredModel>,
    candidates: &Vec<ConfiguredModel>,
    config_path: &str,
) -> (r: String)
    ensures
        r@ == spec_model_list(
            opt_ref_view(current_model),
            model_views(candidates@),
            config_path@,
        ),
{
    let ghost cur = match current_model {
        Some(m) => Some(m@),
        None => None::<ModelView>,
    };
    let ghost cv = model_views(candidates@);
    let mut w: Vec<char> = Vec::new();
    push_str_chars(&mut w, "lint-lang models\n\n");
    match current_model {
        Some(m) => {
            push_str_chars(&mut w, "current: ");
            push_str_chars(&mut w, m.label().as_str());
            push_str_chars(&mut w, "\n\n");
        },
        None => {},
    }
    let ghost head = w@;
    let mut i: usize = 0;
    assert(cv.take(0) =~= Seq::<ModelView>::empty());
    assert(w@ =~= head + list_lines(cv.take(0), cur));
    while i < candidates.len()
        invariant
            i <= candidates.len(),
            cv == model_views(candidates@),
            w@ == head + list_lines(cv.take(i as int), cur),
            cur == match current_model {
                Some(m) => Some(m@),
                None => None::<ModelView>,
            },
        decreases candidates.len() - i,
    {
        let c = &candidates[i];
        let is_current = match current_model {
            Some(m) => c.same_as(m),
            None => false,
        };
        if is_current {
            push_str_chars(&mut w, "*");
        } else {
            push_str_chars(&mut w, "-");
        }
        push_str_chars(&mut w, " ");
        push_str_chars(&mut w, c.name.as_str());
        push_str_chars(&mut w, " · ");
        push_str_chars(&mut w, c.backend.kind_label());
        push_str_chars(&mut w, "\n");
        proof {
            assert(cv.take(i + 1).drop_last() =~= cv.take(i as int));
            assert(cv.take(i + 1).last() == c@);
            assert(is_current == is_current_model(c@, cur));
            assert(w@ =~= head + list_lines(cv.take(i + 1), cur));
        }
        i = i + 1;
    }
    assert(cv.take(candidates.len() as int) =~= cv);
    push_str_chars(&mut w, "- Download Qwen3 8B GGUF · default downloadable model\n\nconfig: ");
    push_str_chars(&mut w, config_path);
    push_str_chars(&mut w, "\n");
    assert(w@ =~= spec_model_list(cur, cv, config_path@));
    from_chars(&w)
}

/// The plain listing of models, with the configuration file's path; fails
/// when the platform reports no config directory.
pub fn print_model_list(current_model: Option<&ConfiguredModel>, candidates: &Vec<ConfiguredModel>) -> (r:
    Result<String, ConfigError>)
    ensures
        r matches Ok(t) ==> exists|p: Seq<char>|
            (exists|d: Seq<char>| app_dir(d) && p == join(d, "config.toml"@)) && t@
                == #[trigger] spec_model_list(
                opt_ref_view(current_model),
                model_views(candidates@),
                p,
            ),
        r matches Err(e) ==> e == ConfigError::NoConfigDir,
{
    let path = config_path()?;
    Ok(model_list_text(current_model, candidates, path.as_str()))
}

} // verus!
