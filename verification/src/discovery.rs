//! Finding local model files: which files are models, which are already
//! known, how many are kept, and the order they are listed in.
use vstd::prelude::*;
use crate::config::{
    clone_opt, contains_path, extension_is, path_keys, opt_view, views, BackendView, ConfiguredModel,
    ModelBackend, ModelView,
};
use crate::path::{file_name, file_name_chars, has_extension, lower_code, path_key};
use crate::order::{
    lemma_lex_lt_asymmetric, lemma_lex_lt_transitive, lemma_lex_not_lt, lex_lt, lex_lt_exec,
};
use crate::text::{from_chars, push_str_chars, to_chars};
use crate::tui_model_list::model_views;

verus! {

/// Directory levels below a model directory that are scanned.
pub const MAX_SCAN_DEPTH: u8 = 3;

/// Models kept at most.
pub const MAX_MODELS: usize = 200;

/// Whether a directory at `depth` below a model directory is scanned.
pub fn within_scan_depth(depth: u8) -> (r: bool)
    ensures
        r == (depth <= MAX_SCAN_DEPTH),
{
    depth <= MAX_SCAN_DEPTH
}

/// A file met while scanning the model directories, in scan order.
#[derive(Debug, Clone)]
pub struct ScannedFile {
    /// The path as found.
    pub path: String,
    /// The canonical path, when the file system could resolve it.
    pub canonical: Option<String>,
}

/// A scanned file in terms of characters.
pub struct ScannedView {
    pub path: Seq<char>,
    pub canonical: Option<Seq<char>>,
}

impl View for ScannedFile {
    type V = ScannedView;

    open spec fn view(&self) -> ScannedView {
        ScannedView { path: self.path@, canonical: opt_view(self.canonical) }
    }
}

/// The model a file holds: `.llamafile` files are llamafiles and `.gguf`
/// files run through llama.cpp; other files, and paths without a file name,
/// are not models.
pub open spec fn spec_model_from_file(p: Seq<char>, llama_cli: Option<Seq<char>>) -> Option<ModelView> {
    match file_name(p) {
        Some(f) => if has_extension(p, "llamafile"@) {
            Some(ModelView { name: f, backend: BackendView::Llamafile { path: p } })
        } else if has_extension(p, "gguf"@) {
            Some(
                ModelView {
                    name: f,
                    backend: BackendView::LlamaCpp { model_path: p, llama_cli: llama_cli },
                },
            )
        } else {
            None
        },
        None => None,
    }
}

/// The model held by the file at `path`, if it is one.
pub fn model_from_file(path: &str, llama_cli: Option<String>) -> (r: Option<ConfiguredModel>)
    ensures
        match r {
            Some(m) => spec_model_from_file(path@, opt_view(llama_cli)) == Some(m@),
            None => spec_model_from_file(path@, opt_view(llama_cli)) is None,
        },
{
    let v = to_chars(path);
    let name = match file_name_chars(&v) {
        Some(f) => from_chars(&f),
        None => {
            return None;
        },
    };
    if extension_is(path, "llamafile") {
        return Some(
            ConfiguredModel { name, backend: ModelBackend::Llamafile { path: String::from_str(path) } },
        );
    }
    if extension_is(path, "gguf") {
        return Some(
            ConfiguredModel {
                name,
                backend: ModelBackend::LlamaCpp { model_path: String::from_str(path), llama_cli },
            },
        );
    }
    None
}

pub open spec fn spec_model_path(m: ModelView) -> Option<Seq<char>> {
    match m.backend {
        BackendView::Llamafile { path } => Some(path),
        BackendView::LlamaCpp { model_path, .. } => Some(model_path),
        BackendView::Ollama { .. } => None,
    }
}

/// The file a model runs from; Ollama models have none.
pub fn model_path(model: &ConfiguredModel) -> (r: Option<&str>)
    ensures
        match r {
            Some(p) => spec_model_path(model@) == Some(p@),
            None => spec_model_path(model@) is None,
        },
{
    match &model.backend {
        ModelBackend::Llamafile { path } => Some(path.as_str()),
        ModelBackend::LlamaCpp { model_path, .. } => Some(model_path.as_str()),
        ModelBackend::Ollama { .. } => None,
    }
}

/// The models found in the scanned files so far, and the keys (canonical
/// path, else path) of the files they came from. Once `MAX_MODELS` models
/// are kept, later files are ignored; a file whose key was already seen is
/// skipped.
pub open spec fn collected(files: Seq<ScannedView>, llama_cli: Option<Seq<char>>) -> (Seq<ModelView>, Seq<Seq<char>>)
    decreases files.len(),
{
    if files.len() == 0 {
        (Seq::empty(), Seq::empty())
    } else {
        let (ms, seen) = collected(files.drop_last(), llama_cli);
        let f = files.last();
        if ms.len() >= MAX_MODELS {
            (ms, seen)
        } else {
            match spec_model_from_file(f.path, llama_cli) {
                None => (ms, seen),
                Some(m) => {
                    let key = match f.canonical {
                        Some(c) => c,
                        None => f.path,
                    };
                    if path_keys(seen).contains(path_key(key)) {
                        (ms, seen)
                    } else {
                        (ms.push(m), seen.push(key))
                    }
                },
            }
        }
    }
}

/// The four characters of `name` from `i` on spell "qwen", ignoring ASCII case.
pub open spec fn qwen_at(name: Seq<char>, i: int) -> bool {
    &&& 0 <= i
    &&& i + 4 <= name.len()
    &&& lower_code(name[i]) == 'q' as u32
    &&& lower_code(name[i + 1]) == 'w' as u32
    &&& lower_code(name[i + 2]) == 'e' as u32
    &&& lower_code(name[i + 3]) == 'n' as u32
}

/// A name mentions Qwen, ignoring ASCII case.
pub open spec fn mentions_qwen(name: Seq<char>) -> bool {
    exists|i: int| #[trigger] qwen_at(name, i)
}

/// Llamafiles list before GGUF models, which list before Ollama models.
pub open spec fn backend_rank_of(b: BackendView) -> u8 {
    match b {
        BackendView::Llamafile { .. } => 0,
        BackendView::LlamaCpp { .. } => 1,
        BackendView::Ollama { .. } => 2,
    }
}

/// `a` sorts strictly after `b`: models naming Qwen come first, then by
/// backend rank, then by name.
pub open spec fn sorts_after(a: ModelView, b: ModelView) -> bool {
    let qa = mentions_qwen(a.name);
    let qb = mentions_qwen(b.name);
    if qa != qb {
        qb
    } else if backend_rank_of(a.backend) != backend_rank_of(b.backend) {
        backend_rank_of(a.backend) > backend_rank_of(b.backend)
    } else {
        lex_lt(b.name, a.name)
    }
}

/// `x` put into sorted `s` after every entry that does not sort after it.
pub open spec fn insert_sorted(s: Seq<ModelView>, x: ModelView) -> Seq<ModelView>
    decreases s.len(),
{
    if s.len() == 0 || !sorts_after(s.last(), x) {
        s.push(x)
    } else {
        insert_sorted(s.drop_last(), x).push(s.last())
    }
}

/// The stable sort of `s` by the model order.
pub open spec fn sorted_models(s: Seq<ModelView>) -> Seq<ModelView>
    decreases s.len(),
{
    if s.len() == 0 {
        s
    } else {
        insert_sorted(sorted_models(s.drop_last()), s.last())
    }
}

/// No model in `s` sorts after a later one.
pub open spec fn models_sorted(s: Seq<ModelView>) -> bool {
    forall|i: int, j: int| 0 <= i < j < s.len() ==> !#[trigger] sorts_after(s[i], s[j])
}

proof fn lemma_sorts_after_asymmetric(a: ModelView, b: ModelView)
    ensures
        sorts_after(a, b) ==> !sorts_after(b, a),
{
    lemma_lex_lt_asymmetric(b.name, a.name);
}

proof fn lemma_not_after_transitive(a: ModelView, b: ModelView, c: ModelView)
    ensures
        !sorts_after(a, b) && !sorts_after(b, c) ==> !sorts_after(a, c),
{
    lemma_lex_not_lt(a.name, b.name);
    lemma_lex_not_lt(b.name, c.name);
    lemma_lex_not_lt(a.name, c.name);
    lemma_lex_lt_transitive(a.name, b.name, c.name);
}

proof fn lemma_insert_sorted(s: Seq<ModelView>, x: ModelView)
    requires
        models_sorted(s),
    ensures
        models_sorted(insert_sorted(s, x)),
        insert_sorted(s, x).to_multiset() =~= s.to_multiset().insert(x),
    decreases s.len(),
{
    broadcast use vstd::seq_lib::group_to_multiset_ensures;

    if s.len() == 0 || !sorts_after(s.last(), x) {
        let r = s.push(x);
        assert forall|i: int, j: int| 0 <= i < j < r.len() implies !#[trigger] sorts_after(
            r[i],
            r[j],
        ) by {
            if j == s.len() && i < s.len() - 1 {
                assert(!sorts_after(s[i], s[s.len() - 1]));
                lemma_not_after_transitive(s[i], s.last(), x);
            }
        }
    } else {
        let d = s.drop_last();
        assert(models_sorted(d)) by {
            assert forall|i: int, j: int| 0 <= i < j < d.len() implies !#[trigger] sorts_after(
                d[i],
                d[j],
            ) by {
                assert(!sorts_after(s[i], s[j]));
            }
        }
        lemma_insert_sorted(d, x);
        let t = insert_sorted(d, x);
        let r = t.push(s.last());
        assert(s =~= d.push(s.last()));
        assert forall|i: int, j: int| 0 <= i < j < r.len() implies !#[trigger] sorts_after(
            r[i],
            r[j],
        ) by {
            if j == t.len() {
                let e = t[i];
                assert(t.to_multiset().count(e) > 0);
                if e == x {
                    lemma_sorts_after_asymmetric(s.last(), x);
                } else {
                    assert(d.to_multiset().count(e) > 0);
                    let k = choose|k: int| 0 <= k < d.len() && d[k] == e;
                    assert(!sorts_after(s[k], s[s.len() - 1]));
                }
            } else {
                assert(r[i] == t[i] && r[j] == t[j]);
            }
        }
    }
}

/// Sorting models puts them in listing order and keeps each of them,
/// as often as it occurs.
pub proof fn lemma_sorted_models(s: Seq<ModelView>)
    ensures
        models_sorted(sorted_models(s)),
        sorted_models(s).to_multiset() =~= s.to_multiset(),
        sorted_models(s).len() == s.len(),
    decreases s.len(),
{
    broadcast use vstd::seq_lib::group_to_multiset_ensures;

    if s.len() > 0 {
        lemma_sorted_models(s.drop_last());
        lemma_insert_sorted(sorted_models(s.drop_last()), s.last());
        assert(s =~= s.drop_last().push(s.last()));
    }
    assert(sorted_models(s).to_multiset().len() == s.to_multiset().len());
}

fn mentions_qwen_exec(name: &String) -> (r: bool)
    ensures
        r == mentions_qwen(name@),
{
    let v = to_chars(name.as_str());
    if v.len() < 4 {
        return false;
    }
    let mut i: usize = 0;
    while i <= v.len() - 4
        invariant
            v@ == name@,
            v.len() >= 4,
            forall|k: int| 0 <= k < i ==> !#[trigger] qwen_at(name@, k),
        decreases v.len() - i,
    {
        if crate::path::lower_code_of(v[i]) == 'q' as u32 && crate::path::lower_code_of(v[i + 1])
            == 'w' as u32 && crate::path::lower_code_of(v[i + 2]) == 'e' as u32
            && crate::path::lower_code_of(v[i + 3]) == 'n' as u32 {
            assert(qwen_at(name@, i as int));
            return true;
        }
        i = i + 1;
    }
    assert forall|k: int| !#[trigger] qwen_at(name@, k) by {
        if 0 <= k && k < i {
        }
    }
    false
}

/// The backend's place in the listing order.
pub fn backend_rank(model: &ConfiguredModel) -> (r: u8)
    ensures
        r == backend_rank_of(model@.backend),
{
    match &model.backend {
        ModelBackend::Llamafile { .. } => 0,
        ModelBackend::LlamaCpp { .. } => 1,
        ModelBackend::Ollama { .. } => 2,
    }
}

fn sorts_after_exec(a: &ConfiguredModel, b: &ConfiguredModel) -> (r: bool)
    ensures
        r == sorts_after(a@, b@),
{
    let qa = mentions_qwen_exec(&a.name);
    let qb = mentions_qwen_exec(&b.name);
    if qa != qb {
        qb
    } else {
        let ra = backend_rank(a);
        let rb = backend_rank(b);
        if ra != rb {
            ra > rb
        } else {
            lex_lt_exec(&to_chars(b.name.as_str()), &to_chars(a.name.as_str()))
        }
    }
}

/// Puts `x` into the sorted `out` after every model that does not sort after it.
fn insert_model(out: &mut Vec<ConfiguredModel>, x: ConfiguredModel)
    ensures
        model_views(final(out)@) == insert_sorted(model_views(old(out)@), x@),
{
    let ghost s = model_views(out@);
    let mut j: usize = out.len();
    assert(s.take(j as int) =~= s);
    assert(s.skip(j as int) =~= Seq::<ModelView>::empty());
    while j > 0 && sorts_after_exec(&out[j - 1], &x)
        invariant
            j <= out.len(),
            s == model_views(out@),
            insert_sorted(s, x@) == insert_sorted(s.take(j as int), x@) + s.skip(j as int),
        decreases j,
    {
        let ghost t = s.take(j as int);
        assert(t.last() == out@[j - 1]@);
        assert(t.drop_last() =~= s.take(j - 1));
        assert(s.skip(j - 1) =~= seq![t.last()] + s.skip(j as int));
        j = j - 1;
    }
    proof {
        let t = s.take(j as int);
        if j > 0 {
            assert(t.last() == out@[j - 1]@);
        }
        assert(insert_sorted(t, x@) == t.push(x@));
    }
    out.insert(j, x);
    assert(model_views(out@) =~= insert_sorted(s, x@));
}

/// Sorts models: those naming Qwen first, then llamafiles before GGUF
/// before Ollama models, then by name; equal models keep their order.
pub fn sort_models(models: &mut Vec<ConfiguredModel>)
    ensures
        model_views(final(models)@) == sorted_models(model_views(old(models)@)),
{
    let ghost s = model_views(models@);
    let mut out: Vec<ConfiguredModel> = Vec::new();
    let mut i: usize = 0;
    assert(model_views(out@) =~= sorted_models(s.take(0)));
    while i < models.len()
        invariant
            i <= models.len(),
            s == model_views(models@),
            model_views(out@) == sorted_models(s.take(i as int)),
        decreases models.len() - i,
    {
        let x = models[i].clone();
        assert(s.take(i + 1).drop_last() =~= s.take(i as int));
        assert(s.take(i + 1).last() == x@);
        insert_model(&mut out, x);
        i = i + 1;
    }
    assert(s.take(models.len() as int) =~= s);
    *models = out;
}

/// The scanned files in terms of characters.
pub open spec fn scanned_views(files: Seq<ScannedFile>) -> Seq<ScannedView> {
    files.map_values(|f: ScannedFile| f@)
}

/// The key a file is known by: its canonical path when there is one.
pub open spec fn file_key(f: ScannedView) -> Seq<char> {
    match f.canonical {
        Some(c) => c,
        None => f.path,
    }
}

/// Collects the models among the scanned files, in scan order: each file
/// is known by its canonical path (else its path), a file already known
/// is skipped, and files after the first `MAX_MODELS` models are ignored.
fn collect_models(files: &Vec<ScannedFile>, llama_cli: &Option<String>) -> (r: Vec<ConfiguredModel>)
    ensures
        model_views(r@) == collected(scanned_views(files@), opt_view(*llama_cli)).0,
{
    let ghost lc = opt_view(*llama_cli);
    let ghost all = scanned_views(files@);
    let mut models: Vec<ConfiguredModel> = Vec::new();
    let mut seen: Vec<String> = Vec::new();
    let mut i: usize = 0;
    assert(all.take(0) =~= Seq::<ScannedView>::empty());
    assert(model_views(models@) =~= Seq::<ModelView>::empty());
    assert(views(seen@) =~= Seq::<Seq<char>>::empty());
    while i < files.len()
        invariant
            i <= files.len(),
            lc == opt_view(*llama_cli),
            all == scanned_views(files@),
            model_views(models@) == collected(all.take(i as int), lc).0,
            views(seen@) == collected(all.take(i as int), lc).1,
        decreases files.len() - i,
    {
        let ghost before = all.take(i as int);
        let ghost after = all.take(i + 1);
        assert(after.drop_last() =~= before);
        assert(after.last() == files@[i as int]@);
        if models.len() < MAX_MODELS {
            let file = &files[i];
            match model_from_file(file.path.as_str(), clone_opt(llama_cli)) {
                Some(m) => {
                    let key = match &file.canonical {
                        Some(c) => c.clone(),
                        None => file.path.clone(),
                    };
                    assert(key@ == file_key(file@));
                    if !contains_path(&seen, &key) {
                        let ghost ms = models@;
                        let ghost ss = seen@;
                        models.push(m);
                        seen.push(key);
                        assert(model_views(models@) =~= model_views(ms).push(m@));
                        assert(views(seen@) =~= views(ss).push(key@));
                    }
                },
                None => {},
            }
        }
        i = i + 1;
    }
    assert(all.take(files.len() as int) =~= all);
    models
}

/// The models found in the scanned model directories: the files are given
/// in scan order (each directory in turn, entries as the directory lists
/// them, subdirectories up to `MAX_SCAN_DEPTH` levels down); `.llamafile`
/// and `.gguf` files become models, a file whose canonical path was already
/// seen is skipped, at most `MAX_MODELS` are kept, and the result is sorted
/// by `sort_models`.
pub fn discover_local_models(files: &Vec<ScannedFile>, llama_cli: Option<String>) -> (r: Vec<
    ConfiguredModel,
>)
    ensures
        model_views(r@) == sorted_models(
            collected(scanned_views(files@), opt_view(llama_cli)).0,
        ),
{
    let mut models = collect_models(files, &llama_cli);
    sort_models(&mut models);
    models
}

/// Why a local model cannot be used.
pub open spec fn spec_missing_model_message(m: ModelView) -> Option<Seq<char>> {
    match m.backend {
        BackendView::Llamafile { path } => Some("llamafile not found: "@ + path),
        BackendView::LlamaCpp { model_path, .. } => Some("GGUF model not found: "@ + model_path),
        BackendView::Ollama { .. } => None,
    }
}

/// Checks that a local model's file exists (`file_exists` says whether the
/// file system has it); Ollama models always pass.
pub fn validate_local_model(model: &ConfiguredModel, file_exists: bool) -> (r: Result<(), String>)
    ensures
        r is Ok <==> (file_exists || spec_missing_model_message(model@) is None),
        r matches Err(e) ==> spec_missing_model_message(model@) == Some(e@),
{
    if file_exists {
        return Ok(());
    }
    match &model.backend {
        ModelBackend::Llamafile { path } => {
            let mut out: Vec<char> = Vec::new();
            push_str_chars(&mut out, "llamafile not found: ");
            push_str_chars(&mut out, path.as_str());
            proof {
                reveal_strlit("llamafile not found: ");
            }
            Err(from_chars(&out))
        },
        ModelBackend::LlamaCpp { model_path, .. } => {
            let mut out: Vec<char> = Vec::new();
            push_str_chars(&mut out, "GGUF model not found: ");
            push_str_chars(&mut out, model_path.as_str());
            Err(from_chars(&out))
        },
        ModelBackend::Ollama { .. } => Ok(()),
    }
}

/// No two keys in `s` name the same path.
pub open spec fn distinct_keys(s: Seq<Seq<char>>) -> bool {
    path_keys(s).no_duplicates()
}

/// Collecting keeps at most `MAX_MODELS` models, one per key, and no key
/// twice.
pub proof fn lemma_collected_bounded(files: Seq<ScannedView>, llama_cli: Option<Seq<char>>)
    ensures
        collected(files, llama_cli).0.len() <= MAX_MODELS,
        collected(files, llama_cli).0.len() == collected(files, llama_cli).1.len(),
        distinct_keys(collected(files, llama_cli).1),
    decreases files.len(),
{
    if files.len() > 0 {
        lemma_collected_bounded(files.drop_last(), llama_cli);
        let seen = collected(files.drop_last(), llama_cli).1;
        let f = files.last();
        let key = match f.canonical {
            Some(c) => c,
            None => f.path,
        };
        let ks = path_keys(seen);
        assert(path_keys(seen.push(key)) =~= ks.push(path_key(key)));
        if !ks.contains(path_key(key)) {
            assert forall|i: int, j: int|
                0 <= i < ks.len() + 1 && 0 <= j < ks.len() + 1 && i != j implies ks.push(
                path_key(key),
            )[i] != ks.push(path_key(key))[j] by {
                if i == ks.len() {
                    assert(ks[j] != path_key(key));
                } else if j == ks.len() {
                    assert(ks[i] != path_key(key));
                }
            }
        }
    }
}

/// Discovery lists at most `MAX_MODELS` models, in listing order, and
/// lists each model collected from the scanned files exactly as often as
/// it was collected.
pub proof fn lemma_discovery_listing(files: Seq<ScannedView>, llama_cli: Option<Seq<char>>)
    ensures
        sorted_models(collected(files, llama_cli).0).len() <= MAX_MODELS,
        models_sorted(sorted_models(collected(files, llama_cli).0)),
        sorted_models(collected(files, llama_cli).0).to_multiset() =~= collected(
            files,
            llama_cli,
        ).0.to_multiset(),
{
    lemma_collected_bounded(files, llama_cli);
    lemma_sorted_models(collected(files, llama_cli).0);
}

} // verus!
