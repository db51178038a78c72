//! The entries of the model selector: the current model, the candidates and
//! the download entry, each selection listed once.
use vstd::prelude::*;
use crate::config::{spec_kind_label, BackendView, ConfiguredModel, ModelBackend, ModelView};
use crate::text::{from_chars, push_str_chars};
use crate::tui::{sel_key, ModelSelection, SelectionView};

verus! {

/// One entry of the model selector.
#[derive(Debug, PartialEq, Eq)]
pub struct ModelChoice {
    pub selection: ModelSelection,
    pub name: String,
    pub detail: String,
}

/// An entry in terms of characters.
pub struct ChoiceView {
    pub selection: SelectionView,
    pub name: Seq<char>,
    pub detail: Seq<char>,
}

impl View for ModelChoice {
    type V = ChoiceView;

    open spec fn view(&self) -> ChoiceView {
        ChoiceView { selection: self.selection@, name: self.name@, detail: self.detail@ }
    }
}

/// The characters of each entry.
pub open spec fn choice_views(s: Seq<ModelChoice>) -> Seq<ChoiceView> {
    s.map_values(|c: ModelChoice| c@)
}

pub open spec fn spec_candidate_detail(m: ModelView) -> Seq<char> {
    match m.backend {
        BackendView::Llamafile { path } => spec_kind_label(m.backend) + " · "@ + path,
        BackendView::LlamaCpp { model_path, .. } => spec_kind_label(m.backend) + " · "@ + model_path,
        BackendView::Ollama { .. } => spec_kind_label(m.backend),
    }
}

/// The description of a candidate: how it runs and, for a local file, where it is.
pub fn candidate_detail(candidate: &ConfiguredModel) -> (r: String)
    ensures
        r@ == spec_candidate_detail(candidate@),
{
    let mut out: Vec<char> = Vec::new();
    push_str_chars(&mut out, candidate.backend.kind_label());
    match &candidate.backend {
        ModelBackend::Llamafile { path } => {
            push_str_chars(&mut out, " · ");
            push_str_chars(&mut out, path.as_str());
        },
        ModelBackend::LlamaCpp { model_path, .. } => {
            push_str_chars(&mut out, " · ");
            push_str_chars(&mut out, model_path.as_str());
        },
        ModelBackend::Ollama { .. } => {},
    }
    assert(out@ =~= spec_candidate_detail(candidate@));
    from_chars(&out)
}

/// Some entry of `d` has selection `sel`.
pub open spec fn has_selection(d: Seq<ChoiceView>, sel: SelectionView) -> bool {
    exists|i: int| 0 <= i < d.len() && sel_key(d[i].selection) == sel_key(sel)
}

/// `s` with each selection kept only where it first occurs.
pub open spec fn unique_choices(s: Seq<ChoiceView>) -> Seq<ChoiceView>
    decreases s.len(),
{
    if s.len() == 0 {
        s
    } else {
        let d = unique_choices(s.drop_last());
        if has_selection(d, s.last().selection) {
            d
        } else {
            d.push(s.last())
        }
    }
}

pub open spec fn current_choice(c: ModelView) -> ChoiceView {
    ChoiceView {
        selection: SelectionView::ConfiguredModel(c),
        name: c.name,
        detail: "current config · "@ + spec_kind_label(c.backend),
    }
}

pub open spec fn candidate_choice(m: ModelView) -> ChoiceView {
    ChoiceView {
        selection: SelectionView::ConfiguredModel(m),
        name: m.name,
        detail: spec_candidate_detail(m),
    }
}

pub open spec fn download_choice() -> ChoiceView {
    ChoiceView {
        selection: SelectionView::DownloadDefault,
        name: "Download Qwen3 8B GGUF"@,
        detail: "default setup · native llama.cpp + Metal on Mac · no Ollama needed · ~5.0 GB"@,
    }
}

/// The entries offered before repeats are removed: the current model, each
/// candidate, and the download entry when downloading is allowed.
pub open spec fn raw_choices(candidates: Seq<ModelView>, current: Option<ModelView>, allow_download: bool) -> Seq<
    ChoiceView,
> {
    (match current {
        Some(c) => seq![current_choice(c)],
        None => Seq::empty(),
    }) + candidates.map_values(|m: ModelView| candidate_choice(m)) + (if allow_download {
        seq![download_choice()]
    } else {
        Seq::empty()
    })
}

/// The characters of each model.
pub open spec fn model_views(s: Seq<ConfiguredModel>) -> Seq<ModelView> {
    s.map_values(|m: ConfiguredModel| m@)
}

/// Adds an entry unless an entry with the same selection is already there.
pub fn add_choice(choices: &mut Vec<ModelChoice>, choice: ModelChoice)
    ensures
        choice_views(final(choices)@) == if has_selection(choice_views(old(choices)@), choice.selection@) {
            choice_views(old(choices)@)
        } else {
            choice_views(old(choices)@).push(choice@)
        },
{
    let mut i: usize = 0;
    while i < choices.len()
        invariant
            i <= choices.len(),
            forall|j: int| 0 <= j < i ==> sel_key(choices@[j].selection@) != sel_key(choice.selection@),
        decreases choices.len() - i,
    {
        if choices[i].selection.same_as(&choice.selection) {
            assert(sel_key(choice_views(choices@)[i as int].selection) == sel_key(choice.selection@));
            return;
        }
        i = i + 1;
    }
    assert(!has_selection(choice_views(choices@), choice.selection@));
    choices.push(choice);
    assert(choice_views(choices@) =~= choice_views(old(choices)@).push(choice@));
}

/// The selector's entries: the current model first, then the candidates,
/// then the download entry when allowed, each selection once.
pub fn model_choices(
    candidates: &Vec<ConfiguredModel>,
    current_model: Option<&ConfiguredModel>,
    allow_download: bool,
) -> (r: Vec<ModelChoice>)
    ensures
        choice_views(r@) == unique_choices(
            raw_choices(
                model_views(candidates@),
                match current_model {
                    Some(c) => Some(c@),
                    None => None,
                },
                allow_download,
            ),
        ),
{
    let mut choices: Vec<ModelChoice> = Vec::new();
    let ghost mut processed: Seq<ChoiceView> = Seq::empty();
    assert(choice_views(choices@) =~= unique_choices(processed));
    if let Some(current) = current_model {
        let mut detail: Vec<char> = Vec::new();
        push_str_chars(&mut detail, "current config · ");
        push_str_chars(&mut detail, current.backend.kind_label());
        let c = ModelChoice {
            selection: ModelSelection::ConfiguredModel(current.clone()),
            name: current.name.clone(),
            detail: from_chars(&detail),
        };
        assert(c@ == current_choice(current@));
        add_choice(&mut choices, c);
        proof {
            assert(processed.push(current_choice(current@)).drop_last() =~= processed);
            processed = processed.push(current_choice(current@));
        }
    }
    let ghost head = processed;
    let mut i: usize = 0;
    assert(model_views(candidates@).take(0).map_values(|m: ModelView| candidate_choice(m)) =~= Seq::<
        ChoiceView,
    >::empty());
    assert(head + Seq::<ChoiceView>::empty() =~= head);
    while i < candidates.len()
        invariant
            i <= candidates.len(),
            processed == head + model_views(candidates@).take(i as int).map_values(
                |m: ModelView| candidate_choice(m),
            ),
            choice_views(choices@) == unique_choices(processed),
        decreases candidates.len() - i,
    {
        let candidate = &candidates[i];
        let c = ModelChoice {
            selection: ModelSelection::ConfiguredModel(candidate.clone()),
            name: candidate.name.clone(),
            detail: candidate_detail(candidate),
        };
        assert(c@ == candidate_choice(candidate@));
        add_choice(&mut choices, c);
        proof {
            assert(processed.push(candidate_choice(candidate@)).drop_last() =~= processed);
            processed = processed.push(candidate_choice(candidate@));
            assert(model_views(candidates@).take(i + 1).map_values(|m: ModelView| candidate_choice(m))
                =~= model_views(candidates@).take(i as int).map_values(
                |m: ModelView| candidate_choice(m),
            ).push(candidate_choice(candidate@)));
        }
        i = i + 1;
    }
    assert(model_views(candidates@).take(candidates@.len() as int) =~= model_views(candidates@));
    if allow_download {
        let c = ModelChoice {
            selection: ModelSelection::DownloadDefault,
            name: String::from_str("Download Qwen3 8B GGUF"),
            detail: String::from_str(
                "default setup · native llama.cpp + Metal on Mac · no Ollama needed · ~5.0 GB",
            ),
        };
        add_choice(&mut choices, c);
        proof {
            assert(processed.push(download_choice()).drop_last() =~= processed);
            processed = processed.push(download_choice());
        }
    }
    assert(processed =~= raw_choices(
        model_views(candidates@),
        match current_model {
            Some(c) => Some(c@),
            None => None,
        },
        allow_download,
    ));
    choices
}

/// The entries without repeats hold each selection once, and hold exactly
/// the selections of the offered entries.
pub proof fn lemma_unique_choices_distinct(s: Seq<ChoiceView>)
    ensures
        forall|i: int, j: int|
            0 <= i < unique_choices(s).len() && 0 <= j < unique_choices(s).len() && i != j
                ==> sel_key(unique_choices(s)[i].selection) != sel_key(unique_choices(s)[j].selection),
        forall|sel: SelectionView| has_selection(unique_choices(s), sel) <==> has_selection(s, sel),
    decreases s.len(),
{
    if s.len() > 0 {
        let t = s.drop_last();
        lemma_unique_choices_distinct(t);
        let d = unique_choices(t);
        assert forall|sel: SelectionView| has_selection(unique_choices(s), sel) <==> has_selection(s, sel) by {
            let u = unique_choices(s);
            if has_selection(s, sel) {
                let k = choose|k: int| 0 <= k < s.len() && sel_key(s[k].selection) == sel_key(sel);
                if k < s.len() - 1 {
                    assert(sel_key(t[k].selection) == sel_key(sel));
                    assert(has_selection(t, sel));
                    assert(has_selection(d, sel));
                    let k2 = choose|k2: int| 0 <= k2 < d.len() && sel_key(d[k2].selection) == sel_key(sel);
                    if !has_selection(d, s.last().selection) {
                        assert(u[k2] == d[k2]);
                    }
                    assert(has_selection(u, sel));
                } else if !has_selection(d, s.last().selection) {
                    assert(sel_key(d.push(s.last())[d.len() as int].selection) == sel_key(sel));
                } else {
                    assert(has_selection(d, sel));
                }
            }
            if has_selection(unique_choices(s), sel) {
                let u = unique_choices(s);
                let k = choose|k: int| 0 <= k < u.len() && sel_key(u[k].selection) == sel_key(sel);
                if k < d.len() {
                    assert(sel_key(d[k].selection) == sel_key(sel));
                    assert(has_selection(d, sel));
                    assert(has_selection(t, sel));
                    let k2 = choose|k2: int| 0 <= k2 < t.len() && sel_key(t[k2].selection) == sel_key(sel);
                    assert(sel_key(s[k2].selection) == sel_key(sel));
                } else {
                    assert(sel_key(s[s.len() - 1].selection) == sel_key(sel));
                }
            }
        }
        if !has_selection(d, s.last().selection) {
            let u = d.push(s.last());
            assert forall|i: int, j: int|
                0 <= i < u.len() && 0 <= j < u.len() && i != j implies sel_key(u[i].selection)
                != sel_key(u[j].selection) by {
                if i == d.len() {
                    assert(sel_key(d[j].selection) != sel_key(s.last().selection));
                } else if j == d.len() {
                    assert(sel_key(d[i].selection) != sel_key(s.last().selection));
                }
            }
        }
    }
}

/// Removing repeats keeps the first entry in place.
pub proof fn lemma_unique_choices_first(s: Seq<ChoiceView>)
    requires
        s.len() > 0,
    ensures
        unique_choices(s).len() > 0,
        unique_choices(s)[0] == s[0],
    decreases s.len(),
{
    let t = s.drop_last();
    if s.len() == 1 {
        assert(t =~= Seq::<ChoiceView>::empty());
        assert(unique_choices(t) =~= Seq::<ChoiceView>::empty());
        assert(!has_selection(unique_choices(t), s.last().selection));
        assert(unique_choices(s) =~= seq![s.last()]);
    } else {
        lemma_unique_choices_first(t);
        assert(t[0] == s[0]);
        let d = unique_choices(t);
        if !has_selection(d, s.last().selection) {
            assert(d.push(s.last())[0] == d[0]);
        }
    }
}

/// The current model is offered first.
pub proof fn lemma_current_model_first(candidates: Seq<ModelView>, current: ModelView, allow_download: bool)
    ensures
        unique_choices(raw_choices(candidates, Some(current), allow_download)).len() > 0,
        unique_choices(raw_choices(candidates, Some(current), allow_download))[0].selection
            == SelectionView::ConfiguredModel(current),
{
    let raw = raw_choices(candidates, Some(current), allow_download);
    assert(raw[0] == current_choice(current));
    lemma_unique_choices_first(raw);
}

/// When downloading is allowed, the download entry is offered last.
pub proof fn lemma_download_choice_last(candidates: Seq<ModelView>, current: Option<ModelView>)
    ensures
        unique_choices(raw_choices(candidates, current, true)).len() > 0,
        unique_choices(raw_choices(candidates, current, true)).last() == download_choice(),
{
    let raw = raw_choices(candidates, current, true);
    let t = raw.drop_last();
    assert(raw.last() == download_choice());
    assert forall|k: int| 0 <= k < t.len() implies sel_key(t[k].selection) != sel_key(SelectionView::DownloadDefault) by {
        assert(t[k] == raw[k]);
        let n0: int = if current is Some { 1 } else { 0 };
        if k >= n0 {
            assert(raw[k] == candidate_choice(candidates[k - n0]));
        }
    }
    lemma_unique_choices_distinct(t);
    assert(!has_selection(t, SelectionView::DownloadDefault));
    assert(!has_selection(unique_choices(t), SelectionView::DownloadDefault));
}

} // verus!
