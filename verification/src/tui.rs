//! Decisions behind the terminal UI: what a key press does to the model
//! selector, which entry starts highlighted, and the loading line.
use vstd::prelude::*;
use crate::config::{model_key, opt_ref_view, BackendView, ConfiguredModel, ModelKey, ModelView};
use crate::prompt::{locale_label, GrammarLocale};
use crate::text::{find, from_chars, push_str_chars, slice_of, to_chars};
use crate::tui_model_list::{ChoiceView, ModelChoice};

verus! {

/// What the user picked in the model selector.
#[derive(Debug, PartialEq, Eq, Hash)]
pub enum ModelSelection {
    ConfiguredModel(ConfiguredModel),
    DownloadDefault,
}

/// A selection in terms of characters.
pub enum SelectionView {
    ConfiguredModel(ModelView),
    DownloadDefault,
}

/// What `==` on selections compares: the model's key, or the download
/// entry (`None`).
pub open spec fn sel_key(s: SelectionView) -> Option<ModelKey> {
    match s {
        SelectionView::ConfiguredModel(m) => Some(model_key(m)),
        SelectionView::DownloadDefault => None,
    }
}

impl View for ModelSelection {
    type V = SelectionView;

    open spec fn view(&self) -> SelectionView {
        match self {
            ModelSelection::ConfiguredModel(m) => SelectionView::ConfiguredModel(m@),
            ModelSelection::DownloadDefault => SelectionView::DownloadDefault,
        }
    }
}

impl Clone for ModelSelection {
    fn clone(&self) -> (r: Self)
        ensures
            r == *self,
    {
        match self {
            ModelSelection::ConfiguredModel(m) => ModelSelection::ConfiguredModel(m.clone()),
            ModelSelection::DownloadDefault => ModelSelection::DownloadDefault,
        }
    }
}

impl ModelSelection {
    /// Whether two selections are the same, paths compared by their components.
    pub fn same_as(&self, other: &ModelSelection) -> (r: bool)
        ensures
            r == (sel_key(self@) == sel_key(other@)),
    {
        match (self, other) {
            (ModelSelection::ConfiguredModel(a), ModelSelection::ConfiguredModel(b)) => a.same_as(b),
            (ModelSelection::DownloadDefault, ModelSelection::DownloadDefault) => true,
            _ => false,
        }
    }
}

/// Whether the selector saves a choice or only shows the list.
#[derive(Debug, Clone, Copy, PartialEq, Eq, Structural)]
pub enum ModelListMode {
    Select,
    Browse,
}

pub open spec fn spec_model_list_title(mode: ModelListMode) -> Seq<char> {
    match mode {
        ModelListMode::Select => " setup needs a grammar model."@,
        ModelListMode::Browse => " models found for grammar linting."@,
    }
}

/// The text after the title of the selector.
pub fn model_list_title(mode: ModelListMode) -> (r: &'static str)
    ensures
        r@ == spec_model_list_title(mode),
{
    match mode {
        ModelListMode::Select => " setup needs a grammar model.",
        ModelListMode::Browse => " models found for grammar linting.",
    }
}

pub open spec fn spec_model_list_footer(mode: ModelListMode) -> Seq<char> {
    match mode {
        ModelListMode::Select => "↑/↓ or j/k move · Enter saves · Esc/q cancels"@,
        ModelListMode::Browse => "↑/↓ or j/k move · Enter/Esc/q closes"@,
    }
}

/// The key help at the bottom of the selector.
pub fn model_list_footer(mode: ModelListMode) -> (r: &'static str)
    ensures
        r@ == spec_model_list_footer(mode),
{
    match mode {
        ModelListMode::Select => "↑/↓ or j/k move · Enter saves · Esc/q cancels",
        ModelListMode::Browse => "↑/↓ or j/k move · Enter/Esc/q closes",
    }
}

/// The spinner frame shown at step `i`.
pub open spec fn spec_spinner(i: nat) -> Seq<char> {
    let k = i % 10;
    if k == 0 {
        "⠋"@
    } else if k == 1 {
        "⠙"@
    } else if k == 2 {
        "⠹"@
    } else if k == 3 {
        "⠸"@
    } else if k == 4 {
        "⠼"@
    } else if k == 5 {
        "⠴"@
    } else if k == 6 {
        "⠦"@
    } else if k == 7 {
        "⠧"@
    } else if k == 8 {
        "⠇"@
    } else {
        "⠏"@
    }
}

/// The spinner frame shown at step `i`; the ten frames repeat.
pub fn spinner_frame(i: usize) -> (r: &'static str)
    ensures
        r@ == spec_spinner(i as nat),
{
    let k = i % 10;
    if k == 0 {
        "⠋"
    } else if k == 1 {
        "⠙"
    } else if k == 2 {
        "⠹"
    } else if k == 3 {
        "⠸"
    } else if k == 4 {
        "⠼"
    } else if k == 5 {
        "⠴"
    } else if k == 6 {
        "⠦"
    } else if k == 7 {
        "⠧"
    } else if k == 8 {
        "⠇"
    } else {
        "⠏"
    }
}

/// The model label without the ` (path)` part that follows the name.
pub open spec fn spec_compact_model_label(label: Seq<char>) -> Seq<char> {
    match find(label, " ("@) {
        Some(i) => label.take(i),
        None => label,
    }
}

/// The model name part of a label such as `qwen.gguf (/models/qwen.gguf)`.
pub fn compact_model_label(model_label: &str) -> (r: &str)
    ensures
        r@ == spec_compact_model_label(model_label@),
{
    let v = to_chars(model_label);
    let pat = to_chars(" (");
    match crate::text::find_chars(&v, &pat) {
        Some(i) => {
            proof {
                crate::text::lemma_find_from_bounds(v@, pat@, 0);
                assert(crate::text::matches_at(v@, pat@, i as int));
            }
            let r = model_label.substring_char(0, i);
            assert(r@ =~= model_label@.take(i as int));
            r
        },
        None => model_label,
    }
}

pub open spec fn spec_loading_line(label: Seq<char>, locale: GrammarLocale, frame: nat) -> Seq<char> {
    spec_spinner(frame) + " Fixing "@ + locale_label(locale) + " grammar with "@
        + spec_compact_model_label(label)
}

/// The one-line status shown while a correction runs.
pub fn loading_line(model_label: &str, locale: GrammarLocale, frame_index: usize) -> (r: String)
    ensures
        r@ == spec_loading_line(model_label@, locale, frame_index as nat),
{
    let mut out: Vec<char> = Vec::new();
    push_str_chars(&mut out, spinner_frame(frame_index));
    push_str_chars(&mut out, " Fixing ");
    push_str_chars(&mut out, locale.label());
    push_str_chars(&mut out, " grammar with ");
    push_str_chars(&mut out, compact_model_label(model_label));
    assert(out@ =~= spec_loading_line(model_label@, locale, frame_index as nat));
    from_chars(&out)
}

pub open spec fn spec_truncate_line(line: Seq<char>, max_chars: nat) -> Seq<char> {
    if line.len() <= max_chars {
        line
    } else {
        line.take(if max_chars == 0 {
            0
        } else {
            max_chars - 1
        }) + seq!['…']
    }
}

/// `line` cut to `max_chars` characters, the last of which becomes `…`
/// when anything was cut.
pub fn truncate_line(line: &str, max_chars: usize) -> (r: String)
    ensures
        r@ == spec_truncate_line(line@, max_chars as nat),
{
    let v = to_chars(line);
    if v.len() <= max_chars {
        return from_chars(&v);
    }
    let keep = max_chars.saturating_sub(1);
    let mut out = slice_of(&v, 0, keep);
    out.push('…');
    assert(out@ =~= spec_truncate_line(line@, max_chars as nat));
    from_chars(&out)
}

proof fn lemma_concat_without(a: Seq<char>, b: Seq<char>, x: char)
    requires
        !a.contains(x),
        !b.contains(x),
    ensures
        !(a + b).contains(x),
{
    assert forall|i: int| 0 <= i < (a + b).len() implies (a + b)[i] != x by {
        if i < a.len() {
            assert((a + b)[i] == a[i]);
        } else {
            assert((a + b)[i] == b[i - a.len()]);
        }
    }
}

proof fn lemma_literal_without_newline(s: Seq<char>)
    requires
        forall|i: int| 0 <= i < s.len() ==> s[i] != '\n',
    ensures
        !s.contains('\n'),
{
}

/// The loading status is a single line: it holds no line break unless the
/// model label's name part does.
pub proof fn lemma_loading_line_is_single_line(label: Seq<char>, locale: GrammarLocale, frame: nat)
    requires
        !label.contains('\n'),
    ensures
        !spec_loading_line(label, locale, frame).contains('\n'),
{
    reveal_strlit("⠋");
    reveal_strlit("⠙");
    reveal_strlit("⠹");
    reveal_strlit("⠸");
    reveal_strlit("⠼");
    reveal_strlit("⠴");
    reveal_strlit("⠦");
    reveal_strlit("⠧");
    reveal_strlit("⠇");
    reveal_strlit("⠏");
    reveal_strlit(" Fixing ");
    reveal_strlit("en");
    reveal_strlit("pt-BR");
    reveal_strlit(" grammar with ");
    let sp = spec_spinner(frame);
    lemma_literal_without_newline(sp);
    lemma_literal_without_newline(" Fixing "@);
    lemma_literal_without_newline(locale_label(locale));
    lemma_literal_without_newline(" grammar with "@);
    let c = spec_compact_model_label(label);
    crate::text::lemma_find_from_bounds(label, " ("@, 0);
    assert forall|i: int| 0 <= i < c.len() implies c[i] != '\n' by {
        assert(c[i] == label[i]);
        assert(!label.contains('\n'));
        if label[i] == '\n' {
            assert(label.contains('\n'));
        }
    }
    lemma_concat_without(sp, " Fixing "@, '\n');
    lemma_concat_without(sp + " Fixing "@, locale_label(locale), '\n');
    lemma_concat_without(sp + " Fixing "@ + locale_label(locale), " grammar with "@, '\n');
    lemma_concat_without(sp + " Fixing "@ + locale_label(locale) + " grammar with "@, c, '\n');
}

/// A truncated line never has more characters than the limit, unless the
/// limit is zero; a line within the limit is kept whole.
pub proof fn lemma_truncate_fits(line: Seq<char>, max_chars: nat)
    ensures
        max_chars >= 1 ==> spec_truncate_line(line, max_chars).len() <= max_chars,
        line.len() <= max_chars ==> spec_truncate_line(line, max_chars) == line,
{
}

/// The width available for the loading line: the terminal width (80 when
/// unknown) minus one, but at least 20.
pub fn loading_width(terminal_width: Option<u16>) -> (r: usize)
    ensures
        r == (match terminal_width {
            Some(w) => if w >= 21 {
                w - 1
            } else {
                20
            },
            None => 79,
        }),
{
    let w: usize = match terminal_width {
        Some(w) => w as usize,
        None => 80,
    };
    let w = w.saturating_sub(1);
    if w < 20 {
        20
    } else {
        w
    }
}

/// A key press, as the selector sees it.
#[derive(Debug, Clone, Copy, PartialEq, Eq, Structural)]
pub enum Key {
    Up,
    Down,
    Home,
    End,
    Enter,
    Esc,
    Char(char),
    Other,
}

/// What a key press does in the selecting mode.
#[derive(Debug, Clone, Copy, PartialEq, Eq, Structural)]
pub enum SelectStep {
    /// Highlight this entry.
    Highlight(usize),
    /// Save this entry.
    Choose(usize),
    /// Leave without a choice.
    Cancel,
}

/// The entry highlighted after moving: up and `k` go one up (stopping at
/// the top), down and `j` one down (stopping at the bottom), Home and End to
/// the ends; other keys keep the highlight.
pub open spec fn spec_moved(selected: nat, len: nat, key: Key) -> nat {
    match key {
        Key::Up => if selected == 0 {
            0
        } else {
            (selected - 1) as nat
        },
        Key::Char('k') => if selected == 0 {
            0
        } else {
            (selected - 1) as nat
        },
        Key::Down => if selected + 1 < len {
            selected + 1
        } else {
            (len - 1) as nat
        },
        Key::Char('j') => if selected + 1 < len {
            selected + 1
        } else {
            (len - 1) as nat
        },
        Key::Home => 0,
        Key::End => (len - 1) as nat,
        _ => selected,
    }
}

/// Moving goes one entry at a time: down (or `j`) highlights the next entry
/// unless the last is highlighted, up (or `k`) the previous unless the first
/// is; Home and End go to the ends, other keys stay. One step down and one
/// up come back to where they started.
pub proof fn lemma_keys_move_one_entry(selected: nat, len: nat)
    requires
        selected < len,
    ensures
        selected + 1 < len ==> spec_moved(selected, len, Key::Down) == selected + 1
            && spec_moved(selected, len, Key::Char('j')) == selected + 1,
        selected + 1 == len ==> spec_moved(selected, len, Key::Down) == selected && spec_moved(
            selected,
            len,
            Key::Char('j'),
        ) == selected,
        selected > 0 ==> spec_moved(selected, len, Key::Up) == selected - 1 && spec_moved(
            selected,
            len,
            Key::Char('k'),
        ) == selected - 1,
        selected == 0 ==> spec_moved(selected, len, Key::Up) == 0 && spec_moved(
            selected,
            len,
            Key::Char('k'),
        ) == 0,
        spec_moved(selected, len, Key::Home) == 0,
        spec_moved(selected, len, Key::End) == len - 1,
        spec_moved(selected, len, Key::Other) == selected,
        selected + 1 < len ==> spec_moved(spec_moved(selected, len, Key::Down), len, Key::Up)
            == selected,
        forall|key: Key| spec_moved(selected, len, key) < len,
{
}

fn moved(selected: usize, len: usize, key: Key) -> (r: usize)
    requires
        selected < len,
    ensures
        r == spec_moved(selected as nat, len as nat, key),
        r < len,
{
    match key {
        Key::Up => selected.saturating_sub(1),
        Key::Char('k') => selected.saturating_sub(1),
        Key::Down => if selected + 1 < len {
            selected + 1
        } else {
            len - 1
        },
        Key::Char('j') => if selected + 1 < len {
            selected + 1
        } else {
            len - 1
        },
        Key::Home => 0,
        Key::End => len - 1,
        _ => selected,
    }
}

/// What a key does while choosing a model: `q` and Esc cancel, Enter
/// chooses the highlighted entry, and the other keys move the highlight.
pub fn select_key_step(selected: usize, len: usize, key: Key) -> (r: SelectStep)
    requires
        selected < len,
    ensures
        (key == Key::Char('q') || key == Key::Esc) ==> r == SelectStep::Cancel,
        key == Key::Enter ==> r == SelectStep::Choose(selected),
        !(key == Key::Char('q') || key == Key::Esc || key == Key::Enter) ==> r
            == SelectStep::Highlight(spec_moved(selected as nat, len as nat, key) as usize),
        r matches SelectStep::Highlight(i) ==> i < len,
{
    match key {
        Key::Char('q') => SelectStep::Cancel,
        Key::Esc => SelectStep::Cancel,
        Key::Enter => SelectStep::Choose(selected),
        _ => SelectStep::Highlight(moved(selected, len, key)),
    }
}

/// What a key does while browsing: `q`, Esc and Enter close the list, and
/// the other keys move the highlight. `None` means close.
pub fn browse_key_step(selected: usize, len: usize, key: Key) -> (r: Option<usize>)
    requires
        selected < len,
    ensures
        (key == Key::Char('q') || key == Key::Esc || key == Key::Enter) ==> r is None,
        !(key == Key::Char('q') || key == Key::Esc || key == Key::Enter) ==> r == Some(
            spec_moved(selected as nat, len as nat, key) as usize,
        ),
        r matches Some(i) ==> i < len,
{
    match key {
        Key::Char('q') => None,
        Key::Esc => None,
        Key::Enter => None,
        _ => Some(moved(selected, len, key)),
    }
}

/// A selection runs a local model file.
pub open spec fn is_local_selection(s: SelectionView) -> bool {
    match s {
        SelectionView::ConfiguredModel(m) => match m.backend {
            BackendView::Llamafile { .. } => true,
            BackendView::LlamaCpp { .. } => true,
            BackendView::Ollama { .. } => false,
        },
        SelectionView::DownloadDefault => false,
    }
}

/// The first index at or after `k` whose choice selects model `c`.
pub open spec fn first_current_from(choices: Seq<ChoiceView>, c: ModelView, k: int) -> Option<int>
    decreases choices.len() - k,
{
    if k < 0 || k >= choices.len() {
        None
    } else if sel_key(choices[k].selection) == Some(model_key(c)) {
        Some(k)
    } else {
        first_current_from(choices, c, k + 1)
    }
}

/// The first index at or after `k` whose choice is a local model.
pub open spec fn first_local_from(choices: Seq<ChoiceView>, k: int) -> Option<int>
    decreases choices.len() - k,
{
    if k < 0 || k >= choices.len() {
        None
    } else if is_local_selection(choices[k].selection) {
        Some(k)
    } else {
        first_local_from(choices, k + 1)
    }
}

/// The first index at or after `k` whose choice is the download entry.
pub open spec fn first_download_from(choices: Seq<ChoiceView>, k: int) -> Option<int>
    decreases choices.len() - k,
{
    if k < 0 || k >= choices.len() {
        None
    } else if choices[k].selection == SelectionView::DownloadDefault {
        Some(k)
    } else {
        first_download_from(choices, k + 1)
    }
}

/// The entry highlighted when the selector opens: the current model, else
/// the first local model, else the download entry, else the first entry.
pub open spec fn spec_initial_choice(choices: Seq<ChoiceView>, current: Option<ModelView>) -> nat {
    let by_current = match current {
        Some(c) => first_current_from(choices, c, 0),
        None => None,
    };
    match by_current {
        Some(i) => i as nat,
        None => match first_local_from(choices, 0) {
            Some(i) => i as nat,
            None => match first_download_from(choices, 0) {
                Some(i) => i as nat,
                None => 0,
            },
        },
    }
}

proof fn lemma_first_current_from(choices: Seq<ChoiceView>, c: ModelView, k: int)
    requires
        0 <= k,
    ensures
        first_current_from(choices, c, k) matches Some(i) ==> k <= i < choices.len()
            && sel_key(choices[i].selection) == Some(model_key(c)),
        (exists|j: int|
            k <= j < choices.len() && sel_key(choices[j].selection) == Some(model_key(c)))
            ==> first_current_from(choices, c, k) is Some,
    decreases choices.len() - k,
{
    if k < choices.len() {
        lemma_first_current_from(choices, c, k + 1);
    }
}

proof fn lemma_first_local_from(choices: Seq<ChoiceView>, k: int)
    requires
        0 <= k,
    ensures
        first_local_from(choices, k) matches Some(i) ==> k <= i < choices.len(),
    decreases choices.len() - k,
{
    if k < choices.len() {
        lemma_first_local_from(choices, k + 1);
    }
}

proof fn lemma_first_download_from(choices: Seq<ChoiceView>, k: int)
    requires
        0 <= k,
    ensures
        first_download_from(choices, k) matches Some(i) ==> k <= i < choices.len(),
    decreases choices.len() - k,
{
    if k < choices.len() {
        lemma_first_download_from(choices, k + 1);
    }
}

/// The selector opens on an entry of the list, and on the current model
/// whenever the list offers it.
pub proof fn lemma_initial_choice_in_list(choices: Seq<ChoiceView>, current: Option<ModelView>)
    ensures
        choices.len() > 0 ==> spec_initial_choice(choices, current) < choices.len(),
        current matches Some(c) ==> ((exists|j: int|
            0 <= j < choices.len() && sel_key(choices[j].selection) == Some(model_key(c)))
            ==> sel_key(choices[spec_initial_choice(choices, current) as int].selection)
            == Some(model_key(c))),
{
    lemma_first_local_from(choices, 0);
    lemma_first_download_from(choices, 0);
    match current {
        Some(c) => lemma_first_current_from(choices, c, 0),
        None => {},
    }
}

fn is_local_choice(s: &ModelSelection) -> (r: bool)
    ensures
        r == is_local_selection(s@),
{
    match s {
        ModelSelection::ConfiguredModel(m) => match &m.backend {
            crate::config::ModelBackend::Llamafile { .. } => true,
            crate::config::ModelBackend::LlamaCpp { .. } => true,
            crate::config::ModelBackend::Ollama { .. } => false,
        },
        ModelSelection::DownloadDefault => false,
    }
}

/// The entry highlighted when the selector opens.
pub fn initial_model_choice(choices: &Vec<ModelChoice>, current_model: Option<&ConfiguredModel>) -> (r:
    usize)
    ensures
        r == spec_initial_choice(crate::tui_model_list::choice_views(choices@), opt_ref_view(current_model)),
        choices.len() > 0 ==> r < choices.len(),
{
    let ghost cv = crate::tui_model_list::choice_views(choices@);
    if let Some(current) = current_model {
        let mut i: usize = 0;
        while i < choices.len()
            invariant
                i <= choices.len(),
                cv == crate::tui_model_list::choice_views(choices@),
                first_current_from(cv, current@, 0) == first_current_from(cv, current@, i as int),
                current_model == Some(current),
            decreases choices.len() - i,
        {
            assert(cv[i as int] == choices@[i as int]@);
            let hit = match &choices[i].selection {
                ModelSelection::ConfiguredModel(m) => m.same_as(current),
                ModelSelection::DownloadDefault => false,
            };
            assert(hit == (sel_key(cv[i as int].selection) == Some(model_key(current@))));
            if hit {
                assert(opt_ref_view(current_model) == Some(current@));
                return i;
            }
            i = i + 1;
        }
    }
    let mut i: usize = 0;
    while i < choices.len()
        invariant
            i <= choices.len(),
            cv == crate::tui_model_list::choice_views(choices@),
            first_local_from(cv, 0) == first_local_from(cv, i as int),
            opt_ref_view(current_model) matches Some(c) ==> first_current_from(cv, c, 0) is None,
        decreases choices.len() - i,
    {
        assert(cv[i as int] == choices@[i as int]@);
        if is_local_choice(&choices[i].selection) {
            return i;
        }
        i = i + 1;
    }
    let mut i: usize = 0;
    while i < choices.len()
        invariant
            i <= choices.len(),
            cv == crate::tui_model_list::choice_views(choices@),
            first_download_from(cv, 0) == first_download_from(cv, i as int),
            opt_ref_view(current_model) matches Some(c) ==> first_current_from(cv, c, 0) is None,
            first_local_from(cv, 0) is None,
        decreases choices.len() - i,
    {
        assert(cv[i as int] == choices@[i as int]@);
        let hit = match &choices[i].selection {
            ModelSelection::DownloadDefault => true,
            _ => false,
        };
        if hit {
            return i;
        }
        i = i + 1;
    }
    0
}

} // verus!
