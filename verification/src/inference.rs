//! Running a grammar fix: which engine a model uses, the command line of a
//! local model binary, when generation stops, and cleanup of raw output.
use vstd::prelude::*;
use crate::config::{
    BackendView, ConfiguredModel, ModelBackend, ModelView, DEFAULT_ENDPOINT,
    DEFAULT_LLAMA_CLI,
};
use crate::ollama::{clean_model_output_chars, lemma_clean_keeps_plain_answer, spec_clean_model_output};
use crate::text::{
    contains, contains_lit, drop_lead, drop_lead_chars, from_chars, push_all, push_str_chars,
    replace, replace_lit, rsplit_once, rsplit_once_lit, split_once, split_once_lit, to_chars, trim,
    trim_chars, CharClass, lemma_no_first_char, lemma_occurs_after, lemma_remove_tail,
    lemma_replace_absent, lemma_split_absent, lemma_trim_of_trimmed, matches_at, occurs, starts_with,
    trim_start, trimmed,
};
use crate::units::{decimal, decimal_chars};

verus! {

/// Tokens generated at most for one correction.
pub const MAX_PREDICTIONS: usize = 160;

/// Context size of a native llama.cpp session, in tokens.
pub const CONTEXT_TOKENS: u32 = 2048;

/// `clean_local_output`: keeps the assistant turn of a chat transcript, drops
/// chat and think tokens, then applies the model-output cleanup.
pub open spec fn spec_clean_local_output(output: Seq<char>) -> Seq<char> {
    let c0 = replace(output, "\r\n"@, "\n"@);
    let c1 = match rsplit_once(c0, "<|im_start|>assistant"@) {
        Some((_, after)) => after,
        None => c0,
    };
    let c2 = match split_once(c1, "<|im_end|>"@) {
        Some((before, _)) => before,
        None => c1,
    };
    let c3 = match rsplit_once(c2, "</think>"@) {
        Some((_, after)) => after,
        None => c2,
    };
    let c4 = replace(
        replace(
            replace(replace(c3, "<|endoftext|>"@, Seq::empty()), "<|im_end|>"@, Seq::empty()),
            "<think>"@,
            Seq::empty(),
        ),
        "</think>"@,
        Seq::empty(),
    );
    spec_clean_model_output(trim(drop_lead(c4, CharClass::Whitespace)))
}

/// `e` holds no `q`: every `<` in `e` starts it, and there the two differ
/// at `k`.
proof fn lemma_token_lacks(e: Seq<char>, q: Seq<char>, k: int)
    requires
        q.len() > 0,
        q[0] == '<',
        0 < k < q.len(),
        forall|i: int| 0 < i < e.len() ==> e[i] != '<',
        e.len() >= q.len() ==> e[k] != q[k],
    ensures
        !occurs(e, q),
{
    assert forall|j: int| !#[trigger] matches_at(e, q, j) by {
        if matches_at(e, q, j) {
            assert(e.subrange(j, j + q.len())[0] == q[0]);
            assert(e.subrange(j, j + q.len())[k] == q[k]);
        }
    }
}

/// A local model's output that ends with the end-of-text token cleans as
/// the same output without it, for plain text (no `<`, no carriage return).
pub proof fn lemma_end_of_text_is_dropped(t: Seq<char>)
    requires
        !t.contains('<'),
        !t.contains('\r'),
    ensures
        spec_clean_local_output(t + "<|endoftext|>"@) == spec_clean_local_output(t),
        spec_clean_local_output(t) == spec_clean_model_output(trim(trim_start(t))),
{
    reveal_strlit("<|endoftext|>");
    reveal_strlit("\r\n");
    reveal_strlit("<|im_start|>assistant");
    reveal_strlit("<|im_end|>");
    reveal_strlit("</think>");
    reveal_strlit("<think>");
    let e = "<|endoftext|>"@;
    let s = t + e;
    assert(forall|i: int| 0 < i < e.len() ==> e[i] != '<');
    assert(forall|i: int| 0 <= i < e.len() ==> e[i] != '\r');
    assert(!s.contains('\r')) by {
        assert forall|i: int| 0 <= i < s.len() implies s[i] != '\r' by {
            if i >= t.len() {
                assert(s[i] == e[i - t.len()]);
            }
        }
    }
    lemma_no_first_char(s, "\r\n"@);
    lemma_no_first_char(t, "\r\n"@);
    lemma_replace_absent(s, "\r\n"@, "\n"@);
    lemma_replace_absent(t, "\r\n"@, "\n"@);
    lemma_token_lacks(e, "<|im_start|>assistant"@, 2);
    lemma_token_lacks(e, "<|im_end|>"@, 2);
    lemma_token_lacks(e, "</think>"@, 1);
    lemma_token_lacks(e, "<think>"@, 1);
    lemma_occurs_after(t, e, "<|im_start|>assistant"@);
    lemma_occurs_after(t, e, "<|im_end|>"@);
    lemma_occurs_after(t, e, "</think>"@);
    lemma_split_absent(s, "<|im_start|>assistant"@);
    lemma_split_absent(s, "<|im_end|>"@);
    lemma_split_absent(s, "</think>"@);
    lemma_no_first_char(t, "<|im_start|>assistant"@);
    lemma_no_first_char(t, "<|im_end|>"@);
    lemma_no_first_char(t, "</think>"@);
    lemma_no_first_char(t, "<think>"@);
    lemma_no_first_char(t, e);
    lemma_split_absent(t, "<|im_start|>assistant"@);
    lemma_split_absent(t, "<|im_end|>"@);
    lemma_split_absent(t, "</think>"@);
    lemma_remove_tail(t, e);
    lemma_replace_absent(t, e, Seq::empty());
    lemma_replace_absent(t, "<|im_end|>"@, Seq::empty());
    lemma_replace_absent(t, "<think>"@, Seq::empty());
    lemma_replace_absent(t, "</think>"@, Seq::empty());
}

/// Plain text followed by the end-of-text token cleans to the text alone:
/// text that neither starts nor ends with whitespace, holds no `<` and no
/// carriage return, does not open a code fence and starts with no answer
/// label.
pub proof fn lemma_text_before_end_of_text(t: Seq<char>)
    requires
        trimmed(t),
        !t.contains('<'),
        !t.contains('\r'),
        t.len() == 0 || t[0] != '`',
        !starts_with(t, "Corrected:"@),
        !starts_with(t, "Correction:"@),
        !starts_with(t, "Fixed:"@),
        !starts_with(t, "Output:"@),
    ensures
        spec_clean_local_output(t + "<|endoftext|>"@) == t,
{
    lemma_end_of_text_is_dropped(t);
    assert(trim_start(t) == t);
    lemma_trim_of_trimmed(t);
    lemma_clean_keeps_plain_answer(t);
}

/// Cleans the raw text a local model printed: keeps what follows the last
/// assistant marker and precedes the first end marker, drops reasoning and
/// chat tokens, then cleans it as any model answer.
pub fn clean_local_output(output: &str) -> (r: String)
    ensures
        r@ == spec_clean_local_output(output@),
{
    proof {
        reveal_strlit("\r\n");
        reveal_strlit("<|endoftext|>");
        reveal_strlit("<|im_end|>");
        reveal_strlit("<think>");
        reveal_strlit("</think>");
        assert(""@ =~= Seq::<char>::empty()) by {
            reveal_strlit("");
        }
    }
    let c0 = replace_lit(&to_chars(output), "\r\n", "\n");
    let c1 = match rsplit_once_lit(&c0, "<|im_start|>assistant") {
        Some((_, after)) => after,
        None => c0,
    };
    let c2 = match split_once_lit(&c1, "<|im_end|>") {
        Some((before, _)) => before,
        None => c1,
    };
    let c3 = match rsplit_once_lit(&c2, "</think>") {
        Some((_, after)) => after,
        None => c2,
    };
    let c4 = replace_lit(
        &replace_lit(&replace_lit(&replace_lit(&c3, "<|endoftext|>", ""), "<|im_end|>", ""), "<think>", ""),
        "</think>",
        "",
    );
    let c5 = trim_chars(&drop_lead_chars(&c4, CharClass::Whitespace));
    from_chars(&clean_model_output_chars(&c5))
}

/// The number of lines `str::lines` yields for `s`.
pub open spec fn line_count(s: Seq<char>) -> nat {
    s.filter(|c: char| c == '\n').len() + if s.len() > 0 && s.last() != '\n' {
        1nat
    } else {
        0nat
    }
}

/// Native generation stops at an end-of-turn or end-of-text token, or once a
/// finished reasoning block is followed by more than five lines in all.
pub open spec fn spec_should_stop(output: Seq<char>) -> bool {
    contains(output, "<|im_end|>"@) || contains(output, "<|endoftext|>"@) || (contains(
        output,
        "</think>"@,
    ) && line_count(output) > 5)
}

fn count_lines(v: &Vec<char>) -> (r: usize)
    ensures
        r == line_count(v@),
{
    let mut n: usize = 0;
    let mut i: usize = 0;
    assert(v@.take(0).filter(|c: char| c == '\n') =~= Seq::<char>::empty());
    while i < v.len()
        invariant
            i <= v.len(),
            n == v@.take(i as int).filter(|c: char| c == '\n').len(),
            n <= i,
            i > 0 && v@[i - 1] != '\n' ==> n < i,
        decreases v.len() - i,
    {
        assert(v@.take(i + 1).drop_last() =~= v@.take(i as int));
        reveal_with_fuel(Seq::filter, 1);
        if v[i] == '\n' {
            n = n + 1;
        }
        i = i + 1;
    }
    assert(v@.take(v@.len() as int) =~= v@);
    if v.len() > 0 && v[v.len() - 1] != '\n' {
        n + 1
    } else {
        n
    }
}

/// Whether native generation should stop after producing `output`.
pub fn should_stop_generation(output: &str) -> (r: bool)
    ensures
        r == spec_should_stop(output@),
{
    let v = to_chars(output);
    contains_lit(&v, "<|im_end|>") || contains_lit(&v, "<|endoftext|>") || (contains_lit(
        &v,
        "</think>",
    ) && count_lines(&v) > 5)
}

/// Where a model's correction comes from.
pub enum InferenceRoute {
    /// Ollama's chat API at `endpoint`.
    Ollama { endpoint: String, model: String },
    /// A GGUF file loaded in-process through native llama.cpp.
    Native { model_path: String },
    /// A local command: a llamafile, or llama-cli with a GGUF file.
    Command,
}

/// The engine that runs `model`: Ollama models go to Ollama (default endpoint
/// when none is set); GGUF models without a llama-cli binary run natively;
/// llamafiles and GGUF models with a llama-cli binary run as a command.
pub fn inference_route(model: &ConfiguredModel) -> (r: InferenceRoute)
    ensures
        match model@.backend {
            BackendView::Ollama { model: name, endpoint } => r matches InferenceRoute::Ollama {
                endpoint: e,
                model: m,
            } && m@ == name && e@ == (match endpoint {
                Some(x) => x,
                None => DEFAULT_ENDPOINT@,
            }),
            BackendView::LlamaCpp { model_path, llama_cli: None } => r matches InferenceRoute::Native {
                model_path: p,
            } && p@ == model_path,
            _ => r is Command,
        },
{
    match &model.backend {
        ModelBackend::Ollama { model, endpoint } => InferenceRoute::Ollama {
            endpoint: match endpoint {
                Some(e) => e.clone(),
                None => String::from_str(DEFAULT_ENDPOINT),
            },
            model: model.clone(),
        },
        ModelBackend::LlamaCpp { model_path, llama_cli: None } => InferenceRoute::Native {
            model_path: model_path.clone(),
        },
        _ => InferenceRoute::Command,
    }
}

/// A program and its arguments.
#[derive(Debug)]
pub struct LocalCommand {
    pub program: String,
    pub args: Vec<String>,
}

/// Why a grammar fix failed.
#[derive(Debug)]
pub enum InferenceError {
    /// Ollama models are not run as a local command.
    OllamaUsesNoCommand,
    /// The prompt needs more tokens than the native context holds.
    PromptTooLong { needed: usize },
    /// Native llama.cpp produced nothing after cleanup.
    EmptyNativeCorrection,
    /// The local command exited unsuccessfully.
    CommandFailed { status: String, stdout: String, stderr: String },
    /// The local command produced nothing after cleanup.
    EmptyCommandCorrection { stderr: String },
}

pub open spec fn spec_inference_message(e: InferenceError) -> Seq<char> {
    match e {
        InferenceError::OllamaUsesNoCommand => "Ollama models do not use a local command"@,
        InferenceError::PromptTooLong { needed } => "prompt is too long for native llama.cpp context: needs "@
            + decimal(needed as nat) + " tokens, limit is 2048"@,
        InferenceError::EmptyNativeCorrection => "native llama.cpp returned an empty correction"@,
        InferenceError::CommandFailed { status, stdout, stderr } => "local model command failed with status "@
            + status@ + "\nstdout:\n"@ + trim(stdout@) + "\nstderr:\n"@ + trim(stderr@),
        InferenceError::EmptyCommandCorrection { stderr } => "local model command returned an empty correction\nstderr:\n"@
            + trim(stderr@),
    }
}

impl InferenceError {
    /// The message shown for this error.
    pub fn message(&self) -> (r: String)
        ensures
            r@ == spec_inference_message(*self),
    {
        let mut out: Vec<char> = Vec::new();
        match self {
            InferenceError::OllamaUsesNoCommand => {
                push_str_chars(&mut out, "Ollama models do not use a local command");
            },
            InferenceError::PromptTooLong { needed } => {
                push_str_chars(&mut out, "prompt is too long for native llama.cpp context: needs ");
                push_all(&mut out, &decimal_chars(*needed as u64));
                push_str_chars(&mut out, " tokens, limit is 2048");
            },
            InferenceError::EmptyNativeCorrection => {
                push_str_chars(&mut out, "native llama.cpp returned an empty correction");
            },
            InferenceError::CommandFailed { status, stdout, stderr } => {
                push_str_chars(&mut out, "local model command failed with status ");
                push_str_chars(&mut out, status.as_str());
                push_str_chars(&mut out, "\nstdout:\n");
                push_all(&mut out, &trim_chars(&to_chars(stdout.as_str())));
                push_str_chars(&mut out, "\nstderr:\n");
                push_all(&mut out, &trim_chars(&to_chars(stderr.as_str())));
            },
            InferenceError::EmptyCommandCorrection { stderr } => {
                push_str_chars(
                    &mut out,
                    "local model command returned an empty correction\nstderr:\n",
                );
                push_all(&mut out, &trim_chars(&to_chars(stderr.as_str())));
            },
        }
        assert(out@ =~= spec_inference_message(*self));
        from_chars(&out)
    }
}

/// `s` as a string.
fn string_of(s: &str) -> (r: String)
    ensures
        r@ == s@,
{
    String::from_str(s)
}

/// The program and first arguments that run a local model: a llamafile with
/// `--cli --log-disable`, or llama-cli (the configured binary, else
/// `llama-cli`) with `-m <model>`. Ollama models have no command.
pub open spec fn spec_local_command(m: ModelView) -> Option<(Seq<char>, Seq<Seq<char>>)> {
    match m.backend {
        BackendView::Llamafile { path } => Some((path, seq!["--cli"@, "--log-disable"@])),
        BackendView::LlamaCpp { model_path, llama_cli } => Some(
            (
                match llama_cli {
                    Some(c) => c,
                    None => DEFAULT_LLAMA_CLI@,
                },
                seq!["-m"@, model_path],
            ),
        ),
        BackendView::Ollama { .. } => None,
    }
}

/// The command that runs a local model, before the generation arguments.
pub fn local_command(model: &ConfiguredModel) -> (r: Result<LocalCommand, InferenceError>)
    ensures
        match spec_local_command(model@) {
            Some((prog, args)) => r matches Ok(c) && c.program@ == prog && crate::config::views(
                c.args@,
            ) == args,
            None => r matches Err(InferenceError::OllamaUsesNoCommand),
        },
{
    match &model.backend {
        ModelBackend::Llamafile { path } => {
            let args = vec![string_of("--cli"), string_of("--log-disable")];
            let c = LocalCommand { program: path.clone(), args };
            assert(crate::config::views(c.args@) =~= seq!["--cli"@, "--log-disable"@]);
            Ok(c)
        },
        ModelBackend::LlamaCpp { model_path, llama_cli } => {
            let program = match llama_cli {
                Some(cli) => cli.clone(),
                None => string_of(DEFAULT_LLAMA_CLI),
            };
            let args = vec![string_of("-m"), model_path.clone()];
            let c = LocalCommand { program, args };
            assert(crate::config::views(c.args@) =~= seq!["-m"@, model_path@]);
            Ok(c)
        },
        ModelBackend::Ollama { .. } => Err(InferenceError::OllamaUsesNoCommand),
    }
}

/// The generation arguments appended to a local command: the prompt, at most
/// 160 tokens, greedy sampling, and no echo of the prompt.
pub open spec fn generation_args(prompt: Seq<char>) -> Seq<Seq<char>> {
    seq![
        "-p"@,
        prompt,
        "-n"@,
        "160"@,
        "--temp"@,
        "0"@,
        "--top-p"@,
        "0.1"@,
        "--no-display-prompt"@,
    ]
}

/// Appends the generation arguments for `prompt` to `command`.
pub fn add_generation_args(command: &mut LocalCommand, prompt: &str)
    ensures
        final(command).program == old(command).program,
        crate::config::views(final(command).args@) == crate::config::views(old(command).args@)
            + generation_args(prompt@),
{
    let ghost before = command.args@;
    let extra = vec![
        string_of("-p"),
        string_of(prompt),
        string_of("-n"),
        string_of("160"),
        string_of("--temp"),
        string_of("0"),
        string_of("--top-p"),
        string_of("0.1"),
        string_of("--no-display-prompt"),
    ];
    let mut i: usize = 0;
    while i < extra.len()
        invariant
            i <= extra.len(),
            command.program == old(command).program,
            command.args@ == before + extra@.take(i as int),
        decreases extra.len() - i,
    {
        command.args.push(extra[i].clone());
        i = i + 1;
        assert(command.args@ =~= before + extra@.take(i as int));
    }
    assert(extra@.take(extra@.len() as int) =~= extra@);
    assert(crate::config::views(command.args@) =~= crate::config::views(before)
        + generation_args(prompt@));
}

pub open spec fn spec_command_start_error(m: ModelView) -> Seq<char> {
    match m.backend {
        BackendView::Llamafile { path } => "failed to run llamafile "@ + path
            + ". If needed, make it executable with `chmod +x "@ + path + "`"@,
        BackendView::LlamaCpp { llama_cli, .. } => "failed to run "@ + (match llama_cli {
            Some(c) => c,
            None => DEFAULT_LLAMA_CLI@,
        }) + ". Install llama.cpp or configure the binary with --llama-cli"@,
        BackendView::Ollama { .. } => "failed to start inference"@,
    }
}

/// The message shown when the local command cannot be started.
pub fn command_start_error(model: &ConfiguredModel) -> (r: String)
    ensures
        r@ == spec_command_start_error(model@),
{
    let mut out: Vec<char> = Vec::new();
    match &model.backend {
        ModelBackend::Llamafile { path } => {
            push_str_chars(&mut out, "failed to run llamafile ");
            push_str_chars(&mut out, path.as_str());
            push_str_chars(&mut out, ". If needed, make it executable with `chmod +x ");
            push_str_chars(&mut out, path.as_str());
            push_str_chars(&mut out, "`");
        },
        ModelBackend::LlamaCpp { llama_cli, .. } => {
            push_str_chars(&mut out, "failed to run ");
            match llama_cli {
                Some(c) => push_str_chars(&mut out, c.as_str()),
                None => push_str_chars(&mut out, DEFAULT_LLAMA_CLI),
            }
            push_str_chars(&mut out, ". Install llama.cpp or configure the binary with --llama-cli");
        },
        ModelBackend::Ollama { .. } => {
            push_str_chars(&mut out, "failed to start inference");
        },
    }
    assert(out@ =~= spec_command_start_error(model@));
    from_chars(&out)
}

/// Checks that a prompt of `n_tokens` tokens leaves room for the answer in
/// the native context: `n_tokens + 160` (saturating) must not exceed 2048.
pub fn check_prompt_fits(n_tokens: usize) -> (r: Result<(), InferenceError>)
    ensures
        n_tokens + MAX_PREDICTIONS <= CONTEXT_TOKENS ==> r is Ok,
        n_tokens + MAX_PREDICTIONS > CONTEXT_TOKENS ==> (r matches Err(
            InferenceError::PromptTooLong { needed },
        ) && needed == (if n_tokens + MAX_PREDICTIONS > usize::MAX {
            usize::MAX as int
        } else {
            n_tokens + MAX_PREDICTIONS
        })),
{
    let required = n_tokens.saturating_add(MAX_PREDICTIONS);
    if required > CONTEXT_TOKENS as usize {
        Err(InferenceError::PromptTooLong { needed: required })
    } else {
        Ok(())
    }
}

/// The correction from native llama.cpp output: the cleaned text, which must
/// not be empty.
pub fn finish_native_output(raw: &str) -> (r: Result<String, InferenceError>)
    ensures
        spec_clean_local_output(raw@).len() > 0 ==> (r matches Ok(s) && s@
            == spec_clean_local_output(raw@)),
        spec_clean_local_output(raw@).len() == 0 ==> r matches Err(
            InferenceError::EmptyNativeCorrection,
        ),
{
    let fixed = clean_local_output(raw);
    if fixed.unicode_len() == 0 {
        Err(InferenceError::EmptyNativeCorrection)
    } else {
        Ok(fixed)
    }
}

/// The correction from a finished local command: a failed exit is an error
/// carrying its status and output; otherwise the cleaned stdout, which must
/// not be empty.
pub fn finish_command_output(success: bool, status: String, stdout: String, stderr: String) -> (r:
    Result<String, InferenceError>)
    ensures
        !success ==> (r matches Err(InferenceError::CommandFailed { status: s, stdout: o, stderr: e })
            && s@ == status@ && o@ == stdout@ && e@ == stderr@),
        success && spec_clean_local_output(stdout@).len() > 0 ==> (r matches Ok(f) && f@
            == spec_clean_local_output(stdout@)),
        success && spec_clean_local_output(stdout@).len() == 0 ==> (r matches Err(
            InferenceError::EmptyCommandCorrection { stderr: e },
        ) && e@ == stderr@),
{
    if !success {
        return Err(InferenceError::CommandFailed { status, stdout, stderr });
    }
    let fixed = clean_local_output(stdout.as_str());
    if fixed.unicode_len() == 0 {
        Err(InferenceError::EmptyCommandCorrection { stderr })
    } else {
        Ok(fixed)
    }
}

} // verus!
