//! Prompts sent to the grammar models and cleanup of what they answer.
use vstd::prelude::*;
use crate::text::{
    ends_with, lemma_replace_absent, lemma_replace_keeps_absent, lemma_replace_keeps_trimmed,
    lemma_replace_removes, lemma_trim_idempotent, lemma_trim_is_trimmed, lemma_trim_of_trimmed,
    contains, from_chars, lemma_contains_at, matches_at, push_all, push_str_chars, replace,
    replace_lit, to_chars, trim, trim_chars,
};

verus! {

/// The language whose grammar is corrected.
#[derive(Debug, Clone, Copy, PartialEq, Eq, Structural, Hash)]
pub enum GrammarLocale {
    En,
    PtBr,
}

impl Default for GrammarLocale {
    fn default() -> (r: Self)
        ensures
            r == GrammarLocale::En,
    {
        GrammarLocale::En
    }
}

pub open spec fn locale_label(locale: GrammarLocale) -> Seq<char> {
    match locale {
        GrammarLocale::En => "en"@,
        GrammarLocale::PtBr => "pt-BR"@,
    }
}

impl GrammarLocale {
    /// The short name shown to the user: `en` or `pt-BR`.
    pub fn label(self) -> (r: &'static str)
        ensures
            r@ == locale_label(self),
    {
        match self {
            GrammarLocale::En => "en",
            GrammarLocale::PtBr => "pt-BR",
        }
    }
}

pub const EN_SYSTEM_PROMPT: &'static str = "You are a conservative grammar-only correction engine. Fix only grammar, spelling, accents, punctuation, and capitalization. Preserve the original meaning, person, number, verb tense, point of view, tone, vocabulary, formatting, and language. Do not rewrite. Do not improve style. Do not add information. Do not answer questions. Return only the corrected text. Do not add explanations, markdown, labels, or wrapping quotes unless they were present in the original text.";

pub const PT_BR_SYSTEM_PROMPT: &'static str = "Você é um corretor gramatical conservador para textos em português brasileiro. Corrija somente gramática, ortografia, acentos, pontuação e capitalização. Preserve obrigatoriamente o significado original, pessoa, número, tempo verbal, ponto de vista, tom, vocabulário, formatação e idioma. Não reescreva. Não melhore estilo. Não acrescente informação. Não responda perguntas. Retorne apenas o texto corrigido, sem explicações, markdown, rótulos ou aspas extras.";

pub const EN_USER_INSTRUCTION: &'static str = "Correct only grammar, spelling, punctuation, and capitalization in the text below. Preserve every word choice and verb form unless it is grammatically incorrect. Return only the corrected text.";

pub const PT_BR_USER_INSTRUCTION: &'static str = "Corrija somente gramática, ortografia, acentos, pontuação e capitalização no texto abaixo. Preserve cada escolha de palavra, pessoa e forma verbal, a menos que esteja gramaticalmente incorreta. Retorne apenas o texto corrigido.";

pub const EN_EXAMPLES: &'static str = "Example:\nInput: i has a aplle\nOutput: I have an apple.\n\n";

pub const PT_BR_EXAMPLES: &'static str = "Exemplo:\nEntrada: As verspera da prova, resolvi ir ao cinema. À propósito: penso em chegar tarde\nSaída: Às vésperas da prova, resolvi ir ao cinema. A propósito: penso em chegar tarde.\n\n";

pub open spec fn spec_system_prompt(locale: GrammarLocale) -> Seq<char> {
    match locale {
        GrammarLocale::En => EN_SYSTEM_PROMPT@,
        GrammarLocale::PtBr => PT_BR_SYSTEM_PROMPT@,
    }
}

pub open spec fn spec_user_instruction(locale: GrammarLocale) -> Seq<char> {
    match locale {
        GrammarLocale::En => EN_USER_INSTRUCTION@,
        GrammarLocale::PtBr => PT_BR_USER_INSTRUCTION@,
    }
}

pub open spec fn spec_examples(locale: GrammarLocale) -> Seq<char> {
    match locale {
        GrammarLocale::En => EN_EXAMPLES@,
        GrammarLocale::PtBr => PT_BR_EXAMPLES@,
    }
}

/// The system message for the locale.
pub fn system_prompt(locale: GrammarLocale) -> (r: &'static str)
    ensures
        r@ == spec_system_prompt(locale),
{
    match locale {
        GrammarLocale::En => EN_SYSTEM_PROMPT,
        GrammarLocale::PtBr => PT_BR_SYSTEM_PROMPT,
    }
}

/// The instruction that precedes the user's text.
pub fn user_instruction(locale: GrammarLocale) -> (r: &'static str)
    ensures
        r@ == spec_user_instruction(locale),
{
    match locale {
        GrammarLocale::En => EN_USER_INSTRUCTION,
        GrammarLocale::PtBr => PT_BR_USER_INSTRUCTION,
    }
}

/// The worked example shown to the model before the instruction.
pub fn examples(locale: GrammarLocale) -> (r: &'static str)
    ensures
        r@ == spec_examples(locale),
{
    match locale {
        GrammarLocale::En => EN_EXAMPLES,
        GrammarLocale::PtBr => PT_BR_EXAMPLES,
    }
}

pub open spec fn spec_ollama_user_prompt(input: Seq<char>, locale: GrammarLocale) -> Seq<char> {
    spec_user_instruction(locale) + "\n\n"@ + trim(input)
}

/// The user message sent to Ollama: the instruction, a blank line, and the trimmed text.
pub fn ollama_user_prompt(input: &str, locale: GrammarLocale) -> (r: String)
    ensures
        r@ == spec_ollama_user_prompt(input@, locale),
{
    let mut out: Vec<char> = Vec::new();
    push_str_chars(&mut out, user_instruction(locale));
    push_str_chars(&mut out, "\n\n");
    let text = trim_chars(&to_chars(input));
    push_all(&mut out, &text);
    assert(out@ =~= spec_ollama_user_prompt(input@, locale));
    from_chars(&out)
}

pub open spec fn qwen_prompt_head(locale: GrammarLocale) -> Seq<char> {
    "<|im_start|>system\n"@ + spec_system_prompt(locale) + "<|im_end|>\n<|im_start|>user\n"@
        + spec_examples(locale) + spec_user_instruction(locale) + "\n/no_think\n\n<text>\n"@
}

pub open spec fn spec_qwen_instruct_prompt(input: Seq<char>, locale: GrammarLocale) -> Seq<char> {
    qwen_prompt_head(locale) + trim(input) + "\n</text><|im_end|>\n<|im_start|>assistant\n"@
}

/// The full chat-template prompt for Qwen instruct models run locally.
pub fn qwen_instruct_prompt(input: &str, locale: GrammarLocale) -> (r: String)
    ensures
        r@ == spec_qwen_instruct_prompt(input@, locale),
{
    let mut out: Vec<char> = Vec::new();
    push_str_chars(&mut out, "<|im_start|>system\n");
    push_str_chars(&mut out, system_prompt(locale));
    push_str_chars(&mut out, "<|im_end|>\n<|im_start|>user\n");
    push_str_chars(&mut out, examples(locale));
    push_str_chars(&mut out, user_instruction(locale));
    push_str_chars(&mut out, "\n/no_think\n\n<text>\n");
    assert(out@ =~= qwen_prompt_head(locale));
    let text = trim_chars(&to_chars(input));
    push_all(&mut out, &text);
    push_str_chars(&mut out, "\n</text><|im_end|>\n<|im_start|>assistant\n");
    assert(out@ =~= spec_qwen_instruct_prompt(input@, locale));
    from_chars(&out)
}

/// The Qwen prompt carries the user's trimmed text and the locale's system prompt.
pub proof fn lemma_qwen_prompt_carries_input(input: Seq<char>, locale: GrammarLocale)
    ensures
        contains(spec_qwen_instruct_prompt(input, locale), trim(input)),
        contains(spec_qwen_instruct_prompt(input, locale), spec_system_prompt(locale)),
{
    let s = spec_qwen_instruct_prompt(input, locale);
    let h = qwen_prompt_head(locale);
    let k = h.len() as int;
    assert(s.subrange(k, k + trim(input).len()) =~= trim(input));
    assert(matches_at(s, trim(input), k));
    lemma_contains_at(s, trim(input), k);
    let a = "<|im_start|>system\n"@;
    let sys = spec_system_prompt(locale);
    assert(s.subrange(a.len() as int, (a.len() + sys.len()) as int) =~= sys);
    assert(matches_at(s, sys, a.len() as int));
    lemma_contains_at(s, sys, a.len() as int);
}

/// The Qwen prompt's user turn opens with the worked example of the
/// chosen locale, right after the locale's system prompt.
pub proof fn lemma_qwen_prompt_shows_locale_example(input: Seq<char>, locale: GrammarLocale)
    ensures
        ({
            let s = spec_qwen_instruct_prompt(input, locale);
            let k: int = ("<|im_start|>system\n"@.len() + spec_system_prompt(locale).len()
                + "<|im_end|>\n<|im_start|>user\n"@.len()) as int;
            s.subrange(k, k + spec_examples(locale).len()) == spec_examples(locale)
        }),
        contains(spec_qwen_instruct_prompt(input, locale), spec_examples(locale)),
{
    let s = spec_qwen_instruct_prompt(input, locale);
    let ex = spec_examples(locale);
    let k: int = ("<|im_start|>system\n"@.len() + spec_system_prompt(locale).len()
        + "<|im_end|>\n<|im_start|>user\n"@.len()) as int;
    assert(s.subrange(k, k + ex.len()) =~= ex);
    assert(matches_at(s, ex, k));
    lemma_contains_at(s, ex, k);
}

/// The Ollama user message ends with the user's trimmed text, after the
/// locale's instruction.
pub proof fn lemma_ollama_prompt_carries_input(input: Seq<char>, locale: GrammarLocale)
    ensures
        contains(spec_ollama_user_prompt(input, locale), trim(input)),
        contains(spec_ollama_user_prompt(input, locale), spec_user_instruction(locale)),
{
    reveal_strlit("\n\n");
    let s = spec_ollama_user_prompt(input, locale);
    let ins = spec_user_instruction(locale);
    let k: int = ins.len() as int + 2;
    assert(s.subrange(k, k + trim(input).len()) =~= trim(input));
    lemma_contains_at(s, trim(input), k);
    assert(s.subrange(0, ins.len() as int) =~= ins);
    lemma_contains_at(s, ins, 0);
}

pub open spec fn spec_postprocess_pt_br(output: Seq<char>) -> Seq<char> {
    replace(replace(trim(output), "À propósito"@, "A propósito"@), "à propósito"@, "a propósito"@)
}

pub open spec fn spec_postprocess_correction(output: Seq<char>, locale: GrammarLocale) -> Seq<char> {
    match locale {
        GrammarLocale::En => trim(output),
        GrammarLocale::PtBr => spec_postprocess_pt_br(output),
    }
}

fn postprocess_pt_br(output: &str) -> (r: String)
    ensures
        r@ == spec_postprocess_pt_br(output@),
{
    proof {
        reveal_strlit("À propósito");
        reveal_strlit("à propósito");
    }
    let t = trim_chars(&to_chars(output));
    let a = replace_lit(&t, "À propósito", "A propósito");
    let b = replace_lit(&a, "à propósito", "a propósito");
    from_chars(&b)
}

/// Final cleanup of a correction: trimming, and for pt-BR the crase fix
/// "À propósito" -> "A propósito".
pub fn postprocess_correction(output: &str, locale: GrammarLocale) -> (r: String)
    ensures
        r@ == spec_postprocess_correction(output@, locale),
{
    match locale {
        GrammarLocale::En => from_chars(&trim_chars(&to_chars(output))),
        GrammarLocale::PtBr => postprocess_pt_br(output),
    }
}

/// Trimming the input first changes neither prompt: both already hold the
/// trimmed text.
pub proof fn lemma_prompts_ignore_surrounding_whitespace(input: Seq<char>, locale: GrammarLocale)
    ensures
        spec_ollama_user_prompt(trim(input), locale) == spec_ollama_user_prompt(input, locale),
        spec_qwen_instruct_prompt(trim(input), locale) == spec_qwen_instruct_prompt(input, locale),
        ends_with(spec_qwen_instruct_prompt(input, locale), "<|im_start|>assistant\n"@),
{
    lemma_trim_idempotent(input);
    reveal_strlit("\n</text><|im_end|>\n<|im_start|>assistant\n");
    reveal_strlit("<|im_start|>assistant\n");
    let s = spec_qwen_instruct_prompt(input, locale);
    let tail = "\n</text><|im_end|>\n<|im_start|>assistant\n"@;
    let end = "<|im_start|>assistant\n"@;
    assert(s.skip(s.len() - end.len()) =~= tail.skip(tail.len() - end.len()));
    assert(tail.skip(tail.len() - end.len()) =~= end);
}

/// Cleaning a correction a second time changes nothing.
pub proof fn lemma_postprocess_idempotent(output: Seq<char>, locale: GrammarLocale)
    ensures
        spec_postprocess_correction(spec_postprocess_correction(output, locale), locale)
            == spec_postprocess_correction(output, locale),
{
    lemma_trim_idempotent(output);
    match locale {
        GrammarLocale::En => {},
        GrammarLocale::PtBr => {
            reveal_strlit("À propósito");
            reveal_strlit("A propósito");
            reveal_strlit("à propósito");
            reveal_strlit("a propósito");
            let p1 = "À propósito"@;
            let r1 = "A propósito"@;
            let p2 = "à propósito"@;
            let r2 = "a propósito"@;
            assert(!r1.contains(p1[0]));
            assert(!p1.contains(r1[0]));
            assert(!r2.contains(p2[0]));
            assert(!p2.contains(r2[0]));
            assert(!r2.contains(p1[0]));
            assert(!p1.contains(r2[0]));
            let t = trim(output);
            let x = replace(t, p1, r1);
            let y = replace(x, p2, r2);
            lemma_trim_is_trimmed(output);
            lemma_replace_keeps_trimmed(t, p1, r1);
            lemma_replace_keeps_trimmed(x, p2, r2);
            lemma_trim_of_trimmed(y);
            lemma_replace_removes(t, p1, r1);
            lemma_replace_keeps_absent(x, p2, r2, p1);
            lemma_replace_removes(x, p2, r2);
            lemma_replace_absent(y, p1, r1);
            lemma_replace_absent(y, p2, r2);
        },
    }
}

} // verus!
