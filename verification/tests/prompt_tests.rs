use lint_lang::prompt::{
    postprocess_correction, qwen_instruct_prompt, system_prompt, GrammarLocale, PT_BR_SYSTEM_PROMPT,
};

#[test]
fn exposes_static_pt_br_prompt() {
    assert_eq!(system_prompt(GrammarLocale::PtBr), PT_BR_SYSTEM_PROMPT);
    assert!(PT_BR_SYSTEM_PROMPT.contains("português brasileiro"));
}

#[test]
fn qwen_prompt_uses_selected_locale() {
    let prompt = qwen_instruct_prompt("eu vai", GrammarLocale::PtBr);

    assert!(prompt.contains("português brasileiro"));
    assert!(prompt.contains("eu vai"));
}

#[test]
fn pt_br_example_preserves_person_and_number() {
    let prompt = qwen_instruct_prompt(
        "As verspera da prova, resolvi ir ao cinema. À propósito: penso em chegar tarde",
        GrammarLocale::PtBr,
    );

    assert!(prompt.contains("resolvi ir ao cinema"));
    assert!(!prompt.contains("resolvemos ir ao cinema"));
}

#[test]
fn pt_br_postprocesses_common_crase_error() {
    let output = "Às vésperas da prova, resolvi ir ao cinema. À propósito: penso em chegar tarde.";

    assert_eq!(
        postprocess_correction(output, GrammarLocale::PtBr),
        "Às vésperas da prova, resolvi ir ao cinema. A propósito: penso em chegar tarde."
    );
}

#[test]
fn ollama_prompt_ends_with_the_trimmed_text() {
    let p = lint_lang::prompt::ollama_user_prompt("  eu vai no mercado \n", lint_lang::prompt::GrammarLocale::PtBr);
    assert!(p.ends_with("\n\neu vai no mercado"));
    assert!(p.starts_with(lint_lang::prompt::user_instruction(lint_lang::prompt::GrammarLocale::PtBr)));
}

#[test]
fn cleaning_twice_is_cleaning_once() {
    let once = postprocess_correction("  À propósito, à propósito: ok. ", GrammarLocale::PtBr);
    assert_eq!(once, "A propósito, a propósito: ok.");
    assert_eq!(postprocess_correction(&once, GrammarLocale::PtBr), once);
    let p = qwen_instruct_prompt("  hi ", GrammarLocale::En);
    assert_eq!(p, qwen_instruct_prompt("hi", GrammarLocale::En));
    assert!(p.ends_with("<|im_start|>assistant\n"));
}
