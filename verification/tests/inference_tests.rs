use lint_lang::config::{ConfiguredModel, ModelBackend};
use lint_lang::inference::{
    add_generation_args, check_prompt_fits, clean_local_output, command_start_error, finish_command_output,
    finish_native_output, inference_route, local_command, should_stop_generation, InferenceError, InferenceRoute,
    CONTEXT_TOKENS, MAX_PREDICTIONS,
};

fn gguf(llama_cli: Option<&str>) -> ConfiguredModel {
    ConfiguredModel {
        name: "q.gguf".to_owned(),
        backend: ModelBackend::LlamaCpp { model_path: "/m/q.gguf".to_owned(), llama_cli: llama_cli.map(str::to_owned) },
    }
}

#[test]
fn removes_qwen_chat_tokens() {
    let output = "<|im_start|>assistant\nI have an apple.<|im_end|>";

    assert_eq!(clean_local_output(output), "I have an apple.");
}

#[test]
fn removes_prompt_echo_when_present() {
    let output = "prompt text <|im_start|>assistant\nFixed: I have an apple.<|im_end|>";

    assert_eq!(clean_local_output(output), "I have an apple.");
}

#[test]
fn routes_each_backend() {
    assert!(matches!(inference_route(&gguf(None)), InferenceRoute::Native { ref model_path } if model_path == "/m/q.gguf"));
    assert!(matches!(inference_route(&gguf(Some("/bin/llama-cli"))), InferenceRoute::Command));
    let ollama = ConfiguredModel {
        name: "l".to_owned(),
        backend: ModelBackend::Ollama { model: "llama3".to_owned(), endpoint: None },
    };
    assert!(matches!(
        inference_route(&ollama),
        InferenceRoute::Ollama { ref endpoint, ref model } if endpoint == "http://localhost:11434" && model == "llama3"
    ));
}

#[test]
fn builds_local_commands() {
    let cmd = local_command(&gguf(None)).unwrap();
    assert_eq!(cmd.program, "llama-cli");
    assert_eq!(cmd.args[..2], ["-m".to_owned(), "/m/q.gguf".to_owned()]);
    let lf = ConfiguredModel {
        name: "q".to_owned(),
        backend: ModelBackend::Llamafile { path: "/m/q.llamafile".to_owned() },
    };
    let mut cmd = local_command(&lf).unwrap();
    assert_eq!(cmd.program, "/m/q.llamafile");
    let before = cmd.args.len();
    add_generation_args(&mut cmd, "PROMPT");
    assert!(cmd.args.len() > before);
    assert!(cmd.args.contains(&"PROMPT".to_owned()));
    let ollama = ConfiguredModel {
        name: "l".to_owned(),
        backend: ModelBackend::Ollama { model: "llama3".to_owned(), endpoint: None },
    };
    assert!(matches!(local_command(&ollama), Err(InferenceError::OllamaUsesNoCommand)));
    assert_eq!(
        InferenceError::OllamaUsesNoCommand.message(),
        "Ollama models do not use a local command"
    );
}

#[test]
fn names_the_program_that_failed_to_start() {
    assert_eq!(
        command_start_error(&gguf(None)),
        "failed to run llama-cli. Install llama.cpp or configure the binary with --llama-cli"
    );
}

#[test]
fn prompt_must_leave_room_for_the_answer() {
    assert!(check_prompt_fits(CONTEXT_TOKENS as usize - MAX_PREDICTIONS).is_ok());
    let err = check_prompt_fits(CONTEXT_TOKENS as usize).unwrap_err();
    assert!(matches!(err, InferenceError::PromptTooLong { .. }));
    assert!(err.message().starts_with("prompt is too long for native llama.cpp context"));
}

#[test]
fn empty_outputs_are_errors() {
    assert_eq!(finish_native_output("<|im_start|>assistant\nHi.<|im_end|>").unwrap(), "Hi.");
    assert!(matches!(finish_native_output("  "), Err(InferenceError::EmptyNativeCorrection)));
    let err = finish_command_output(false, "exit status: 1".to_owned(), "out".to_owned(), "err".to_owned()).unwrap_err();
    assert!(matches!(err, InferenceError::CommandFailed { .. }));
    assert!(err.message().contains("exit status: 1"));
    let err = finish_command_output(true, "exit status: 0".to_owned(), "".to_owned(), "warn".to_owned()).unwrap_err();
    assert!(matches!(err, InferenceError::EmptyCommandCorrection { ref stderr } if stderr == "warn"));
    assert_eq!(
        finish_command_output(true, "exit status: 0".to_owned(), "Fixed: Ok.".to_owned(), "".to_owned()).unwrap(),
        "Ok."
    );
}

#[test]
fn generation_stops_at_end_token() {
    assert!(should_stop_generation("Hi.<|im_end|>"));
    assert!(!should_stop_generation("Hi."));
}
