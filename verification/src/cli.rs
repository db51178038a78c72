//! The command line: the commands and options the program takes, and which
//! first argument makes `lint` the command when none is named.
use vstd::prelude::*;
use crate::prompt::GrammarLocale;
use crate::text::str_eq;

verus! {

/// The parsed command line.
#[derive(Debug)]
pub struct Cli {
    pub command: DomainCommand,
}

/// The commands of the program.
#[derive(Debug)]
pub enum DomainCommand {
    /// Lint grammar. This is also the default command.
    Lint(LintArgs),
    /// Manage local grammar models.
    Models(ModelsCli),
    /// Check config, models, clipboard, and native llama.cpp support.
    Doctor,
}

/// Options of the `lint` command.
#[derive(Debug)]
pub struct LintArgs {
    /// Text to grammar-fix. If omitted, stdin is used when piped.
    pub text: Vec<String>,
    /// Override with an Ollama model name for this run.
    pub model: Option<String>,
    /// Override with a local model path (.gguf uses native llama.cpp unless --llama-cli is set).
    pub model_path: Option<String>,
    /// Backend for --model-path. Auto infers from extension.
    pub backend: Option<LocalBackend>,
    /// Path to llama.cpp's llama-cli binary for .gguf models.
    pub llama_cli: Option<String>,
    /// Directory to scan for .llamafile and .gguf models. Can be repeated.
    pub model_dir: Vec<String>,
    /// Download the default Qwen3 8B GGUF model, save it, and use it.
    pub download_model: bool,
    /// Download a custom model URL instead of the default Qwen3 8B GGUF.
    pub download_url: Option<String>,
    /// Download output file or directory. Defaults to lint-lang's app model directory.
    pub download_output: Option<String>,
    /// Re-download even if the target model file already exists.
    pub force_download: bool,
    /// Print the selected local model path and exit when no text is provided.
    pub print_model_path: bool,
    /// Ollama HTTP endpoint, only used for Ollama fallback models.
    pub endpoint: Option<String>,
    /// Prompt locale for grammar correction.
    pub locale: Option<GrammarLocale>,
    /// Shortcut for --locale pt-br.
    pub pt_br: bool,
    /// Open the TUI model selector and save the selection.
    pub configure: bool,
    /// Print the config file path and exit, unless text/configuration was also requested.
    pub config_path: bool,
    /// Do not write the fixed string to the system clipboard.
    pub no_clipboard: bool,
}

/// Options of the `models` command.
#[derive(Debug)]
pub struct ModelsCli {
    /// Ollama HTTP endpoint, only used for Ollama fallback models.
    pub endpoint: Option<String>,
    /// Path to llama.cpp's llama-cli binary for .gguf models.
    pub llama_cli: Option<String>,
    /// Directory to scan for .llamafile and .gguf models. Can be repeated.
    pub model_dir: Vec<String>,
    /// Locale to save with selected or downloaded models.
    pub locale: Option<GrammarLocale>,
    /// Shortcut for --locale pt-br.
    pub pt_br: bool,
    pub command: ModelsCommand,
}

/// The subcommands of `models`.
#[derive(Debug)]
pub enum ModelsCommand {
    /// List configured, local, Ollama, and downloadable models.
    List(ModelsListArgs),
    /// Download the default or custom GGUF model and save it as selected.
    Download(ModelsDownloadArgs),
    /// Select and save a model with the TUI.
    Select(ModelsSelectArgs),
}

/// Options of `models list`.
#[derive(Debug)]
pub struct ModelsListArgs {
    /// Print a plain text list instead of opening the TUI list.
    pub plain: bool,
}

/// Options of `models download`.
#[derive(Debug)]
pub struct ModelsDownloadArgs {
    /// Download a custom model URL instead of the default Qwen3 8B GGUF.
    pub url: Option<String>,
    /// Download output file or directory. Defaults to lint-lang's app model directory.
    pub output: Option<String>,
    /// Re-download even if the target model file already exists.
    pub force: bool,
    /// Print the selected local model path after download.
    pub print_path: bool,
}

/// Options of `models select`.
#[derive(Debug)]
pub struct ModelsSelectArgs {
    /// Select this local model path directly instead of opening the TUI.
    pub model_path: Option<String>,
    /// Backend for --model-path. Auto infers from extension.
    pub backend: Option<LocalBackend>,
}

/// The backend asked for with `--backend`.
#[derive(Debug, Clone, Copy, PartialEq, Eq, Structural)]
pub enum LocalBackend {
    Auto,
    Llamafile,
    LlamaCpp,
}

pub open spec fn spec_config_key(b: LocalBackend) -> Option<Seq<char>> {
    match b {
        LocalBackend::Auto => None,
        LocalBackend::Llamafile => Some("llamafile"@),
        LocalBackend::LlamaCpp => Some("llama-cpp"@),
    }
}

impl LocalBackend {
    /// The backend name a configured model path is checked against; `Auto`
    /// leaves the backend to the file's extension.
    pub fn config_key(self) -> (r: Option<&'static str>)
        ensures
            match r {
                Some(k) => spec_config_key(self) == Some(k@),
                None => spec_config_key(self) is None,
            },
    {
        match self {
            LocalBackend::Auto => None,
            LocalBackend::Llamafile => Some("llamafile"),
            LocalBackend::LlamaCpp => Some("llama-cpp"),
        }
    }
}

/// The first arguments that name a command or ask for help or the version.
pub open spec fn is_command_word(a: Seq<char>) -> bool {
    ||| a == "lint"@
    ||| a == "models"@
    ||| a == "doctor"@
    ||| a == "--help"@
    ||| a == "-h"@
    ||| a == "--version"@
    ||| a == "-V"@
}

/// Whether `lint` is put before the arguments: unless the first argument
/// names a command or asks for help or the version. `None` stands for no
/// first argument, or one that is not valid Unicode.
pub fn should_default_to_lint(first_arg: Option<&str>) -> (r: bool)
    ensures
        r == match first_arg {
            Some(a) => !is_command_word(a@),
            None => true,
        },
{
    match first_arg {
        None => true,
        Some(a) => {
            let named = str_eq(a, "lint") || str_eq(a, "models") || str_eq(a, "doctor")
                || str_eq(a, "--help") || str_eq(a, "-h") || str_eq(a, "--version") || str_eq(
                a,
                "-V",
            );
            !named
        },
    }
}

} // verus!
