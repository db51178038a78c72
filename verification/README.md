# lint-lang

Lint grammar locally: `lint-lang` fixes grammar, spelling, accents,
punctuation and capitalization with a local GGUF model (native llama.cpp, a
llamafile, llama-cli) or an Ollama model.

## Layout

- `src/` is the verified library. Its decisions are stated in
  `requires`/`ensures` contracts over `Seq<char>` views and proved with
  Verus: which files are models and in which order they are listed, which
  model a run uses and what a selection saves, the prompts, the cleanup of
  model output, the download paths, the `doctor` report, the selector's key
  handling, and byte-size formatting. One thing stays open where the
  program depends on its surroundings: the platform directories and the
  home directory are what the `directories` crate reports (each path is
  stated exactly by a `..._in` function that takes those directories as
  arguments); the platform directories are looked up for the project
  `com`/`caio`/`lint-lang`, and the contracts state that their paths hold
  `lint-lang`. The selector's layout is stated exactly wherever its
  constraints fit the screen (ratatui's solver then meets them all, and the
  edges it rounds are stated as rounded); on a screen too small for them,
  only that the parts lie within it, in order.
- `app/` is the program around it: argument parsing (clap), the
  configuration file (serde/toml), the file-system walk, writing out a
  bundled model (this build carries none), HTTP (reqwest), the
  model runtimes, and the terminal UI (crossterm/ratatui). It hands the
  library plain values and acts on what comes back.
- `tests/` runs the library on concrete inputs.

The few calls into outside crates that the library makes (the platform
directories, ratatui's layout solver, `String::push`) sit behind small
trusted wrappers whose doc comments say what is assumed of them.
