//! A model shipped inside the program. A build can carry one; it is then
//! written to the app's data directory on first use and run from there.
//! This build carries none.
use vstd::prelude::*;
use crate::config::{app_dir, extension_is, platform_data_dir, ConfigError, ConfiguredModel};
use crate::download::executable_mode;
use crate::path::{file_name, has_extension, join, path_file_name, path_join};

verus! {

/// The file name a bundled model is written under when its source path has none.
pub const FALLBACK_BUNDLED_FILE_NAME: &'static str = "bundled-model.llamafile";

/// The model that ships with the program: this build carries none, so
/// there is never one.
pub fn configured_model(llama_cli: Option<String>) -> (r: Result<Option<ConfiguredModel>, ConfigError>)
    ensures
        r matches Ok(None),
{
    Ok(None)
}

pub open spec fn spec_bundled_file_name(source: Seq<char>) -> Seq<char> {
    match file_name(source) {
        Some(f) => f,
        None => FALLBACK_BUNDLED_FILE_NAME@,
    }
}

/// The file name a bundled model is written under: that of the path it was
/// built from.
pub fn bundled_file_name(source: &str) -> (r: String)
    ensures
        r@ == spec_bundled_file_name(source@),
{
    match path_file_name(source) {
        Some(f) => f,
        None => String::from_str(FALLBACK_BUNDLED_FILE_NAME),
    }
}

/// Where a bundled model is written inside the data directory `data_dir`:
/// `bundled-model/<file name>`; without a data directory there is no such
/// place.
pub fn bundled_model_path_in(data_dir: Option<String>, file_name: &str) -> (r: Result<String, ConfigError>)
    ensures
        match data_dir {
            Some(d) => (r matches Ok(p) && p@ == join(join(d@, "bundled-model"@), file_name@)),
            None => r == Err::<String, ConfigError>(ConfigError::NoDataDir),
        },
{
    match data_dir {
        Some(d) => {
            let sub = path_join(d.as_str(), "bundled-model");
            Ok(path_join(sub.as_str(), file_name))
        },
        None => Err(ConfigError::NoDataDir),
    }
}

/// Where a bundled model is written: `bundled-model/<file name>` inside the
/// platform data directory.
pub fn bundled_model_path(file_name: &str) -> (r: Result<String, ConfigError>)
    ensures
        r matches Ok(p) ==> exists|d: Seq<char>| app_dir(d) && p@ == join(
            join(d, "bundled-model"@),
            file_name@,
        ),
        r matches Err(e) ==> e == ConfigError::NoDataDir,
{
    bundled_model_path_in(platform_data_dir(), file_name)
}

/// Whether the bundled model must be written out: unless a file of its
/// exact length is already there (`existing_len` is that file's length).
pub fn should_extract(existing_len: Option<u64>, bundled_len: u64) -> (r: bool)
    ensures
        r == (existing_len != Some(bundled_len)),
{
    match existing_len {
        Some(n) => n != bundled_len,
        None => true,
    }
}

/// The permission bits a model file is given: GGUF weights are left as
/// they are (`None`), anything else becomes executable.
pub fn make_executable_if_needed(path: &str, mode: u32) -> (r: Option<u32>)
    ensures
        has_extension(path@, "gguf"@) ==> r is None,
        !has_extension(path@, "gguf"@) ==> r == Some(mode | 0o755u32),
{
    if extension_is(path, "gguf") {
        None
    } else {
        Some(executable_mode(mode))
    }
}

} // verus!
