//! Where a downloaded model is saved, and the checks around a download.
use vstd::prelude::*;
use crate::config::{
    app_dir, app_model_dir_in, expand_home_in, expand_home_with, extension_is, home_for, opt_view,
    platform_data_dir, ConfigError, ConfigErrorView,
};
use crate::path::{
    file_name, has_extension, join, last_segment, path_file_name, path_join, path_with_file_name,
    with_file_name,
};
use crate::text::{
    find, find_char, from_chars, push_str_chars, rfind_char, slice_of, to_chars,
};
use crate::units::{format_bytes, spec_format_bytes};

verus! {

pub const DEFAULT_MODEL_URL: &'static str = "https://huggingface.co/ggml-org/Qwen3-8B-GGUF/resolve/main/Qwen3-8B-Q4_K_M.gguf";

pub const DEFAULT_MODEL_FILENAME: &'static str = "Qwen3-8B-Q4_K_M.gguf";

/// What to download and where.
#[derive(Debug, Clone)]
pub struct DownloadOptions {
    pub url: String,
    pub output: Option<String>,
    pub force: bool,
    pub llama_cli: Option<String>,
}

/// Why a download step failed.
#[derive(Debug)]
pub enum DownloadError {
    /// The platform directories are unknown.
    Config(ConfigError),
    /// The target path has no file name.
    NoFileName(String),
    /// Fewer or more bytes arrived than the server announced.
    Incomplete { downloaded: u64, expected: u64 },
}

pub open spec fn spec_download_message(e: DownloadError) -> Seq<char> {
    match e {
        DownloadError::Config(c) => crate::config::spec_config_error_message(c@),
        DownloadError::NoFileName(p) => "download target has no file name: "@ + p@,
        DownloadError::Incomplete { downloaded, expected } => "incomplete model download: got "@
            + spec_format_bytes(downloaded as nat) + ", expected "@ + spec_format_bytes(
            expected as nat,
        ),
    }
}

impl DownloadError {
    /// The message shown for this error.
    pub fn message(&self) -> (r: String)
        ensures
            r@ == spec_download_message(*self),
    {
        match self {
            DownloadError::Config(c) => c.message(),
            DownloadError::NoFileName(p) => {
                let mut out: Vec<char> = Vec::new();
                push_str_chars(&mut out, "download target has no file name: ");
                push_str_chars(&mut out, p.as_str());
                assert(out@ =~= spec_download_message(*self));
                from_chars(&out)
            },
            DownloadError::Incomplete { downloaded, expected } => {
                let mut out: Vec<char> = Vec::new();
                push_str_chars(&mut out, "incomplete model download: got ");
                push_str_chars(&mut out, format_bytes(*downloaded).as_str());
                push_str_chars(&mut out, ", expected ");
                push_str_chars(&mut out, format_bytes(*expected).as_str());
                assert(out@ =~= spec_download_message(*self));
                from_chars(&out)
            },
        }
    }
}

/// Where the default model is saved inside the data directory `data_dir`:
/// the default file name in the app's model directory; without a data
/// directory there is no such place.
pub fn default_download_output_in(data_dir: Option<String>) -> (r: Result<String, ConfigError>)
    ensures
        match data_dir {
            Some(d) => (r matches Ok(p) && p@ == join(join(d@, "models"@), DEFAULT_MODEL_FILENAME@)),
            None => r == Err::<String, ConfigError>(ConfigError::NoDataDir),
        },
{
    let dir = app_model_dir_in(data_dir)?;
    Ok(path_join(dir.as_str(), DEFAULT_MODEL_FILENAME))
}

/// Where the default model is saved: the default file name in the app's
/// model directory, inside the platform data directory.
pub fn default_download_output() -> (r: Result<String, ConfigError>)
    ensures
        r matches Ok(p) ==> exists|d: Seq<char>|
            app_dir(d) && p@ == join(join(d, "models"@), DEFAULT_MODEL_FILENAME@),
        r matches Err(e) ==> e == ConfigError::NoDataDir,
{
    default_download_output_in(platform_data_dir())
}

/// The URL without its query string.
pub open spec fn without_query(url: Seq<char>) -> Seq<char> {
    match find(url, seq!['?']) {
        Some(i) => url.take(i),
        None => url,
    }
}

/// The last path segment of a URL, ignoring the query string, when it is not empty.
pub open spec fn spec_file_name_from_url(url: Seq<char>) -> Option<Seq<char>> {
    let name = last_segment(without_query(url));
    if name.len() == 0 {
        None
    } else {
        Some(name)
    }
}

/// The file name a URL points at: its last path segment, without the query.
pub fn file_name_from_url(url: &str) -> (r: Option<String>)
    ensures
        r matches Some(n) ==> spec_file_name_from_url(url@) == Some(n@),
        r is None ==> spec_file_name_from_url(url@) is None,
{
    let v = to_chars(url);
    let before = match find_char(&v, '?') {
        Some(i) => slice_of(&v, 0, i),
        None => slice_of(&v, 0, v.len()),
    };
    assert(before@ =~= without_query(url@));
    let name = match rfind_char(&before, '/') {
        Some(i) => slice_of(&before, i + 1, before.len()),
        None => slice_of(&before, 0, before.len()),
    };
    assert(name@ =~= last_segment(before@));
    if name.len() == 0 {
        None
    } else {
        Some(from_chars(&name))
    }
}

pub open spec fn spec_looks_like_model_file(p: Seq<char>) -> bool {
    has_extension(p, "llamafile"@) || has_extension(p, "gguf"@) || has_extension(p, "exe"@)
}

/// Whether a path names a model file: `.llamafile`, `.gguf` or `.exe`.
pub fn looks_like_model_file(path: &str) -> (r: bool)
    ensures
        r == spec_looks_like_model_file(path@),
{
    extension_is(path, "llamafile") || extension_is(path, "gguf") || extension_is(path, "exe")
}

/// Where a download of `url` goes for an (expanded) `--download-output`
/// path: inside it when it is an existing directory, the path itself when it
/// names a model file, and inside it otherwise.
pub open spec fn spec_target_in(output: Seq<char>, url: Seq<char>, output_is_dir: bool) -> Seq<char> {
    let name = match spec_file_name_from_url(url) {
        Some(n) => n,
        None => DEFAULT_MODEL_FILENAME@,
    };
    if output_is_dir {
        join(output, name)
    } else if spec_looks_like_model_file(output) {
        output
    } else {
        join(output, name)
    }
}

/// The file name a download of `url` is saved under: the URL's, else the
/// default model's.
pub open spec fn download_file_name(url: Seq<char>) -> Seq<char> {
    match spec_file_name_from_url(url) {
        Some(n) => n,
        None => DEFAULT_MODEL_FILENAME@,
    }
}

/// Where a download of `url` goes: for an output path, `spec_target_in` of
/// it with `~` expanded to `home`; without one, the URL's file name in the
/// app's model directory inside `data_dir`, and nowhere when there is no
/// data directory.
pub open spec fn spec_target_path(
    output: Option<Seq<char>>,
    url: Seq<char>,
    output_is_dir: bool,
    home: Option<Seq<char>>,
    data_dir: Option<Seq<char>>,
) -> Result<Seq<char>, ConfigErrorView> {
    match output {
        Some(o) => Ok(spec_target_in(expand_home_with(o, home), url, output_is_dir)),
        None => match data_dir {
            Some(d) => Ok(join(join(d, "models"@), download_file_name(url))),
            None => Err(ConfigErrorView::NoDataDir),
        },
    }
}

/// The characters of a path-or-error result.
pub open spec fn path_result_view(r: Result<String, ConfigError>) -> Result<Seq<char>, ConfigErrorView> {
    match r {
        Ok(p) => Ok(p@),
        Err(e) => Err(e@),
    }
}

/// The file a download of `url` is saved to, given the home directory and
/// the data directory. `output_is_dir` tells whether the expanded output
/// path is an existing directory.
pub fn target_path_in(
    output: Option<String>,
    url: &str,
    output_is_dir: bool,
    home: Option<String>,
    data_dir: Option<String>,
) -> (r: Result<String, ConfigError>)
    ensures
        path_result_view(r) == spec_target_path(
            opt_view(output),
            url@,
            output_is_dir,
            opt_view(home),
            opt_view(data_dir),
        ),
{
    let filename = match file_name_from_url(url) {
        Some(n) => n,
        None => String::from_str(DEFAULT_MODEL_FILENAME),
    };
    let output = match output {
        Some(o) => o,
        None => {
            let dir = app_model_dir_in(data_dir)?;
            return Ok(path_join(dir.as_str(), filename.as_str()));
        },
    };
    let ghost o = output@;
    let expanded = expand_home_in(output, home);
    if output_is_dir {
        return Ok(path_join(expanded.as_str(), filename.as_str()));
    }
    if looks_like_model_file(expanded.as_str()) {
        return Ok(expanded);
    }
    Ok(path_join(expanded.as_str(), filename.as_str()))
}

/// The file a download of `url` is saved to. Without an output path this is
/// the app's model directory, under the URL's file name; `output_is_dir`
/// tells whether the expanded output path is an existing directory.
pub fn target_path(output: Option<String>, url: &str, output_is_dir: bool) -> (r: Result<
    String,
    ConfigError,
>)
    ensures
        exists|h: Option<Seq<char>>, d: Option<Seq<char>>|
            (d matches Some(x) ==> app_dir(x)) && path_result_view(r) == spec_target_path(
                opt_view(output),
                url@,
                output_is_dir,
                h,
                d,
            ),
{
    let home = match &output {
        Some(o) => home_for(o.as_str()),
        None => None,
    };
    let data_dir = match &output {
        Some(_) => None,
        None => platform_data_dir(),
    };
    let ghost hv = opt_view(home);
    let ghost dv = opt_view(data_dir);
    target_path_in(output, url, output_is_dir, home, data_dir)
}

/// The temporary file a download is written to before it is renamed: the
/// target's file name with `.part` appended.
pub fn part_path(target_path: &str) -> (r: Result<String, DownloadError>)
    ensures
        file_name(target_path@) matches Some(f) ==> (r matches Ok(p) && p@ == with_file_name(
            target_path@,
            f + ".part"@,
        )),
        file_name(target_path@) is None ==> (r matches Err(DownloadError::NoFileName(t)) && t@
            == target_path@),
{
    match path_file_name(target_path) {
        Some(f) => {
            let mut name = to_chars(f.as_str());
            push_str_chars(&mut name, ".part");
            let n = from_chars(&name);
            Ok(path_with_file_name(target_path, n.as_str()))
        },
        None => Err(DownloadError::NoFileName(String::from_str(target_path))),
    }
}

/// Whether an existing file already holds the whole model: it must be a
/// regular file, of the announced length when the server announced one, and
/// not empty otherwise.
pub fn existing_file_is_complete(is_file: bool, len: u64, expected_len: Option<u64>) -> (r: bool)
    ensures
        r == (is_file && match expected_len {
            Some(e) => len == e,
            None => len > 0,
        }),
{
    if !is_file {
        return false;
    }
    match expected_len {
        Some(e) => len == e,
        None => len > 0,
    }
}

/// Checks that the number of bytes received matches the announced length, when there was one.
pub fn check_download_complete(downloaded: u64, expected_len: Option<u64>) -> (r: Result<
    (),
    DownloadError,
>)
    ensures
        match expected_len {
            Some(e) => if downloaded == e {
                r is Ok
            } else {
                r matches Err(DownloadError::Incomplete { downloaded: d, expected: x }) && d
                    == downloaded && x == e
            },
            None => r is Ok,
        },
{
    match expected_len {
        Some(e) => if downloaded != e {
            Err(DownloadError::Incomplete { downloaded, expected: e })
        } else {
            Ok(())
        },
        None => Ok(()),
    }
}

/// Whether a downloaded model must be made executable: everything but GGUF
/// weights, which are data.
pub fn needs_executable_bit(path: &str) -> (r: bool)
    ensures
        r == !has_extension(path@, "gguf"@),
{
    !extension_is(path, "gguf")
}

/// The permission bits that make a file executable for everyone, readable
/// for everyone and writable by its owner, added to `mode`.
pub fn executable_mode(mode: u32) -> (r: u32)
    ensures
        r == mode | 0o755u32,
{
    mode | 0o755
}

} // verus!
