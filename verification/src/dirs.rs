//! The platform directories that the `directories` crate reports. Where
//! they are depends on the environment (`$HOME`, the XDG variables) and the
//! platform; the contracts say only what holds everywhere.
use vstd::prelude::*;
use crate::text::occurs;

verus! {

#[verifier::external_type_specification]
#[verifier::external_body]
pub struct ExBaseDirs(directories::BaseDirs);

/// `directories::BaseDirs::new`: `None` when the platform reports no home
/// directory. Nothing is promised of the outcome, which depends on the environment.
#[verifier::external_body]
pub(crate) fn base_dirs_new() -> Option<directories::BaseDirs> {
    directories::BaseDirs::new()
}

/// `directories::BaseDirs::home_dir`, as a string (lossily for non-UTF-8
/// paths). Nothing is promised of the path.
#[verifier::external_body]
pub(crate) fn base_home_dir(dirs: &directories::BaseDirs) -> String {
    dirs.home_dir().to_string_lossy().into_owned()
}

/// An application name that every platform's `directories` keeps as it is
/// inside the project's directories: not empty, and only lower-case ASCII
/// letters, digits, `-` and `_`.
pub open spec fn plain_app_name(a: Seq<char>) -> bool {
    a.len() > 0 && forall|i: int| 0 <= i < a.len() ==> #[trigger] plain_name_char(a[i])
}

/// A lower-case ASCII letter, a digit, `-` or `_`.
pub open spec fn plain_name_char(c: char) -> bool {
    ('a' <= c && c <= 'z') || ('0' <= c && c <= '9') || c == '-' || c == '_'
}

/// `directories::ProjectDirs::from`, with the project's config and data
/// directories it reports (`config_dir`, `data_dir`), as strings (lossily
/// for non-UTF-8 paths). `None` when the platform reports no home directory.
/// Which base directories it uses depends on the environment (`$HOME`, the
/// XDG variables) and the platform, so that is left open. What the source
/// shows on every platform is that both directories are a base directory
/// joined with a project path that holds the application name: lower-cased
/// with whitespace removed on Linux, `qualifier.organization.application`
/// on macOS, `organization\application` (then `config` or `data`) on
/// Windows; on wasm there is never one. So a plain application name occurs
/// in both paths.
#[verifier::external_body]
pub(crate) fn project_dirs_from(qualifier: &str, organization: &str, application: &str) -> (r: Option<
    (String, String),
>)
    ensures
        plain_app_name(application@) ==> (r matches Some(dirs) ==> occurs(dirs.0@, application@)
            && occurs(dirs.1@, application@)),
{
    match directories::ProjectDirs::from(qualifier, organization, application) {
        Some(dirs) => Some(
            (
                dirs.config_dir().to_string_lossy().into_owned(),
                dirs.data_dir().to_string_lossy().into_owned(),
            ),
        ),
        None => None,
    }
}

} // verus!
