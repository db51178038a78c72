use lint_lang::path::same_path_exec;
use std::path::Path;

#[test]
fn paths_compare_by_components_like_std() {
    let samples = [
        "", "/", "//", "a", "a/", "a//b", "a/b", "./a", ".", "./", "a/.", "a/./b", "/./a", "/a", "../a", "a/..",
        "a/b/", "/a/b", "/a/b/", "/a//b", ".a", "..", "./.", "a/.b", "~/x", "/a/b/.",
    ];
    for a in samples {
        for b in samples {
            assert_eq!(same_path_exec(a, b), Path::new(a) == Path::new(b), "{a:?} vs {b:?}");
        }
    }
}
