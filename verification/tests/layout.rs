use karakup::host::Host;
use karakup::layout::{path_contains, paths_match, Layout};

fn chars(text: &str) -> Vec<char> {
    text.chars().collect()
}

fn same(a: &str, b: &str) -> bool {
    paths_match(&chars(a), &chars(b))
}

#[test]
fn directories_hang_below_home() {
    let layout = Layout::new("/home/u");
    assert_eq!(layout.install_dir(), "/home/u/.karak/bin");
    assert_eq!(layout.config_dir(), "/home/u/.karak");
    assert_eq!(layout.binary_path(), "/home/u/.karak/bin/karak");
    assert_eq!(layout.version_record_path(), "/home/u/.karak/bin/.bin_version");
}

#[test]
fn missing_home_gives_paths_at_the_root() {
    let layout = Layout::new("");
    assert_eq!(layout.install_dir(), "/.karak/bin");
    assert_eq!(layout.config_dir(), "/.karak");
}

#[test]
fn search_path_lists_the_directory() {
    assert!(path_contains(Some("/usr/bin:/home/u/.karak/bin:/bin"), "/home/u/.karak/bin"));
    assert!(path_contains(Some("/home/u/.karak/bin"), "/home/u/.karak/bin"));
    assert!(path_contains(Some("/home/u/.karak/bin:"), "/home/u/.karak/bin"));
}

#[test]
fn search_path_does_not_list_the_directory() {
    assert!(!path_contains(Some("/usr/bin:/bin"), "/home/u/.karak/bin"));
    assert!(!path_contains(Some(""), "/home/u/.karak/bin"));
    assert!(!path_contains(Some("/home/u/.karak"), "/home/u/.karak/bin"));
    assert!(!path_contains(Some("/home/u/.karak/bin/karak"), "/home/u/.karak/bin"));
    assert!(!path_contains(Some("home/u/.karak/bin"), "/home/u/.karak/bin"));
}

#[test]
fn no_search_path_lists_nothing() {
    assert!(!path_contains(None, "/home/u/.karak/bin"));
    assert!(!path_contains(None, ""));
}

#[test]
fn entries_are_compared_as_paths() {
    assert!(path_contains(Some("/usr/bin:/home/u/.karak/bin/"), "/home/u/.karak/bin"));
    assert!(path_contains(Some("/home//u/./.karak/bin"), "/home/u/.karak/bin"));
    assert!(!path_contains(Some("/home/u/../u/.karak/bin"), "/home/u/.karak/bin"));
}

#[test]
fn path_comparison_agrees_with_the_standard_paths() {
    let samples = [
        "", ".", "..", "/", "//", "a", "./a", "a/", "a/.", "a//b", "a/./b", "a/b", "/a/b", "/a/b/",
        "/./a/b", "./", ".a", "a/..", "../a", "/..", "/a/../b", ".//a", "/.", "a/b/.", "././a",
    ];
    for a in samples {
        for b in samples {
            let expected = std::path::Path::new(a) == std::path::Path::new(b);
            assert_eq!(same(a, b), expected, "paths {:?} and {:?}", a, b);
        }
    }
}

#[test]
fn host_knows_whether_its_install_dir_is_listed() {
    let listed = Host::new("linux", "x86_64", "/home/u", Some("/bin:/home/u/.karak/bin"));
    assert!(listed.install_dir_on_path());
    let unlisted = Host::new("linux", "x86_64", "/home/u", Some("/bin:/usr/bin"));
    assert!(!unlisted.install_dir_on_path());
    let without = Host::new("linux", "x86_64", "/home/u", None);
    assert!(!without.install_dir_on_path());
}

#[test]
fn host_keeps_what_it_was_given() {
    let host = Host::new("macos", "aarch64", "/Users/u", Some("/bin"));
    assert_eq!(host.os, "macos");
    assert_eq!(host.arch, "aarch64");
    assert_eq!(host.layout.home, "/Users/u");
    assert_eq!(host.search_path, Some("/bin".to_string()));
    assert_eq!(host.duplicate(), host);
    assert!(host.platform().is_ok());
    assert!(Host::new("plan9", "aarch64", "/", None).platform().is_err());
}
