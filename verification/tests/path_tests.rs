use rhodibot::path::file_name;
use rhodibot::path::is_absolute;
use rhodibot::path::join;
use rhodibot::path::parent;
use rhodibot::path::starts_with;
use std::path::Path;

const SAMPLES: [&str; 44] = [
    "",
    "/",
    "//",
    ".",
    "..",
    "./",
    "./.",
    "./a",
    "../a",
    "a",
    "a/",
    "a//",
    "a/.",
    "a/./",
    "a/..",
    "a/b",
    "a//b",
    "a/./b",
    "a/b/.",
    "a/b/./",
    "a/b/..",
    "/a",
    "/a/",
    "/a/b",
    "/a//b/",
    "/a/./b",
    "/.",
    "/..",
    "/./a",
    "/a/b/c",
    "/a/bc",
    "/a/b.c",
    ".a",
    "..a",
    "a.",
    "a/.b",
    "/work/repo",
    "/work/repo/",
    "/work/repo-evil",
    "/work/repo/src/../..",
    "/work/r\u{e9}po/\u{1f916}",
    "README.md",
    ".well-known/security.txt",
    "./.well-known",
];

fn text(path: Option<&Path>) -> Option<String> {
    path.map(|p| p.to_str().unwrap().to_string())
}

#[test]
fn is_absolute_as_the_standard_library() {
    for sample in SAMPLES {
        assert_eq!(is_absolute(sample), Path::new(sample).is_absolute(), "{:?}", sample);
    }
}

#[test]
fn parent_as_the_standard_library() {
    for sample in SAMPLES {
        assert_eq!(parent(sample), text(Path::new(sample).parent()), "{:?}", sample);
    }
}

#[test]
fn file_name_as_the_standard_library() {
    for sample in SAMPLES {
        let expected = Path::new(sample).file_name().map(|n| n.to_str().unwrap().to_string());
        assert_eq!(file_name(sample), expected, "{:?}", sample);
    }
}

#[test]
fn join_as_the_standard_library() {
    for base in SAMPLES {
        for name in SAMPLES {
            let expected = Path::new(base).join(name);
            assert_eq!(join(base, name), expected.to_str().unwrap(), "{:?} {:?}", base, name);
        }
    }
}

#[test]
fn starts_with_as_the_standard_library() {
    for path in SAMPLES {
        for base in SAMPLES {
            assert_eq!(
                starts_with(path, base),
                Path::new(path).starts_with(base),
                "{:?} {:?}",
                path,
                base
            );
        }
    }
}

#[test]
fn join_examples() {
    assert_eq!(join("/repo", "README.md"), "/repo/README.md");
    assert_eq!(join("/repo/", "README.md"), "/repo/README.md");
    assert_eq!(join("", "README.md"), "README.md");
    assert_eq!(join("/repo", "/etc/passwd"), "/etc/passwd");
    assert_eq!(join("repo", ""), "repo/");
}

#[test]
fn parent_examples() {
    assert_eq!(parent("/repo/LICENSE.txt"), Some(String::from("/repo")));
    assert_eq!(parent("LICENSE.txt"), Some(String::new()));
    assert_eq!(parent("/"), None);
    assert_eq!(parent(""), None);
    assert_eq!(parent("/a"), Some(String::from("/")));
    assert_eq!(parent("a/./b//"), Some(String::from("a")));
}

#[test]
fn file_name_examples() {
    assert_eq!(file_name("/work/repo"), Some(String::from("repo")));
    assert_eq!(file_name("/work/repo/"), Some(String::from("repo")));
    assert_eq!(file_name("/"), None);
    assert_eq!(file_name(".."), None);
    assert_eq!(file_name("."), None);
}

#[test]
fn starts_with_goes_by_whole_components() {
    assert!(starts_with("/work/repo/src", "/work/repo"));
    assert!(starts_with("/work/repo", "/work/repo"));
    assert!(starts_with("/work/repo", "/work/repo/"));
    assert!(starts_with("/work//repo/./src", "/work/repo"));
    assert!(!starts_with("/work/repo-evil", "/work/repo"));
    assert!(!starts_with("/work/rep", "/work/repo"));
    assert!(!starts_with("/work", "/work/repo"));
    assert!(!starts_with("work/repo", "/work/repo"));
    assert!(!starts_with("/work/repo", "work/repo"));
    assert!(starts_with("/work/repo", ""));
    assert!(!starts_with("/work/repo/../other", "/work/repo/src"));
}
