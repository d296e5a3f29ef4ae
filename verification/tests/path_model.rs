use std::path::{Path, PathBuf};

use dsdm::path::{
    components, is_prefix, join, parent, path_starts_with, rebuild_between,
};

const SAMPLES: [&str; 26] = [
    "",
    "/",
    ".",
    "..",
    "a",
    "a/",
    "/a",
    "a/b",
    "a//b",
    "a/./b",
    "./a/b",
    "../a",
    "a/../b",
    "/a/b/c",
    "//a",
    "/./a",
    "a/b/c/",
    "a/b/.",
    "config/app.toml",
    "config",
    "con",
    ".config/shell",
    "späße/日本語.txt",
    "with space/file name",
    "~/x",
    "a\\b/c",
];

fn std_components(path: &str) -> Vec<String> {
    Path::new(path).components().map(|c| c.as_os_str().to_string_lossy().into_owned()).collect()
}

#[test]
fn components_agree_with_the_platform() {
    for sample in SAMPLES {
        assert_eq!(components(sample), std_components(sample), "components of {:?}", sample);
    }
}

#[test]
fn join_agrees_with_the_platform() {
    for base in SAMPLES {
        for rest in SAMPLES {
            assert_eq!(
                join(base, rest),
                Path::new(base).join(rest).to_string_lossy(),
                "{:?} joined with {:?}",
                base,
                rest
            );
        }
    }
}

#[test]
fn prefix_test_agrees_with_the_platform() {
    for path in SAMPLES {
        for base in SAMPLES {
            assert_eq!(
                path_starts_with(path, base),
                Path::new(path).starts_with(base),
                "{:?} starts with {:?}",
                path,
                base
            );
        }
    }
    assert!(path_starts_with("config/app.toml", "config"));
    assert!(!path_starts_with("config/app.toml", "con"));
    assert!(!path_starts_with("configs/app.toml", "config"));
}

#[test]
fn parent_names_the_same_directory_as_the_platform() {
    for sample in SAMPLES {
        let expected = Path::new(sample).parent().map(|p| std_components(&p.to_string_lossy()));
        let found = parent(sample).map(|p| components(&p));
        assert_eq!(found, expected, "parent of {:?}", sample);
    }
}

#[test]
fn rebuilding_components_gives_the_path_back() {
    for sample in SAMPLES {
        let names = components(sample);
        let rebuilt = rebuild_between(&names, 0, names.len());
        let expected: PathBuf = Path::new(sample).components().collect();
        assert_eq!(rebuilt, expected.to_string_lossy(), "rebuilding {:?}", sample);
    }
    let names = components("a/b/c/d");
    assert_eq!(rebuild_between(&names, 1, 3), "b/c");
    assert_eq!(rebuild_between(&names, 2, 2), "");
}

#[test]
fn prefix_of_component_lists() {
    let names = components("a/b/c");
    assert!(is_prefix(&components("a/b"), &names));
    assert!(is_prefix(&components(""), &names));
    assert!(is_prefix(&names, &names));
    assert!(!is_prefix(&components("a/c"), &names));
    assert!(!is_prefix(&components("a/b/c/d"), &names));
}
