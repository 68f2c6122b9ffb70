use std::path::Path;

use templater::path::{leaf_name, path_depth};

const SAMPLES: [&str; 40] = [
    "",
    ".",
    "..",
    "/",
    "//",
    "./",
    "./.",
    "/.",
    "/..",
    "a",
    "a/",
    "a//",
    "a/.",
    "a/./",
    "a/..",
    "a/b",
    "a//b",
    "a/./b",
    "a/b/.",
    "a/b/./.",
    "./a",
    "./a/b",
    "././a",
    ".//a",
    "/a",
    "/a/b/",
    "/./a",
    "../a",
    "a/../b",
    ".a",
    "a.",
    "..a",
    "a..",
    "...",
    ".hidden/file.tar.gz",
    "root/a/b.txt",
    "src/deep/data.bin",
    "dir/ünï cödé",
    "a b/c d",
    "x/y/z/",
];

#[test]
fn components_are_counted_as_std_counts_them() {
    for sample in SAMPLES {
        assert_eq!(path_depth(sample), Path::new(sample).components().count(), "{:?}", sample);
    }
}

#[test]
fn the_leaf_is_the_file_name_or_the_whole_path() {
    for sample in SAMPLES {
        let path = Path::new(sample);
        let expected = path.file_name().unwrap_or_else(|| path.as_os_str()).to_string_lossy();
        assert_eq!(leaf_name(sample), expected, "{:?}", sample);
    }
}

#[test]
fn depth_counts_what_has_a_name() {
    assert_eq!(path_depth(""), 0);
    assert_eq!(path_depth("."), 1);
    assert_eq!(path_depth("./"), 1);
    assert_eq!(path_depth("/"), 1);
    assert_eq!(path_depth("a"), 1);
    assert_eq!(path_depth("a/b.txt"), 2);
    assert_eq!(path_depth("./a/b.txt"), 3);
    assert_eq!(path_depth("/a/b.txt"), 3);
    assert_eq!(path_depth("a//b/./c/"), 3);
    assert_eq!(path_depth("a/../b"), 3);
}

#[test]
fn leaf_is_the_last_component() {
    assert_eq!(leaf_name("root/a/b.txt"), "b.txt");
    assert_eq!(leaf_name("root/a/"), "a");
    assert_eq!(leaf_name("root/a//"), "a");
    assert_eq!(leaf_name("root/a/."), "a");
    assert_eq!(leaf_name("b.txt"), "b.txt");
    assert_eq!(leaf_name("/etc"), "etc");
    assert_eq!(leaf_name("dir/ünï"), "ünï");
    assert_eq!(leaf_name("."), ".");
    assert_eq!(leaf_name("./"), "./");
    assert_eq!(leaf_name(""), "");
    assert_eq!(leaf_name("/"), "/");
    assert_eq!(leaf_name(".."), "..");
    assert_eq!(leaf_name("a/.."), "a/..");
    assert_eq!(leaf_name("a/..."), "...");
}
