use std::collections::BTreeMap;
use std::io::{Read, Write};
use std::path::{Path, PathBuf};

use flate2::{read::GzDecoder, write::GzEncoder, Compression};
use templater::archive::{select_entries, WalkedPath};
use templater::filter::GlobFilter;
use templater::tree::{print_tar_tree, tree_entries, ArchiveItem};

fn make_dir(parent: &Path, name: &str) -> PathBuf {
    let dir = tempfile::Builder::new()
        .prefix(name)
        .rand_bytes(0)
        .disable_cleanup(true)
        .tempdir_in(parent)
        .unwrap();
    dir.path().to_path_buf()
}

fn make_file(parent: &Path, name: &str, content: &[u8]) {
    let mut file = tempfile::Builder::new()
        .prefix(name)
        .rand_bytes(0)
        .disable_cleanup(true)
        .tempfile_in(parent)
        .unwrap();
    file.write_all(content).unwrap();
    file.flush().unwrap();
}

fn source_tree() -> tempfile::TempDir {
    let dir = tempfile::tempdir().unwrap();
    let root = dir.path();
    let src = make_dir(root, "src");
    let deep = make_dir(&src, "deep");
    let target = make_dir(root, "target");
    let debug = make_dir(&target, "debug");
    make_dir(root, "empty");
    make_file(root, "README.md", b"# hello\n");
    make_file(&src, "main.rs", b"fn main() {}\n");
    make_file(&deep, "data.bin", &[0u8, 1, 2, 255]);
    make_file(&src, "notes.LOG", b"noise");
    make_file(&debug, "app", b"binary");
    dir
}

fn walk(root: &Path) -> Vec<WalkedPath> {
    walkdir::WalkDir::new(root)
        .sort_by_file_name()
        .into_iter()
        .map(|entry| entry.unwrap())
        .map(|entry| WalkedPath {
            path: entry.path().to_str().unwrap().to_string(),
            relative: entry.path().strip_prefix(root).unwrap().to_str().unwrap().to_string(),
            is_file: entry.path().is_file(),
        })
        .collect()
}

fn pack(root: &Path, patterns: &[&str]) -> Vec<u8> {
    let patterns: Vec<String> = patterns.iter().map(|s| s.to_string()).collect();
    let filter = GlobFilter::compile(&patterns).unwrap();
    let entries = select_entries(&filter, &walk(root));
    let mut tar = tar::Builder::new(GzEncoder::new(Vec::new(), Compression::default()));
    for entry in &entries {
        if entry.is_file {
            tar.append_path_with_name(&entry.source, &entry.name).unwrap();
        } else {
            tar.append_dir(&entry.name, &entry.source).unwrap();
        }
    }
    tar.into_inner().unwrap().finish().unwrap()
}

fn unpack(archive: &[u8]) -> tempfile::TempDir {
    let destination = tempfile::tempdir().unwrap();
    tar::Archive::new(GzDecoder::new(archive)).unpack(destination.path()).unwrap();
    destination
}

fn contents(root: &Path) -> BTreeMap<String, Option<Vec<u8>>> {
    let mut tar = tar::Builder::new(Vec::new());
    tar.append_dir_all("", root).unwrap();
    let bytes = tar.into_inner().unwrap();
    let mut found = BTreeMap::new();
    let mut reader = tar::Archive::new(&bytes[..]);
    for entry in reader.entries().unwrap() {
        let mut entry = entry.unwrap();
        let path = entry.path().unwrap().to_string_lossy().trim_end_matches('/').to_string();
        if path.is_empty() {
            continue;
        }
        if entry.header().entry_type().is_dir() {
            found.insert(path, None);
        } else {
            let mut content = Vec::new();
            entry.read_to_end(&mut content).unwrap();
            found.insert(path, Some(content));
        }
    }
    found
}

#[test]
fn capture_and_expansion_reproduce_the_tree() {
    let source = source_tree();
    let destination = unpack(&pack(source.path(), &[]));
    let got = contents(destination.path());
    assert_eq!(got, contents(source.path()));
    assert_eq!(got.len(), 10);
    assert_eq!(got["src/deep/data.bin"], Some(vec![0u8, 1, 2, 255]));
}

#[test]
fn capture_and_expansion_leave_out_what_is_ignored() {
    let source = source_tree();
    let destination = unpack(&pack(source.path(), &["**/target/**", "*.log"]));
    let got = contents(destination.path());
    let names: Vec<&str> = got.keys().map(|k| k.as_str()).collect();
    assert_eq!(
        names,
        vec!["README.md", "empty", "src", "src/deep", "src/deep/data.bin", "src/main.rs", "target"]
    );
    assert_eq!(got["src/deep/data.bin"], Some(vec![0u8, 1, 2, 255]));
    assert_eq!(got["README.md"], Some(b"# hello\n".to_vec()));
    assert_eq!(got["src/main.rs"], Some(b"fn main() {}\n".to_vec()));
    assert_eq!(got["empty"], None);
}

#[test]
fn the_tree_of_a_written_archive_can_be_drawn() {
    let source = source_tree();
    let archive = pack(source.path(), &["**/target/**", "**/target", "*.log", "**/empty"]);
    let mut items = Vec::new();
    let mut depths = Vec::new();
    let mut reader = tar::Archive::new(GzDecoder::new(&archive[..]));
    for entry in reader.entries().unwrap() {
        let entry = entry.unwrap();
        let path = entry.path().unwrap();
        depths.push(path.components().count());
        items.push(ArchiveItem {
            path: path.to_string_lossy().to_string(),
            is_dir: entry.header().entry_type().is_dir(),
        });
    }
    let entries = tree_entries(items);
    assert_eq!(entries.iter().map(|e| e.depth).collect::<Vec<usize>>(), depths);
    assert_eq!(
        print_tar_tree(&entries),
        vec![
            "./",
            "├── README.md",
            "├── src",
            "│   └── deep",
            "│       └── data.bin",
            "│   └── main.rs",
        ]
    );
}
