use templater::archive::{
    archive_file_name, keep_entries, select_entries, ArchiveEntry, WalkedPath,
};
use templater::error::Error;
use templater::filter::{GlobFilter, MAX_BRACES};

fn strings(items: &[&str]) -> Vec<String> {
    items.iter().map(|s| s.to_string()).collect()
}

fn filter(patterns: &[&str]) -> GlobFilter {
    match GlobFilter::compile(&strings(patterns)) {
        Ok(f) => f,
        Err(e) => panic!("{}", e.message()),
    }
}

fn walked(path: &str, relative: &str, is_file: bool) -> WalkedPath {
    WalkedPath { path: path.to_string(), relative: relative.to_string(), is_file }
}

#[test]
fn a_path_is_excluded_when_one_pattern_matches() {
    let f = filter(&["*.log", "**/target/**"]);
    assert!(f.is_excluded("project/build.log"));
    assert!(f.is_excluded("project/target/debug/app"));
    assert!(!f.is_excluded("project/src/main.rs"));
    assert!(!f.is_excluded("project/target"));
}

#[test]
fn matching_ignores_case() {
    let f = filter(&["*.TXT"]);
    assert!(f.is_excluded("notes.txt"));
    assert!(f.is_excluded("NOTES.TXT"));
    assert!(f.is_excluded("Notes.Txt"));
    assert!(!f.is_excluded("notes.md"));
}

#[test]
fn patterns_are_held_against_the_whole_path() {
    let f = filter(&["src"]);
    assert!(f.is_excluded("src"));
    assert!(!f.is_excluded("project/src"));
    let g = filter(&["*src"]);
    assert!(g.is_excluded("project/src"));
}

#[test]
fn the_path_is_what_is_matched_not_the_pattern() {
    let f = filter(&["a*"]);
    assert!(f.is_excluded("abc"));
    assert!(!f.is_excluded("xa*"));
    assert!(!f.is_excluded("b"));
}

#[test]
fn without_patterns_nothing_is_excluded() {
    let f = filter(&[]);
    assert!(!f.is_excluded(""));
    assert!(!f.is_excluded("anything/at/all"));
}

#[test]
fn the_first_invalid_pattern_is_reported() {
    let r = GlobFilter::compile(&strings(&["*.rs", "a[", "{b"]));
    assert_eq!(r, Err(Error::InvalidPattern("a[".to_string())));
    let r = GlobFilter::compile(&strings(&["{a,b"]));
    assert_eq!(r, Err(Error::InvalidPattern("{a,b".to_string())));
    let r = GlobFilter::compile(&strings(&["a**b/[z-a]"]));
    assert_eq!(r, Err(Error::InvalidPattern("a**b/[z-a]".to_string())));
}

fn nested(depth: usize) -> String {
    format!("{}a{}", "{".repeat(depth), "}".repeat(depth))
}

#[test]
fn nested_alternates_compile_and_match() {
    let f = filter(&["{{a,b},{c,{d,e}}}.txt", &nested(20), &nested(100)]);
    assert!(f.is_excluded("a.txt"));
    assert!(f.is_excluded("E.TXT"));
    assert!(!f.is_excluded("f.txt"));
    assert!(f.is_excluded("a"));
    assert!(!f.is_excluded("b"));
}

#[test]
fn alternates_nested_too_deep_to_compile_are_refused() {
    for depth in [250, MAX_BRACES] {
        let pattern = nested(depth);
        let r = GlobFilter::compile(&vec!["*.rs".to_string(), pattern.clone()]);
        assert_eq!(r, Err(Error::InvalidPattern(pattern)), "depth {}", depth);
    }
}

#[test]
fn a_pattern_with_more_braces_than_the_bound_is_refused() {
    let deep = nested(MAX_BRACES + 1);
    assert_eq!(GlobFilter::compile(&vec![deep.clone()]), Err(Error::InvalidPattern(deep)));
    let flat = "{a}".repeat(MAX_BRACES + 1);
    assert_eq!(GlobFilter::compile(&vec![flat.clone()]), Err(Error::InvalidPattern(flat)));
    let wide = "{a,b}".repeat(MAX_BRACES);
    assert!(GlobFilter::compile(&vec![wide]).is_ok());
}

#[test]
fn long_patterns_compile_and_match() {
    let plain = "a".repeat(5000);
    let wide = "é".repeat(3000);
    let stars = "*a".repeat(1000);
    let classes = "[a-z]".repeat(1000);
    let f = match GlobFilter::compile(&vec![plain.clone(), wide.clone(), stars, classes]) {
        Ok(f) => f,
        Err(e) => panic!("{}", e.message().len()),
    };
    assert!(f.is_excluded(&plain));
    assert!(f.is_excluded(&plain.to_uppercase()));
    assert!(f.is_excluded(&wide));
    assert!(!f.is_excluded("b"));
}

#[test]
fn a_pattern_too_large_to_compile_is_refused() {
    let huge = "[a-z]".repeat(1_000_000);
    assert_eq!(GlobFilter::compile(&vec![huge.clone()]), Err(Error::InvalidPattern(huge)));
}

#[test]
fn the_archive_holds_the_paths_that_no_pattern_matches() {
    let f = filter(&["**/node_modules/**", "*.tmp"]);
    let walk = vec![
        walked("site", "", false),
        walked("site/index.html", "index.html", true),
        walked("site/cache.tmp", "cache.tmp", true),
        walked("site/node_modules", "node_modules", false),
        walked("site/node_modules/x.js", "node_modules/x.js", true),
        walked("site/js", "js", false),
        walked("site/js/app.js", "js/app.js", true),
    ];
    let entries = select_entries(&f, &walk);
    let entry = |source: &str, name: &str, is_file: bool| ArchiveEntry {
        source: source.to_string(),
        name: name.to_string(),
        is_file,
    };
    assert_eq!(
        entries,
        vec![
            entry("site", "./", false),
            entry("site/index.html", "./index.html", true),
            entry("site/node_modules", "./node_modules", false),
            entry("site/js", "./js", false),
            entry("site/js/app.js", "./js/app.js", true),
        ]
    );
}

#[test]
fn without_patterns_the_archive_holds_the_whole_walk() {
    let f = filter(&[]);
    let walk = vec![walked("d", "", false), walked("d/a", "a", true)];
    let entries = select_entries(&f, &walk);
    assert_eq!(entries.len(), 2);
    assert_eq!(entries[0].name, "./");
    assert_eq!(entries[1].name, "./a");
    assert_eq!(entries[1].source, "d/a");
    assert!(entries[1].is_file);
    assert_eq!(select_entries(&f, &vec![]), vec![]);
}

#[test]
fn the_artifact_is_named_after_the_template() {
    assert_eq!(archive_file_name("web"), "web.tar.gz");
    assert_eq!(archive_file_name(""), ".tar.gz");
    assert_eq!(templater::archive::STORAGE_DIRECTORY, "templater");
    assert_eq!(templater::archive::METADATA_DIRECTORY, "metadata");
    assert_eq!(templater::archive::ARCHIVES_DIRECTORY, "archives");
}

#[test]
fn entries_are_kept_as_the_marks_say() {
    let walk = vec![
        walked("d", "", false),
        walked("d/a", "a", true),
        walked("d/b", "b", true),
        walked("d/c", "c", true),
    ];
    let names = |entries: Vec<ArchiveEntry>| -> Vec<String> {
        entries.into_iter().map(|e| e.name).collect()
    };
    assert_eq!(
        names(keep_entries(&walk, &vec![false, true, false, true])),
        strings(&["./", "./b"])
    );
    assert_eq!(names(keep_entries(&walk, &vec![true, true, true, true])), strings(&[]));
    assert_eq!(names(keep_entries(&walk, &vec![true])), strings(&["./a", "./b", "./c"]));
    assert_eq!(
        names(keep_entries(&walk, &vec![false, false, false, false, true])),
        strings(&["./", "./a", "./b", "./c"])
    );
    assert_eq!(keep_entries(&vec![], &vec![true]), vec![]);
}
