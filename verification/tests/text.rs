use templater::text::{
    char_is_space, chars_of, count_char, has_substring, join_strings, split_at_first, split_words,
};

fn strings(items: &[&str]) -> Vec<String> {
    items.iter().map(|s| s.to_string()).collect()
}

#[test]
fn white_space_agrees_with_std_on_every_character() {
    let mut code: u32 = 0;
    while code <= 0x10FFFF {
        if let Some(c) = char::from_u32(code) {
            assert_eq!(char_is_space(c), c.is_whitespace(), "U+{:04X}", code);
        }
        code += 1;
    }
}

#[test]
fn chars_come_out_in_order() {
    assert_eq!(chars_of("aé│"), vec!['a', 'é', '│']);
    assert_eq!(chars_of(""), Vec::<char>::new());
}

#[test]
fn words_are_the_runs_between_white_space() {
    assert_eq!(split_words("cargo build --release"), strings(&["cargo", "build", "--release"]));
    assert_eq!(split_words("  a \t b\n"), strings(&["a", "b"]));
    assert_eq!(split_words("one"), strings(&["one"]));
    assert_eq!(split_words(""), Vec::<String>::new());
    assert_eq!(split_words(" \t\n"), Vec::<String>::new());
    assert_eq!(split_words("a\u{00A0}b\u{3000}c"), strings(&["a", "b", "c"]));
    assert_eq!(split_words("echo 'a b'"), strings(&["echo", "'a", "b'"]));
}

#[test]
fn words_agree_with_split_whitespace() {
    let samples = [
        "",
        " ",
        "a",
        " a",
        "a ",
        "a  b",
        "npm install --save-dev  eslint",
        "\tgit\tinit\r\n",
        "ünï cödé  │ └──",
        "x\u{2003}y\u{2028}z",
    ];
    for sample in samples {
        let expected: Vec<String> = sample.split_whitespace().map(|s| s.to_string()).collect();
        assert_eq!(split_words(sample), expected, "{:?}", sample);
    }
}

#[test]
fn substring_search_finds_what_is_there() {
    assert!(has_substring("rust-cli", "cli"));
    assert!(has_substring("rust-cli", "rust"));
    assert!(has_substring("rust-cli", "t-c"));
    assert!(has_substring("rust-cli", "rust-cli"));
    assert!(has_substring("rust-cli", ""));
    assert!(has_substring("", ""));
    assert!(!has_substring("rust-cli", "Rust"));
    assert!(!has_substring("rust-cli", "rust-cli-2"));
    assert!(!has_substring("", "a"));
    assert!(!has_substring("aab", "aba"));
    assert!(has_substring("aaab", "aab"));
    assert!(has_substring("päckchen", "äck"));
}

#[test]
fn substring_search_agrees_with_contains() {
    let hays = ["", "a", "ab", "aab", "abab", "web-app", "WEB", "ünï"];
    let needles = ["", "a", "b", "ab", "ba", "aba", "app", "web", "ï", "abc"];
    for hay in hays {
        for needle in needles {
            assert_eq!(has_substring(hay, needle), hay.contains(needle), "{:?} {:?}", hay, needle);
        }
    }
}

#[test]
fn a_text_is_split_at_its_first_mark_only() {
    assert_eq!(split_at_first("KEY=value", '='), ("KEY".to_string(), "value".to_string()));
    assert_eq!(split_at_first("KEY=a=b", '='), ("KEY".to_string(), "a=b".to_string()));
    assert_eq!(split_at_first("KEY", '='), ("KEY".to_string(), "".to_string()));
    assert_eq!(split_at_first("KEY=", '='), ("KEY".to_string(), "".to_string()));
    assert_eq!(split_at_first("=value", '='), ("".to_string(), "value".to_string()));
    assert_eq!(split_at_first("", '='), ("".to_string(), "".to_string()));
    assert_eq!(split_at_first("==", '='), ("".to_string(), "=".to_string()));
}

#[test]
fn joining_puts_the_separator_between_neighbours() {
    assert_eq!(join_strings(&strings(&["a", "b", "c"]), " "), "a b c");
    assert_eq!(join_strings(&strings(&["a"]), " "), "a");
    assert_eq!(join_strings(&strings(&[]), " "), "");
    assert_eq!(join_strings(&strings(&["", ""]), ", "), ", ");
    assert_eq!(join_strings(&strings(&["x", "y"]), ""), "xy");
}

#[test]
fn a_character_is_counted_wherever_it_stands() {
    assert_eq!(count_char("{a,{b,c}}", '{'), 2);
    assert_eq!(count_char("{a,{b,c}}", '}'), 2);
    assert_eq!(count_char("{a,{b,c}}", ','), 2);
    assert_eq!(count_char("", '{'), 0);
    assert_eq!(count_char("abc", '{'), 0);
    assert_eq!(count_char("{{{", '{'), 3);
    assert_eq!(count_char("é{é", 'é'), 2);
}
