use restate_downloader::path::normalize;
use restate_downloader::with_store::PosixPath;
use typed_path::UnixPathBuf;

#[test]
fn normalize_resolves_parent_segments() {
    assert_eq!(normalize("downloads/../downloads/file.txt"), "downloads/file.txt");
}

#[test]
fn normalize_never_starts_with_a_parent_segment() {
    assert_eq!(normalize("nested/../../file.txt"), "file.txt");
    assert_eq!(normalize("../../a"), "a");
    assert_eq!(normalize(".."), "");
}

#[test]
fn normalize_keeps_an_absolute_path() {
    assert_eq!(normalize("/absolute/path.txt"), "/absolute/path.txt");
}

#[test]
fn normalize_keeps_the_root() {
    assert_eq!(normalize("/"), "/");
    assert_eq!(normalize("//"), "/");
    assert_eq!(normalize("/.."), "/");
    assert_eq!(normalize("/../a"), "/a");
    assert_eq!(normalize("/a/.."), "/");
}

#[test]
fn normalize_collapses_empty_and_current_segments() {
    assert_eq!(normalize("a//b"), "a/b");
    assert_eq!(normalize("a/./b/."), "a/b");
    assert_eq!(normalize("./"), "");
    assert_eq!(normalize("."), "");
    assert_eq!(normalize(""), "");
    assert_eq!(normalize("a/b/"), "a/b");
}

#[test]
fn normalize_keeps_names_that_only_look_like_dots() {
    assert_eq!(normalize("..."), "...");
    assert_eq!(normalize("a/..b/.c"), "a/..b/.c");
    assert_eq!(normalize(".a/.."), "");
}

#[test]
fn normalize_keeps_text_beyond_ascii() {
    assert_eq!(normalize("später/./日本語/../ü.txt"), "später/ü.txt");
}

#[test]
fn normalize_is_idempotent() {
    let inputs = vec![
        "",
        "/",
        ".",
        "..",
        "a/b/../c",
        "/a//b/./c/",
        "../../x",
        "downloads/../downloads/file.txt",
        "/../..",
        "a/./../b/c/../../d",
    ];
    for input in inputs {
        let once = normalize(input);
        let twice = normalize(once.as_str());
        assert_eq!(twice, once, "not idempotent on '{}'", input);
    }
}

fn texts_over(alphabet: &[char], len: usize) -> Vec<String> {
    let mut texts = vec![String::new()];
    let mut last = vec![String::new()];
    for _ in 0..len {
        let mut next = Vec::new();
        for text in &last {
            for c in alphabet {
                let mut longer = text.clone();
                longer.push(*c);
                next.push(longer);
            }
        }
        texts.extend(next.iter().cloned());
        last = next;
    }
    texts
}

#[test]
fn normalize_is_idempotent_on_all_short_paths() {
    for text in texts_over(&['a', '.', '/'], 7) {
        let once = normalize(text.as_str());
        assert_eq!(normalize(once.as_str()), once, "not idempotent on '{}'", text);
    }
}

#[test]
fn normalize_agrees_with_typed_path_on_all_short_paths() {
    for text in texts_over(&['a', '.', '/'], 8) {
        let expected = UnixPathBuf::from(text.as_str()).normalize().to_string();
        assert_eq!(normalize(text.as_str()), expected, "differs on '{}'", text);
    }
}

#[test]
fn normalize_agrees_with_typed_path_on_mixed_paths() {
    let alphabet = ['a', 'b', '.', '.', '/', '/', '\\', ' ', 'é', '\0', '~', '日'];
    let mut state: u64 = 0x2545_f491_4f6c_dd1d;
    let mut next = move |bound: u64| -> u64 {
        state ^= state << 13;
        state ^= state >> 7;
        state ^= state << 17;
        state % bound
    };
    for _ in 0..100_000 {
        let len = next(14);
        let mut text = String::new();
        for _ in 0..len {
            text.push(alphabet[next(12) as usize]);
        }
        let expected = UnixPathBuf::from(text.as_str()).normalize().to_string();
        assert_eq!(normalize(text.as_str()), expected, "differs on {:?}", text);
    }
}

#[test]
fn posix_path_knows_a_directory_by_its_trailing_slash() {
    assert!(PosixPath::new("downloads/".to_string()).has_trailing_slash());
    assert!(PosixPath::new("/".to_string()).has_trailing_slash());
    assert!(!PosixPath::new("downloads".to_string()).has_trailing_slash());
    assert!(!PosixPath::new("".to_string()).has_trailing_slash());
    assert!(!PosixPath::new("a/.".to_string()).has_trailing_slash());
}
