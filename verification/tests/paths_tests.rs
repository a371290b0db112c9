use chatter::paths::{components, extension, file_name, join_path, normalize, parent, render};
use chatter::text::chars_of;
use std::path::{Component, Path};

fn text(v: &[char]) -> String {
    v.iter().collect()
}

fn parts(path: &str) -> Vec<String> {
    components(&chars_of(path)).iter().map(|c| text(c)).collect()
}

fn std_parts(path: &str) -> Vec<String> {
    Path::new(path)
        .components()
        .map(|c| match c {
            Component::RootDir => "/".to_string(),
            Component::CurDir => ".".to_string(),
            Component::ParentDir => "..".to_string(),
            Component::Normal(n) => n.to_str().unwrap().to_string(),
            Component::Prefix(p) => p.as_os_str().to_str().unwrap().to_string(),
        })
        .collect()
}

const SAMPLES: [&str; 28] = [
    "",
    "/",
    "//",
    ".",
    "..",
    "./",
    "./.",
    "a",
    "a/",
    "a/b",
    "/a/b",
    "/a//b/",
    "a/./b",
    "a/b/.",
    "./a/b",
    "../a",
    "a/../b",
    "/..",
    "/../a",
    "/a/../../b",
    "a/..b/c",
    ".hidden",
    "dir/.hidden.txt",
    "archive.tar.gz",
    "name.",
    "/tmp/test/../../etc/passwd",
    "C:\\Windows",
    "a b/c d.txt",
];

#[test]
fn components_are_those_of_the_standard_library() {
    for s in SAMPLES {
        assert_eq!(parts(s), std_parts(s), "components of {:?}", s);
    }
}

#[test]
fn file_names_and_extensions_are_those_of_the_standard_library() {
    for s in SAMPLES {
        let p = Path::new(s);
        assert_eq!(
            file_name(&chars_of(s)).map(|n| text(&n)),
            p.file_name().map(|n| n.to_str().unwrap().to_string()),
            "file name of {:?}",
            s
        );
        assert_eq!(
            extension(&chars_of(s)).map(|n| text(&n)),
            p.extension().map(|n| n.to_str().unwrap().to_string()),
            "extension of {:?}",
            s
        );
    }
}

#[test]
fn joining_is_that_of_the_standard_library() {
    let bases = ["", "/", "a", "a/", "/tmp/test", "/tmp/test/"];
    for base in bases {
        for s in SAMPLES {
            assert_eq!(
                text(&join_path(&chars_of(base), &chars_of(s))),
                Path::new(base).join(s).to_str().unwrap(),
                "join {:?} {:?}",
                base,
                s
            );
        }
    }
}

#[test]
fn parents_name_the_same_place_as_those_of_the_standard_library() {
    for s in SAMPLES {
        let ours = parent(&chars_of(s)).map(|p| std_parts(&text(&p)));
        let theirs = Path::new(s).parent().map(|p| std_parts(p.to_str().unwrap()));
        assert_eq!(ours, theirs, "parent of {:?}", s);
    }
    assert_eq!(parent(&chars_of("dir/file.txt")).map(|p| text(&p)), Some("dir".to_string()));
    assert_eq!(parent(&chars_of("/file.txt")).map(|p| text(&p)), Some("/".to_string()));
    assert_eq!(parent(&chars_of("file.txt")).map(|p| text(&p)), Some("".to_string()));
    assert_eq!(parent(&chars_of("/")), None);
}

#[test]
fn normalizing_resolves_dots() {
    let resolved = |s: &str| normalize(&chars_of(s)).map(|st| text(&render(&st)));
    assert_eq!(resolved("/a/./b/../c"), Some("/a/c".to_string()));
    assert_eq!(resolved("a/b/.."), Some("a".to_string()));
    assert_eq!(resolved("/tmp/test/../../etc"), Some("/etc".to_string()));
    assert_eq!(resolved("/.."), None);
    assert_eq!(resolved("/../a"), None);
    assert_eq!(resolved("/../.."), None);
    assert_eq!(resolved("/a/.."), Some("/".to_string()));
    assert_eq!(resolved("/a/../.."), None);
    assert_eq!(resolved("/a/b/../../c"), Some("/c".to_string()));
    assert_eq!(resolved(".."), None);
    assert_eq!(resolved("a/../.."), None);
    assert_eq!(resolved(""), Some("".to_string()));
    assert_eq!(resolved("/"), Some("/".to_string()));
    assert_eq!(resolved("//a///b"), Some("/a/b".to_string()));
}

#[test]
fn a_rendered_path_has_the_components_it_was_made_of() {
    for s in SAMPLES {
        if let Some(stack) = normalize(&chars_of(s)) {
            let shown = text(&render(&stack));
            let again: Vec<String> = stack.iter().map(|c| text(c)).collect();
            assert_eq!(std_parts(&shown), again, "rendering of {:?}", s);
        }
    }
}

/// Paths made of few characters, in an order that a fixed rule spreads
/// well.
fn generated(count: usize) -> Vec<String> {
    let alphabet = ['/', '.', 'a', '/', '.', 'b', '/'];
    let mut state: u64 = 0x9E3779B97F4A7C15;
    let mut out = Vec::new();
    for _ in 0..count {
        state ^= state << 13;
        state ^= state >> 7;
        state ^= state << 17;
        let len = (state % 10) as usize;
        let mut s = String::new();
        let mut bits = state >> 8;
        for _ in 0..len {
            s.push(alphabet[(bits % alphabet.len() as u64) as usize]);
            bits /= alphabet.len() as u64;
        }
        out.push(s);
    }
    out
}

#[test]
fn generated_paths_are_read_as_by_the_standard_library() {
    let paths = generated(5000);
    for s in &paths {
        let p = Path::new(s);
        assert_eq!(parts(s), std_parts(s), "components of {:?}", s);
        assert_eq!(
            file_name(&chars_of(s)).map(|n| text(&n)),
            p.file_name().map(|n| n.to_str().unwrap().to_string()),
            "file name of {:?}",
            s
        );
        assert_eq!(
            extension(&chars_of(s)).map(|n| text(&n)),
            p.extension().map(|n| n.to_str().unwrap().to_string()),
            "extension of {:?}",
            s
        );
        assert_eq!(
            parent(&chars_of(s)).map(|q| std_parts(&text(&q))),
            p.parent().map(|q| std_parts(q.to_str().unwrap())),
            "parent of {:?}",
            s
        );
        if let Some(stack) = normalize(&chars_of(s)) {
            let shown = text(&render(&stack));
            assert_eq!(
                std_parts(&shown),
                stack.iter().map(|c| text(c)).collect::<Vec<_>>(),
                "rendering of {:?}",
                s
            );
        }
    }
    for (base, rel) in paths.iter().zip(paths.iter().skip(1)).take(2000) {
        assert_eq!(
            text(&join_path(&chars_of(base), &chars_of(rel))),
            Path::new(base).join(rel).to_str().unwrap(),
            "join {:?} {:?}",
            base,
            rel
        );
        let ours = normalize(&chars_of(base)).zip(normalize(&chars_of(rel))).map(|(a, b)| {
            chatter::paths::has_prefix(&a, &b)
        });
        if let Some(prefixed) = ours {
            let a = text(&render(&normalize(&chars_of(base)).unwrap()));
            let b = text(&render(&normalize(&chars_of(rel)).unwrap()));
            assert_eq!(prefixed, Path::new(&a).starts_with(&b), "prefix {:?} {:?}", a, b);
        }
    }
}

#[test]
fn an_absolute_path_stays_absolute_when_resolved() {
    for s in generated(3000) {
        if s.starts_with('/') {
            if let Some(stack) = normalize(&chars_of(&s)) {
                assert!(text(&render(&stack)).starts_with('/'), "resolving {:?}", s);
            }
        }
    }
}
