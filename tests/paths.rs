use autonixdoc::path::{file_extension, file_stem, ParsedPath};

#[test]
fn parse_absolute_path() {
    let p = ParsedPath::parse("/a//b/./c/");
    assert!(p.rooted);
    assert!(!p.dotted);
    assert_eq!(p.names, vec!["a".to_string(), "b".to_string(), "c".to_string()]);
    assert_eq!(p.render(), "/a/b/c");
}

#[test]
fn parse_dotted_and_empty_paths() {
    let p = ParsedPath::parse("./x");
    assert!(p.dotted);
    assert_eq!(p.render(), "./x");
    let q = ParsedPath::parse("");
    assert!(q.is_empty());
    assert_eq!(q.render(), "");
    let r = ParsedPath::parse(".hidden/x");
    assert!(!r.dotted);
    assert_eq!(r.render(), ".hidden/x");
}

#[test]
fn parent_and_strip_prefix() {
    let p = ParsedPath::parse("/src/lib/module.nix");
    let dir = p.parent().unwrap();
    assert_eq!(dir.render(), "/src/lib");
    let rel = dir.strip_prefix(&ParsedPath::parse("/src")).unwrap();
    assert_eq!(rel.render(), "lib");
    assert!(dir.strip_prefix(&ParsedPath::parse("/other")).is_none());
    assert!(ParsedPath::parse("/").parent().is_none());
    assert_eq!(ParsedPath::parse(".").parent().unwrap().render(), "");
}

#[test]
fn stems_and_extensions() {
    assert_eq!(file_stem("module.nix"), "module");
    assert_eq!(file_stem("archive.tar.gz"), "archive.tar");
    assert_eq!(file_stem(".bashrc"), ".bashrc");
    assert_eq!(file_stem("plain"), "plain");
    assert_eq!(file_extension("module.nix"), Some("nix".to_string()));
    assert_eq!(file_extension(".bashrc"), None);
    assert_eq!(file_extension("plain"), None);
    assert_eq!(file_extension("trailing."), Some(String::new()));
}

#[test]
fn file_name_of_parent_marker() {
    assert!(ParsedPath::parse("/src/..").file_name().is_none());
    assert_eq!(
        ParsedPath::parse("/src/a.nix").file_name(),
        Some(&"a.nix".to_string())
    );
}
