use sublercli::FsSnapshot;
use sublercli::PathParts;

fn snap(paths: &[&str]) -> FsSnapshot {
    FsSnapshot::new(paths.iter().map(|p| p.to_string()).collect())
}

#[test]
fn split_bare_file_name() {
    let parts = PathParts::split("demo.mp4").unwrap();
    assert!(parts.dir.is_none());
    assert_eq!(parts.stem, "demo");
    assert_eq!(parts.ext, "mp4");
}

#[test]
fn split_with_directory() {
    let parts = PathParts::split("out/final.mp4").unwrap();
    assert_eq!(parts.dir.as_deref(), Some("out"));
    assert_eq!(parts.stem, "final");
    assert_eq!(parts.ext, "mp4");
}

#[test]
fn split_nested_directory_and_inner_dots() {
    let parts = PathParts::split("a/b/c.d.e").unwrap();
    assert_eq!(parts.dir.as_deref(), Some("a/b"));
    assert_eq!(parts.stem, "c.d");
    assert_eq!(parts.ext, "e");
}

#[test]
fn split_absolute_root_file() {
    let parts = PathParts::split("/demo.mp4").unwrap();
    assert_eq!(parts.dir.as_deref(), Some(""));
    assert_eq!(parts.stem, "demo");
    assert_eq!(parts.ext, "mp4");
}

#[test]
fn split_rejects_missing_extension() {
    assert!(PathParts::split("demo").is_none());
    assert!(PathParts::split("out/demo").is_none());
}

#[test]
fn split_rejects_hidden_file_without_extension() {
    assert!(PathParts::split(".hidden").is_none());
    assert!(PathParts::split("dir/.hidden").is_none());
}

#[test]
fn split_rejects_empty_name_or_empty_extension() {
    assert!(PathParts::split("").is_none());
    assert!(PathParts::split("dir/").is_none());
    assert!(PathParts::split("demo.").is_none());
}

#[test]
fn candidate_inserts_index_before_extension() {
    let parts = PathParts::split("demo.mp4").unwrap();
    assert_eq!(parts.candidate(0), "demo.0.mp4");
    assert_eq!(parts.candidate(7), "demo.7.mp4");
    assert_eq!(parts.candidate(12), "demo.12.mp4");
    assert_eq!(parts.candidate(205), "demo.205.mp4");
}

#[test]
fn candidate_keeps_directory_prefix() {
    let parts = PathParts::split("out/final.mp4").unwrap();
    assert_eq!(parts.candidate(3), "out/final.3.mp4");
}

#[test]
fn snapshot_membership() {
    let fs = snap(&["a.mp4", "b.mp4"]);
    assert!(fs.contains(&"a.mp4".to_string()));
    assert!(fs.contains(&"b.mp4".to_string()));
    assert!(!fs.contains(&"c.mp4".to_string()));
}
