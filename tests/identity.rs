use cask::identity::compute_identity;

const MANIFEST_A: &str = "python: \"3.11\"\ndependencies:\n  - requests\n";

#[test]
fn identity_matches_known_digest_prefix() {
    assert_eq!(compute_identity("3.11", MANIFEST_A.as_bytes(), "linux"), "0a965b9641d8c1b8");
}

#[test]
fn identity_of_empty_file_is_digest_prefix() {
    assert_eq!(compute_identity("3.10", b"", "linux"), "8f451d30d0f780e9");
}

#[test]
fn identity_is_sixteen_lowercase_hex_digits() {
    let id = compute_identity("3.12", b"dependencies: []\n", "macos");
    assert_eq!(id.len(), 16);
    assert!(id.chars().all(|c| c.is_ascii_digit() || ('a'..='f').contains(&c)));
}

#[test]
fn identity_repeated_calls_agree() {
    let first = compute_identity("3.11", MANIFEST_A.as_bytes(), "linux");
    for _ in 0..5 {
        assert_eq!(compute_identity("3.11", MANIFEST_A.as_bytes(), "linux"), first);
    }
}

#[test]
fn identity_differs_across_distinct_contents() {
    let mut ids: Vec<String> = Vec::new();
    for n in 0..300 {
        let content = format!("python: \"3.11\"\ndependencies:\n  - package-{}\n", n);
        ids.push(compute_identity("3.11", content.as_bytes(), "linux"));
    }
    ids.push(compute_identity("3.11", b"", "linux"));
    ids.push(compute_identity("3.11", b" ", "linux"));
    ids.push(compute_identity("3.11", MANIFEST_A.as_bytes(), "linux"));
    let mut sorted = ids.clone();
    sorted.sort();
    sorted.dedup();
    assert_eq!(sorted.len(), ids.len());
}

#[test]
fn identity_depends_on_version_and_os() {
    let base = compute_identity("3.11", MANIFEST_A.as_bytes(), "linux");
    assert_ne!(compute_identity("3.12", MANIFEST_A.as_bytes(), "linux"), base);
    assert_ne!(compute_identity("3.11", MANIFEST_A.as_bytes(), "windows"), base);
}

#[test]
fn identity_changes_when_dependency_appended() {
    let first = compute_identity("3.11", MANIFEST_A.as_bytes(), "linux");
    let edited = format!("{}  - rich\n", MANIFEST_A);
    let second = compute_identity("3.11", edited.as_bytes(), "linux");
    assert_ne!(first, second);
}
