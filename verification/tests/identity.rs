use emdash::identity::{id_for_canonical, stable_id_from_path};

#[test]
fn id_matches_known_digest() {
    // SHA-1("x") begins 11f6ad8ec52a
    assert_eq!(id_for_canonical("x"), "wt-11f6ad8ec52a");
    assert_eq!(id_for_canonical("a/b"), "wt-3ec69c85a4ff");
}

#[test]
fn id_is_deterministic() {
    let a = stable_id_from_path("/definitely/missing/path");
    let b = stable_id_from_path("/definitely/missing/path");
    assert_eq!(a, b);
    // a path that cannot be canonicalized hashes as given
    assert_eq!(a, "wt-13b276deaf7e");
}

#[test]
fn id_is_normalization_invariant_for_real_paths() {
    // "." and "./." canonicalize to the same directory
    assert_eq!(stable_id_from_path("."), stable_id_from_path("./."));
}

#[test]
fn id_has_prefix_and_length() {
    let id = stable_id_from_path("whatever");
    assert_eq!(id.len(), 15);
    assert!(id.starts_with("wt-"));
}
