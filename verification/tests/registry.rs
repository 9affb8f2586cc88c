use emdash::registry::{WorktreeInfo, WorktreeState};

fn info(id: &str, path: &str, branch: &str) -> WorktreeInfo {
    WorktreeInfo {
        id: id.to_string(),
        name: "task".to_string(),
        branch: branch.to_string(),
        path: path.to_string(),
        project_id: "p".to_string(),
        status: "active".to_string(),
        created_at: "t".to_string(),
        last_activity: None,
    }
}

#[test]
fn insert_and_get() {
    let mut reg = WorktreeState::new();
    assert_eq!(reg.entry_count(), 0);
    reg.insert(info("wt-a", "/w/a", "agent/a"));
    reg.insert(info("wt-b", "/w/b", "agent/b"));
    assert_eq!(reg.entry_count(), 2);
    assert_eq!(reg.get("wt-a").unwrap().path, "/w/a");
    assert_eq!(reg.get("wt-b").unwrap().branch, "agent/b");
    assert!(reg.get("wt-c").is_none());
}

#[test]
fn insert_replaces_same_id() {
    let mut reg = WorktreeState::new();
    reg.insert(info("wt-a", "/w/a", "agent/a"));
    reg.insert(info("wt-a", "/w/a2", "agent/a2"));
    assert_eq!(reg.entry_count(), 1);
    assert_eq!(reg.get("wt-a").unwrap().path, "/w/a2");
}

#[test]
fn remove_reports_presence() {
    let mut reg = WorktreeState::new();
    reg.insert(info("wt-a", "/w/a", "b"));
    assert!(reg.remove_id("wt-a"));
    assert!(!reg.remove_id("wt-a"));
    assert!(reg.get("wt-a").is_none());
    assert_eq!(reg.entry_count(), 0);
}

#[test]
fn get_by_path_finds_first_match() {
    let mut reg = WorktreeState::new();
    reg.insert(info("wt-a", "/w/same", "one"));
    reg.insert(info("wt-b", "/w/same", "two"));
    let hit = reg.get_by_path("/w/same").unwrap();
    assert_eq!(hit.id, "wt-a");
    assert!(reg.get_by_path("/w/other").is_none());
}

#[test]
fn all_preserves_order() {
    let mut reg = WorktreeState::new();
    reg.insert(info("wt-a", "/w/a", "x"));
    reg.insert(info("wt-b", "/w/b", "y"));
    let all = reg.all();
    assert_eq!(all.len(), 2);
    assert_eq!(all[0].id, "wt-a");
    assert_eq!(all[1].id, "wt-b");
}
