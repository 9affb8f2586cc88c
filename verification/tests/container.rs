use emdash::container::{
    allowlisted, choose_preview_service, default_port, ensure_preview_port,
    ensure_unique_services, resolve_preview_service, to_slug, ContainerState,
    ResolvedContainerPortConfig,
};

fn port(service: &str, container: u16, preview: bool) -> ResolvedContainerPortConfig {
    ResolvedContainerPortConfig {
        service: service.to_string(),
        container,
        protocol: "tcp".to_string(),
        preview,
    }
}

#[test]
fn default_port_is_app_3000() {
    let p = default_port();
    assert_eq!(p.service, "app");
    assert_eq!(p.container, 3000);
    assert_eq!(p.protocol, "tcp");
    assert!(p.preview);
}

#[test]
fn ensure_preview_keeps_only_first_flag() {
    let mut ports = vec![port("a", 1, false), port("b", 2, true), port("c", 3, true)];
    ensure_preview_port(&mut ports);
    assert!(!ports[0].preview);
    assert!(ports[1].preview);
    assert!(!ports[2].preview);
}

#[test]
fn ensure_preview_elects_first_when_none_set() {
    let mut ports = vec![port("a", 1, false), port("b", 2, false)];
    ensure_preview_port(&mut ports);
    assert!(ports[0].preview);
    assert!(!ports[1].preview);
    let mut empty: Vec<ResolvedContainerPortConfig> = vec![];
    ensure_preview_port(&mut empty);
    assert!(empty.is_empty());
}

#[test]
fn duplicate_services_are_reported() {
    let ports = vec![port("db", 5432, false), port("web", 80, true), port("db", 5433, false)];
    let issue = ensure_unique_services(&ports).expect("a duplicate");
    assert_eq!(issue.index, 2);
    assert_eq!(issue.message, "Duplicate service name \"db\" found in ports array");
    assert_eq!(issue.path, "ports[2].service");
    assert!(ensure_unique_services(&vec![port("a", 1, false), port("b", 2, false)]).is_none());
}

#[test]
fn preview_service_follows_conventions() {
    assert_eq!(choose_preview_service(&vec![port("db", 5432, false), port("web", 80, false)]), "web");
    assert_eq!(choose_preview_service(&vec![port("db", 5432, false), port("api", 3000, false)]), "api");
    assert_eq!(choose_preview_service(&vec![port("db", 5432, false)]), "db");
    assert_eq!(choose_preview_service(&vec![]), "app");
}

#[test]
fn explicit_preview_flag_wins() {
    let ports = vec![port("web", 80, false), port("worker", 9999, true)];
    assert_eq!(resolve_preview_service(&ports), "worker");
    let unflagged = vec![port("db", 5432, false), port("ui", 80, false)];
    assert_eq!(resolve_preview_service(&unflagged), "ui");
}

#[test]
fn container_slug_trims_first() {
    assert_eq!(to_slug("  My App  "), "my-app");
    assert_eq!(to_slug("x"), "x");
}

#[test]
fn icon_domains_are_allowlisted() {
    assert!(allowlisted("redis.io"));
    assert!(allowlisted("postgresql.org"));
    assert!(!allowlisted("example.com"));
    let _ = ContainerState::new();
}
