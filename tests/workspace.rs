use youmu::gate::BuildGate;
use youmu::request::split_features;
use youmu::publish::hex_fixed;
use youmu::version::decimal_text;
use youmu::{fingerprint_path, is_stale_fingerprint, staging_plan, Fingerprint, DocsError, ConfigError, ResolutionError,
    ServerConfig, Server, SqliteDocs, StagingStep, Version};

fn names(v: &[&str]) -> Vec<String> {
    v.iter().map(|s| s.to_string()).collect()
}

fn entries(v: &[&str]) -> Vec<Fingerprint> {
    v.iter()
        .map(|s| Fingerprint { dir: "/w/debug/.fingerprint/demo-1".to_string(), name: s.to_string() })
        .collect()
}

fn removed(steps: &[StagingStep]) -> Vec<String> {
    steps
        .iter()
        .filter_map(|s| match s {
            StagingStep::RemoveFile(p) => Some(p.clone()),
            _ => None,
        })
        .collect()
}

#[test]
fn stale_fingerprints_are_doc_prefixed() {
    assert!(is_stale_fingerprint("doc-demo-1234"));
    assert!(is_stale_fingerprint("doc-"));
    assert!(!is_stale_fingerprint("doc"));
    assert!(!is_stale_fingerprint("lib-demo"));
    assert!(!is_stale_fingerprint("xdoc-demo"));
}

#[test]
fn staging_plan_steps_in_order() {
    assert_eq!(fingerprint_path("/w"), "/w/debug/.fingerprint");
    let steps = staging_plan("/w", &entries(&["doc-a", "lib-a", "doc-b"]), "/pub/demo");
    assert_eq!(steps.len(), 6);
    assert!(matches!(&steps[0], StagingStep::CreateDir(p) if p == "/w"));
    assert_eq!(removed(&steps), names(&["/w/debug/.fingerprint/demo-1/doc-a", "/w/debug/.fingerprint/demo-1/doc-b"]));
    assert!(matches!(&steps[3], StagingStep::CreateDir(p) if p == "/pub/demo"));
    assert!(matches!(&steps[4], StagingStep::ClearPath(p) if p == "/w/doc"));
    assert!(matches!(&steps[5], StagingStep::Link { from, to } if from == "/w/doc" && to == "/pub/demo"));
}

#[test]
fn second_staging_finds_no_stale_entry() {
    let listed = entries(&["doc-a", "build-x", "doc-b", "lib-y"]);
    let first = staging_plan("/w", &listed, "/p");
    assert_eq!(removed(&first).len(), 2);
    let left: Vec<Fingerprint> = listed.into_iter().filter(|e| !is_stale_fingerprint(&e.name)).collect();
    let second = staging_plan("/w", &left, "/p");
    assert!(removed(&second).is_empty());
    assert_eq!(second.len(), 4);
}

#[test]
fn gate_admits_one_attempt_at_a_time() {
    let mut g = BuildGate::new();
    assert!(!g.is_busy());
    assert!(g.try_enter(1));
    assert!(!g.try_enter(2));
    assert!(!g.leave(2));
    assert!(g.is_busy());
    assert!(g.leave(1));
    assert!(!g.is_busy());
    assert!(g.try_enter(2));
    assert!(!g.try_enter(1));
}

#[test]
fn features_split_on_single_spaces() {
    assert_eq!(split_features("a b"), names(&["a", "b"]));
    assert_eq!(split_features(""), names(&[""]));
    assert_eq!(split_features("a  b"), names(&["a", "", "b"]));
    assert_eq!(split_features("serde"), names(&["serde"]));
}

#[test]
fn error_statuses() {
    assert_eq!(DocsError::Config(ConfigError::EmptyName).status(), 400);
    assert_eq!(DocsError::Resolution(ResolutionError::NotFound).status(), 500);
    assert_eq!(DocsError::Fetch("x".to_string()).status(), 500);
    assert_eq!(DocsError::Workspace("x".to_string()).status(), 500);
    assert_eq!(DocsError::Build("x".to_string()).status(), 500);
}

#[test]
fn numerals() {
    assert_eq!(decimal_text(0), "0");
    assert_eq!(decimal_text(1203), "1203");
    assert_eq!(decimal_text(u64::MAX), "18446744073709551615");
    assert_eq!(hex_fixed(255, 4), "00ff");
    assert_eq!(hex_fixed(0xdeadbeef, 8), "deadbeef");
    assert_eq!(Version::new(10, 0, 3).text(), "10.0.3");
    assert!(Version::new(1, 2, 0).is_older_than(&Version::new(1, 10, 0)));
    assert!(!Version::new(2, 0, 0).is_older_than(&Version::new(1, 10, 0)));
    assert_eq!(Version::parse("1.5.0"), Some(Version::new(1, 5, 0)));
    assert_eq!(Version::parse("1.0.0-alpha").map(|v| v.text()), Some("1.0.0-alpha".to_string()));
    assert!(Version::parse("1.0.0-alpha").unwrap().is_older_than(&Version::new(1, 0, 0)));
    assert_eq!(Version::parse("1.0"), None);
}

#[test]
fn catalog_and_server() {
    let docs = SqliteDocs::new().query_all();
    assert_eq!(docs.len(), 1);
    assert_eq!(docs[0].name, "youmu");
    assert_eq!(docs[0].version, Version::new(0, 0, 1));
    let cfg = ServerConfig { bind_address: "127.0.0.1".to_string(), bind_port: 8080, docs_path: "docs".to_string() };
    let s = Server::new(cfg, SqliteDocs::new(), ());
    assert_eq!(s.address(), "127.0.0.1:8080");
    assert_eq!(s.config().docs_path, "docs");
    let q = s.gendocs_request("demo", "", "1.2.3").unwrap();
    assert!(q.default_features && q.include_deps && q.features.is_empty());
    assert_eq!(s.gendocs_request("demo", "", "").err(), Some(ConfigError::MissingSource));
}
