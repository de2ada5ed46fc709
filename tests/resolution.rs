use youmu::{
    resolve, select_candidate, select_version, Cargo, ConfigError, PackageRequest, PackageSource,
    ResolutionError, Version,
};
use youmu::publish::publish_dir;

fn v(a: u64, b: u64, c: u64) -> Version {
    Version::new(a, b, c)
}

fn registry_request(name: &str, constraint: &str) -> PackageRequest {
    PackageRequest::new(name, "", constraint, Vec::new(), true, true).unwrap()
}

#[test]
fn newest_admitted_version_wins() {
    let listing = vec![v(1, 0, 0), v(1, 2, 0), v(2, 0, 0)];
    assert_eq!(select_version(&listing, ">=1.0, <2.0"), Ok(v(1, 2, 0)));
}

#[test]
fn order_of_listing_does_not_matter() {
    let listing = vec![v(1, 2, 0), v(2, 0, 0), v(1, 0, 0), v(1, 1, 9)];
    assert_eq!(select_version(&listing, ">=1.0,<2.0"), Ok(v(1, 2, 0)));
}

#[test]
fn no_admitted_version_is_unsatisfiable() {
    let listing = vec![v(1, 0, 0), v(1, 5, 0)];
    assert_eq!(select_version(&listing, "=9.9.9"), Err(ResolutionError::ConstraintUnsatisfiable));
}

#[test]
fn empty_listing_is_not_found() {
    assert_eq!(select_version(&Vec::new(), "*"), Err(ResolutionError::NotFound));
    assert_eq!(select_candidate(&Vec::new()), Err(ResolutionError::NotFound));
}

#[test]
fn direct_source_takes_first_candidate() {
    assert_eq!(select_candidate(&vec![v(0, 3, 0), v(0, 4, 0)]), Ok(v(0, 3, 0)));
}

#[test]
fn resolve_is_deterministic() {
    let q = registry_request("demo", "^1");
    let listing = vec![v(1, 0, 0), v(1, 7, 2), v(2, 1, 0)];
    let a = resolve(&q, &listing).unwrap();
    let b = resolve(&q, &listing).unwrap();
    assert_eq!(a.version, b.version);
    assert_eq!(a.version, v(1, 7, 2));
    assert_eq!(a.name, b.name);
    assert_eq!(a.source.location, b.source.location);
    assert!(a.source.registry);
}

#[test]
fn registry_scenario_publishes_under_version() {
    let q = registry_request("demo", ">=1.0,<2.0");
    let listing = vec![v(1, 0, 0), v(1, 5, 0)];
    let p = resolve(&q, &listing).unwrap();
    assert_eq!(p.version, v(1, 5, 0));
    assert_eq!(publish_dir("docs", &p), "docs/demo/1.5.0");
}

#[test]
fn missing_version_scenario_fails_before_staging() {
    let q = registry_request("demo", "=9.9.9");
    let listing = vec![v(1, 0, 0), v(1, 5, 0)];
    let r = Cargo::new().plan_attempt(&q, &listing, "/tmp/t", &Vec::new(), "docs/demo");
    assert!(matches!(r, Err(ResolutionError::ConstraintUnsatisfiable)));
}

#[test]
fn url_placement_is_stable_and_sixteen_hex_digits() {
    let q = PackageRequest::new("demo", "https://example.org/demo.git", "", Vec::new(), true, true)
        .unwrap();
    let a = resolve(&q, &vec![v(0, 1, 0)]).unwrap();
    let b = resolve(&q, &vec![v(0, 1, 0)]).unwrap();
    assert!(!a.source.registry);
    let pa = publish_dir("docs", &a);
    let pb = publish_dir("docs", &b);
    assert_eq!(pa, pb);
    let seg = pa.strip_prefix("docs/demo/").unwrap();
    assert_eq!(seg.len(), 16);
    assert!(seg.chars().all(|c| c.is_ascii_hexdigit() && !c.is_ascii_uppercase()));
    let other = PackageRequest::new("demo", "https://example.org/other.git", "", Vec::new(), true, true)
        .unwrap();
    let c = resolve(&other, &vec![v(0, 1, 0)]).unwrap();
    assert_ne!(publish_dir("docs", &c), pa);
}

#[test]
fn request_errors() {
    let e = |n: &str, u: &str, ver: &str| PackageRequest::new(n, u, ver, Vec::new(), true, true).err();
    assert_eq!(e("", "", "1.0"), Some(ConfigError::EmptyName));
    assert_eq!(e("demo", "", ""), Some(ConfigError::MissingSource));
    assert_eq!(e("demo", "", "@1.0.0"), Some(ConfigError::MalformedConstraint));
    assert_eq!(e("demo", "", ">=1.0 <2.0"), Some(ConfigError::MalformedConstraint));
    assert_eq!(e("demo", "", "*"), None);
}

#[test]
fn url_takes_precedence_over_version() {
    let q = PackageRequest::new("demo", "https://example.org/x", "1.0", vec!["a".to_string()], false, true)
        .unwrap();
    assert!(matches!(&q.source, PackageSource::Url(u) if u == "https://example.org/x"));
    assert_eq!(q.features, vec!["a".to_string()]);
    assert!(!q.default_features);
    let o = q.build_options();
    assert!(!o.release);
    assert!(!o.default_features);
    assert!(o.include_deps);
}

fn pre(text: &str) -> Version {
    Version::parse(text).unwrap()
}

#[test]
fn exact_pre_release_requirement_resolves() {
    let listing = vec![pre("1.0.0-beta.1"), pre("1.0.0-beta.2"), v(0, 9, 0)];
    assert_eq!(select_version(&listing, "=1.0.0-beta.2"), Ok(pre("1.0.0-beta.2")));
}

#[test]
fn pre_releases_ordered_by_label() {
    let listing = vec![pre("1.0.0-beta"), pre("1.0.0-alpha.2"), pre("1.0.0-alpha")];
    assert_eq!(select_version(&listing, ">=1.0.0-alpha"), Ok(pre("1.0.0-beta")));
    let listing = vec![pre("1.0.0-rc.1"), v(1, 0, 0)];
    assert_eq!(select_version(&listing, ">=1.0.0-rc.1"), Ok(v(1, 0, 0)));
}

#[test]
fn pre_release_publishes_under_full_version() {
    let q = registry_request("demo", "=2.0.0-rc.1");
    let p = resolve(&q, &vec![pre("2.0.0-rc.1")]).unwrap();
    assert_eq!(publish_dir("docs", &p), "docs/demo/2.0.0-rc.1");
}

#[test]
fn well_formedness_check() {
    assert!(registry_request("demo", "^1").is_well_formed());
    let mut q = registry_request("demo", "^1");
    q.source = PackageSource::CratesIo("@1".to_string());
    assert!(!q.is_well_formed());
    q.source = PackageSource::Url("x".to_string());
    assert!(q.is_well_formed());
    q.name = String::new();
    assert!(!q.is_well_formed());
}
