use pathify::entry::VersionError;
use pathify::run::{
    destination, parse_manifest, plan, registry_root, Action, Event, RunError, Session, Stage,
};

const MANIFEST_FOO: &str = "[package]\nname = \"demo\"\n\n[dependencies]\nfoo = \"1.2.3\"\n";
const MANIFEST_BAR: &str =
    "[package]\nname = \"demo\"\n\n[dependencies]\nbar = { version = \"0.9\", features = [\"x\"] }\n";

#[test]
fn parse_error_is_reported() {
    assert_eq!(parse_manifest("[dependencies\nfoo = ").err(), Some(RunError::ManifestParseError));
}

#[test]
fn scenario_cached_simple_entry() {
    let doc = parse_manifest(MANIFEST_FOO).unwrap();
    let p = plan(doc, "foo", None).ok().unwrap();
    assert_eq!(p.version, "1.2.3");
    assert!(p.needs_copy());
    let root = registry_root(Some("/cargo".to_string())).unwrap();
    assert_eq!(root, "/cargo/registry/src");
    let dirs = vec!["index.crates.io-ABC".to_string()];
    let source = p.cached_source(&root, &dirs, true).unwrap();
    assert_eq!(source, "/cargo/registry/src/index.crates.io-ABC/foo-1.2.3");
    let dest = destination("/abs", "foo");
    assert_eq!(dest, "/abs/pathified/foo");
    let text = p.finish(&dest).unwrap();
    assert_eq!(
        text,
        "[package]\nname = \"demo\"\n\n[dependencies]\n#\"1.2.3\"\nfoo = { path = \"/abs/pathified/foo\" }\n"
    );
}

#[test]
fn scenario_given_path_skips_cache() {
    let doc = parse_manifest(MANIFEST_BAR).unwrap();
    let p = plan(doc, "bar", Some("/tmp/barsrc".to_string())).ok().unwrap();
    assert_eq!(p.version, "0.9");
    assert!(!p.needs_copy());
    let text = p.finish("/tmp/barsrc").unwrap();
    assert_eq!(
        text,
        "[package]\nname = \"demo\"\n\n[dependencies]\n#{ version = \"0.9\", features = [\"x\"] }\nbar = { path = \"/tmp/barsrc\" }\n"
    );
}

#[test]
fn scenario_missing_dependency() {
    let doc = parse_manifest(MANIFEST_FOO).unwrap();
    assert_eq!(plan(doc, "baz", None).err(), Some(RunError::DependencyNotFound));
}

#[test]
fn missing_dependencies_table() {
    let doc = parse_manifest("[package]\nname = \"demo\"\n").unwrap();
    assert_eq!(plan(doc, "foo", None).err(), Some(RunError::DependencyNotFound));
}

#[test]
fn scenario_cache_home_unset() {
    assert_eq!(registry_root(None), Err(RunError::EnvironmentError));
}

#[test]
fn block_entry_version_is_read() {
    let text = "[dependencies.foo]\nversion = \"2.0\"\nfeatures = [\"a\"]\n";
    let doc = parse_manifest(text).unwrap();
    let p = plan(doc, "foo", None).ok().unwrap();
    assert_eq!(p.version, "2.0");
}

#[test]
fn path_only_entry_has_no_version() {
    let text = "[dependencies]\nfoo = { path = \"../foo\" }\n";
    let doc = parse_manifest(text).unwrap();
    assert_eq!(
        plan(doc, "foo", None).err(),
        Some(RunError::VersionUnresolvable(VersionError::MissingVersionField))
    );
}

#[test]
fn numeric_version_is_malformed() {
    let text = "[dependencies]\nfoo = { version = 3 }\nbar = 7\n";
    let doc = parse_manifest(text).unwrap();
    assert_eq!(
        plan(doc, "foo", None).err(),
        Some(RunError::VersionUnresolvable(VersionError::MalformedVersionField))
    );
    let doc = parse_manifest(text).unwrap();
    assert_eq!(
        plan(doc, "bar", None).err(),
        Some(RunError::VersionUnresolvable(VersionError::MalformedVersionField))
    );
}

#[test]
fn second_run_stops_at_missing_version() {
    let doc = parse_manifest(MANIFEST_FOO).unwrap();
    let p = plan(doc, "foo", None).ok().unwrap();
    let text = p.finish("/abs/pathified/foo").unwrap();
    let doc = parse_manifest(&text).unwrap();
    assert_eq!(
        plan(doc, "foo", None).err(),
        Some(RunError::VersionUnresolvable(VersionError::MissingVersionField))
    );
}

#[test]
fn cache_miss_is_reported() {
    let doc = parse_manifest(MANIFEST_FOO).unwrap();
    let p = plan(doc, "foo", None).ok().unwrap();
    let dirs = vec!["index.crates.io-ABC".to_string()];
    assert_eq!(p.cached_source("/c", &dirs, false), Err(RunError::CacheDirNotFound));
    let other = vec!["elsewhere".to_string()];
    assert_eq!(p.cached_source("/c", &other, true), Err(RunError::CacheDirNotFound));
}

#[test]
fn every_error_has_a_message() {
    let all = [
        RunError::EnvironmentError,
        RunError::ManifestParseError,
        RunError::DependencyNotFound,
        RunError::VersionUnresolvable(VersionError::MissingVersionField),
        RunError::VersionUnresolvable(VersionError::MalformedVersionField),
        RunError::CacheDirNotFound,
        RunError::CopyFailed,
        RunError::WriteFailed,
    ];
    let mut seen: Vec<String> = Vec::new();
    for e in all.iter() {
        let m = e.message();
        assert!(!m.is_empty());
        assert!(!seen.contains(&m));
        seen.push(m);
    }
}

#[test]
fn session_runs_through_the_cache() {
    let doc = parse_manifest(MANIFEST_FOO).unwrap();
    let (mut s, a) = Session::start(doc, "foo", None);
    assert_eq!(a, Action::ReadCacheHome);
    let a = s.step(Event::CacheHome(Some("/cargo".to_string())));
    assert_eq!(a, Action::ListRegistry("/cargo/registry/src".to_string()));
    let a = s.step(Event::Listing(Some(vec!["index.crates.io-ABC".to_string()])));
    let c = "/cargo/registry/src/index.crates.io-ABC/foo-1.2.3".to_string();
    assert_eq!(a, Action::CheckCandidate(c.clone()));
    assert_eq!(s.step(Event::CandidateExists(true)), Action::CopySources(c));
    let a = s.step(Event::Copied(Some("/abs/pathified/foo".to_string())));
    assert_eq!(
        a,
        Action::WriteManifest(
            "[package]\nname = \"demo\"\n\n[dependencies]\n#\"1.2.3\"\nfoo = { path = \"/abs/pathified/foo\" }\n"
                .to_string()
        )
    );
    assert_eq!(s.step(Event::Written(true)), Action::Done);
    assert_eq!(s.stage, Stage::Over);
}

#[test]
fn session_with_given_path_writes_at_once() {
    let doc = parse_manifest(MANIFEST_BAR).unwrap();
    let (mut s, a) = Session::start(doc, "bar", Some("/tmp/barsrc".to_string()));
    assert_eq!(
        a,
        Action::WriteManifest(
            "[package]\nname = \"demo\"\n\n[dependencies]\n#{ version = \"0.9\", features = [\"x\"] }\nbar = { path = \"/tmp/barsrc\" }\n"
                .to_string()
        )
    );
    assert_eq!(s.step(Event::Written(false)), Action::Fail(RunError::WriteFailed));
}

#[test]
fn session_fails_before_writing() {
    let doc = parse_manifest(MANIFEST_FOO).unwrap();
    let (_, a) = Session::start(doc, "baz", None);
    assert_eq!(a, Action::Fail(RunError::DependencyNotFound));
    let doc = parse_manifest(MANIFEST_FOO).unwrap();
    let (mut s, _) = Session::start(doc, "foo", None);
    assert_eq!(s.step(Event::CacheHome(None)), Action::Fail(RunError::EnvironmentError));
}

#[test]
fn session_reports_cache_and_copy_failures() {
    let doc = parse_manifest(MANIFEST_FOO).unwrap();
    let (mut s, _) = Session::start(doc, "foo", None);
    s.step(Event::CacheHome(Some("/c".to_string())));
    let a = s.step(Event::Listing(Some(vec!["other".to_string()])));
    assert_eq!(a, Action::Fail(RunError::CacheDirNotFound));
    let doc = parse_manifest(MANIFEST_FOO).unwrap();
    let (mut s, _) = Session::start(doc, "foo", None);
    s.step(Event::CacheHome(Some("/c".to_string())));
    s.step(Event::Listing(Some(vec!["index.crates.io-X".to_string()])));
    assert_eq!(s.step(Event::CandidateExists(false)), Action::Fail(RunError::CacheDirNotFound));
    let doc = parse_manifest(MANIFEST_FOO).unwrap();
    let (mut s, _) = Session::start(doc, "foo", None);
    s.step(Event::CacheHome(Some("/c".to_string())));
    s.step(Event::Listing(Some(vec!["index.crates.io-X".to_string()])));
    s.step(Event::CandidateExists(true));
    assert_eq!(s.step(Event::Copied(None)), Action::Fail(RunError::CopyFailed));
    assert_eq!(s.step(Event::Written(true)), Action::Fail(RunError::EnvironmentError));
}
