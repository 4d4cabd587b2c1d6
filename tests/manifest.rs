use pathify::manifest::{comment_for, rewrite, trim_blanks, RewriteError};
use pathify::run::parse_manifest;

const MANIFEST: &str = "# demo manifest\n[package]\nname = \"demo\"\n\n[dependencies]\nserde = \"1\"\nfoo = \"1.2.3\"\nlog = { version = \"0.4\" } # logging\n";

#[test]
fn comment_wraps_old_text() {
    assert_eq!(comment_for("\"1.2.3\""), "#\"1.2.3\"\n");
    assert_eq!(comment_for(""), "#\n");
}

#[test]
fn trim_drops_blanks_at_both_ends() {
    assert_eq!(trim_blanks(" \t\"1.2.3\" "), "\"1.2.3\"");
    assert_eq!(trim_blanks("a b"), "a b");
    assert_eq!(trim_blanks("   "), "");
    assert_eq!(trim_blanks(""), "");
}

#[test]
fn rewrite_missing_dependency_changes_nothing() {
    let mut doc = parse_manifest(MANIFEST).unwrap();
    assert_eq!(rewrite(&mut doc, "absent", "/p"), Err(RewriteError::DependencyNotFound));
    assert_eq!(doc.to_string(), MANIFEST);
}

#[test]
fn rewritten_entry_reparses_as_path_table() {
    let mut doc = parse_manifest(MANIFEST).unwrap();
    assert_eq!(rewrite(&mut doc, "foo", "/work/pathified/foo"), Ok(()));
    let text = doc.to_string();
    let again: toml_edit::DocumentMut = text.parse().unwrap();
    let table = again["dependencies"]["foo"].as_inline_table().unwrap();
    assert_eq!(table.len(), 1);
    assert_eq!(table.get("path").and_then(|v| v.as_str()), Some("/work/pathified/foo"));
    assert!(text.contains("\n#\"1.2.3\"\nfoo = { path = \"/work/pathified/foo\" }\n"));
}

#[test]
fn rewrite_changes_only_the_target_lines() {
    let mut doc = parse_manifest(MANIFEST).unwrap();
    assert_eq!(rewrite(&mut doc, "foo", "/p"), Ok(()));
    let text = doc.to_string();
    let before: Vec<&str> = MANIFEST.lines().collect();
    let after: Vec<&str> = text.lines().collect();
    assert_eq!(after.len(), before.len() + 1);
    assert_eq!(&after[..6], &before[..6]);
    assert_eq!(after[6], "#\"1.2.3\"");
    assert_eq!(after[7], "foo = { path = \"/p\" }");
    assert_eq!(&after[8..], &before[7..]);
}

#[test]
fn rewrite_keeps_a_trailing_comment_of_another_entry() {
    let mut doc = parse_manifest(MANIFEST).unwrap();
    assert_eq!(rewrite(&mut doc, "serde", "/s"), Ok(()));
    let text = doc.to_string();
    assert!(text.contains("#\"1\"\nserde = { path = \"/s\" }\nfoo = \"1.2.3\"\nlog = { version = \"0.4\" } # logging\n"));
}

#[test]
fn comment_marks_every_line() {
    assert_eq!(comment_for("version = \"2.0\"\nfeatures = [\"a\"]"), "#version = \"2.0\"\n#features = [\"a\"]\n");
    assert_eq!(trim_blanks("x = 1\r\n"), "x = 1");
}

#[test]
fn comment_above_target_is_kept() {
    let text = "[dependencies]\n# pinned for now\nfoo = \"1.2.3\"\nserde = \"1\"\n";
    let mut doc = parse_manifest(text).unwrap();
    assert_eq!(rewrite(&mut doc, "foo", "/p"), Ok(()));
    assert_eq!(
        doc.to_string(),
        "[dependencies]\n# pinned for now\n#\"1.2.3\"\nfoo = { path = \"/p\" }\nserde = \"1\"\n"
    );
}

#[test]
fn block_entry_is_commented_line_by_line() {
    let text = "[dependencies]\nserde = \"1\"\n\n[dependencies.foo]\nversion = \"2.0\"\nfeatures = [\"a\"]\n";
    let mut doc = parse_manifest(text).unwrap();
    assert_eq!(rewrite(&mut doc, "foo", "/p"), Ok(()));
    let out = doc.to_string();
    assert!(out.contains("#version = \"2.0\"\n#features = [\"a\"]\n"));
    let again: toml_edit::DocumentMut = out.parse().unwrap();
    let deps = again["dependencies"].as_table().unwrap();
    let keys: Vec<&str> = deps.iter().map(|(k, _)| k).collect();
    assert_eq!(keys, vec!["serde", "foo"]);
    let foo = deps["foo"].as_inline_table().unwrap();
    assert_eq!(foo.len(), 1);
    assert_eq!(foo.get("path").and_then(|v| v.as_str()), Some("/p"));
}
