use protobuf_build::diagnostics::u64_to_string;
use protobuf_build::diagnostics::ConsoleErrorCollector;
use protobuf_build::diagnostics::Diagnostic;
use protobuf_build::source_tree::join_path;
use protobuf_build::source_tree::str_has_prefix;
use protobuf_build::DiskSourceTree;

#[test]
fn join_path_rules() {
    assert_eq!(join_path("", "x.proto"), "x.proto");
    assert_eq!(join_path("dir", ""), "dir");
    assert_eq!(join_path("dir", "x.proto"), "dir/x.proto");
}

#[test]
fn prefix_check() {
    assert!(str_has_prefix("", "anything"));
    assert!(str_has_prefix("pkg/", "pkg/x.proto"));
    assert!(!str_has_prefix("pkg/", "pk"));
    assert!(!str_has_prefix("pkg/", "other/x.proto"));
}

#[test]
fn resolution_order_pure_first_registered_wins() {
    let mut tree = DiskSourceTree::new();
    tree.map_path("pkg/", "B");
    tree.map_path("", "A");
    let present = vec![String::from("B/x.proto"), String::from("A/pkg/x.proto")];
    // Registering ("pkg/", B) before ("", A) makes B win for "pkg/x.proto".
    assert_eq!(tree.resolve_in("pkg/x.proto", &present), Some(String::from("B/x.proto")));

    let mut reversed = DiskSourceTree::new();
    reversed.map_path("", "A");
    reversed.map_path("pkg/", "B");
    assert_eq!(reversed.resolve_in("pkg/x.proto", &present), Some(String::from("A/pkg/x.proto")));
}

#[test]
fn resolution_pure_skips_absent_candidates() {
    let mut tree = DiskSourceTree::new();
    tree.map_path("pkg/", "B");
    tree.map_path("", "A");
    let only_a = vec![String::from("A/pkg/x.proto")];
    assert_eq!(tree.resolve_in("pkg/x.proto", &only_a), Some(String::from("A/pkg/x.proto")));
    let none: Vec<String> = Vec::new();
    assert_eq!(tree.resolve_in("pkg/x.proto", &none), None);
}

#[test]
fn resolution_order_on_disk() {
    let dir_a = tempfile::TempDir::new().unwrap();
    let dir_b = tempfile::TempDir::new().unwrap();
    let a = dir_a.path().to_str().unwrap().to_owned();
    let b = dir_b.path().to_str().unwrap().to_owned();
    fs_err::create_dir_all(format!("{}/pkg", a)).unwrap();
    fs_err::write(format!("{}/pkg/x.proto", a), b"syntax = \"proto3\";\n").unwrap();
    fs_err::write(format!("{}/x.proto", b), b"syntax = \"proto3\";\n").unwrap();

    let mut tree = DiskSourceTree::new();
    tree.map_path("pkg/", &b);
    tree.map_path("", &a);
    assert_eq!(tree.resolve("pkg/x.proto"), Some(format!("{}/x.proto", b)));

    let mut reversed = DiskSourceTree::new();
    reversed.map_path("", &a);
    reversed.map_path("pkg/", &b);
    assert_eq!(reversed.resolve("pkg/x.proto"), Some(format!("{}/pkg/x.proto", a)));
}

#[test]
fn resolution_without_matching_prefix_fails() {
    let dir = tempfile::TempDir::new().unwrap();
    let root = dir.path().to_str().unwrap().to_owned();
    let mut tree = DiskSourceTree::new();
    tree.map_path("lib/", &root);
    assert_eq!(tree.resolve("other.proto"), None);
}

#[test]
fn decimal_rendering() {
    assert_eq!(u64_to_string(0), "0");
    assert_eq!(u64_to_string(7), "7");
    assert_eq!(u64_to_string(10), "10");
    assert_eq!(u64_to_string(409), "409");
    assert_eq!(u64_to_string(u64::MAX), "18446744073709551615");
}

#[test]
fn diagnostic_rendering() {
    let d = Diagnostic::new(String::from("f.proto"), 12, 34, String::from("boom"));
    assert_eq!(d.render(), "f.proto:12:34: boom");
}

#[test]
fn collector_keeps_order() {
    let mut c = ConsoleErrorCollector::new();
    assert_eq!(c.len(), 0);
    c.record(Diagnostic::new(String::from("a.proto"), 1, 2, String::from("first")));
    c.record(Diagnostic::new(String::from("b.proto"), 3, 4, String::from("second")));
    assert_eq!(c.len(), 2);
    assert_eq!(c.diagnostics[0].file, "a.proto");
    assert_eq!(c.diagnostics[0].message, "first");
    assert_eq!(c.diagnostics[1].file, "b.proto");
    assert_eq!(c.diagnostics[1].message, "second");
}
