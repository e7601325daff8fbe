use protobuf_build::compiler::write_artifacts;
use protobuf_build::compiler::CompileError;
use protobuf_build::generator::generate;
use protobuf_build::generator::GenerationError;
use protobuf_build::importer::ImportError;
use protobuf_build::Compiler;
use protobuf_build::ConsoleErrorCollector;
use protobuf_build::DiskSourceTree;
use protobuf_build::GeneratedArtifact;
use protobuf_build::Importer;

fn importer_over(root: &str) -> Importer {
    let mut tree = DiskSourceTree::new();
    tree.map_path("", root);
    Importer::new(tree, ConsoleErrorCollector::new())
}

fn write_two_schemas(root: &str) {
    fs_err::write(
        format!("{}/b.proto", root),
        b"syntax = \"proto3\";\n\nmessage B {\n    int32 value = 1;\n}\n" as &[u8],
    )
    .unwrap();
    fs_err::write(
        format!("{}/a.proto", root),
        b"syntax = \"proto3\";\n\nimport \"b.proto\";\n\nmessage M {\n    B inner = 1;\n    string tag = 2;\n}\n"
            as &[u8],
    )
    .unwrap();
}

#[test]
fn transitive_import_reaches_dependencies() {
    let dir = tempfile::TempDir::new().unwrap();
    let root = dir.path().to_str().unwrap().to_owned();
    write_two_schemas(&root);
    let mut importer = importer_over(&root);
    let d = importer.import("a.proto").unwrap();
    assert_eq!(d.name, "a.proto");
    assert!(d.dependencies.iter().any(|dep| dep == "b.proto"));
    assert_eq!(d.file_set.len(), 2);
    assert_eq!(importer.error_collector.len(), 0);
}

#[test]
fn package_is_read_from_the_schema() {
    let dir = tempfile::TempDir::new().unwrap();
    let root = dir.path().to_str().unwrap().to_owned();
    fs_err::write(
        format!("{}/p.proto", root),
        b"syntax = \"proto3\";\n\npackage demo.pkg;\n\nmessage P {\n    int32 n = 1;\n}\n" as &[u8],
    )
    .unwrap();
    let mut importer = importer_over(&root);
    let d = importer.import("p.proto").unwrap();
    assert_eq!(d.package, "demo.pkg");
    let dir2 = tempfile::TempDir::new().unwrap();
    let root2 = dir2.path().to_str().unwrap().to_owned();
    fs_err::write(format!("{}/q.proto", root2), b"syntax = \"proto3\";\n" as &[u8]).unwrap();
    let mut importer2 = importer_over(&root2);
    let q = importer2.import("q.proto").unwrap();
    assert_eq!(q.package, "");
    assert_eq!(q.dependencies.len(), 0);
}

#[test]
fn missing_file_records_exactly_one_diagnostic() {
    let dir = tempfile::TempDir::new().unwrap();
    let root = dir.path().to_str().unwrap().to_owned();
    let mut importer = importer_over(&root);
    let r = importer.import("missing.proto");
    assert_eq!(r.err(), Some(ImportError::NotFound));
    assert_eq!(importer.error_collector.len(), 1);
    let d = &importer.error_collector.diagnostics[0];
    assert_eq!(d.file, "missing.proto");
    assert_eq!(d.line, 0);
    assert_eq!(d.column, 0);
    assert_eq!(d.message, "File not found.");
    assert_eq!(d.render(), "missing.proto:0:0: File not found.");
}

#[test]
fn parse_failure_records_the_engine_report() {
    let dir = tempfile::TempDir::new().unwrap();
    let root = dir.path().to_str().unwrap().to_owned();
    fs_err::write(format!("{}/bad.proto", root), b"this is not a schema {" as &[u8]).unwrap();
    let mut importer = importer_over(&root);
    let r = importer.import("bad.proto");
    assert_eq!(r.err(), Some(ImportError::ParseFailed));
    assert_eq!(importer.error_collector.len(), 1);
    let d = &importer.error_collector.diagnostics[0];
    assert_eq!(d.file, "bad.proto");
    assert!(!d.message.is_empty());
}

#[test]
fn absolute_input_with_rootless_tree_is_rejected() {
    let dir = tempfile::TempDir::new().unwrap();
    let root = dir.path().to_str().unwrap().to_owned();
    fs_err::write(format!("{}/f.proto", root), b"syntax = \"proto3\";\n" as &[u8]).unwrap();
    let abs = format!("{}/f.proto", root);
    // An empty disk path would leave the engine unable to name the
    // absolute input relative to a search directory; the importer reports
    // that instead of handing the input on.
    let mut tree = DiskSourceTree::new();
    tree.map_path("", "");
    let mut importer = Importer::new(tree, ConsoleErrorCollector::new());
    let r = importer.import(&abs);
    assert_eq!(r.err(), Some(ImportError::ParseFailed));
    assert_eq!(importer.error_collector.len(), 1);
    let d = &importer.error_collector.diagnostics[0];
    assert_eq!(d.file, abs);
    assert!(d.message.contains("cannot be named"));
}

#[test]
fn reimport_yields_equal_independent_descriptors() {
    let dir = tempfile::TempDir::new().unwrap();
    let root = dir.path().to_str().unwrap().to_owned();
    write_two_schemas(&root);
    let mut importer = importer_over(&root);
    let d1 = importer.import("a.proto").unwrap();
    let d2 = importer.import("a.proto").unwrap();
    assert_eq!(importer.error_collector.len(), 0);
    assert_eq!(d1.name, d2.name);
    assert_eq!(d1.package, d2.package);
    assert_eq!(d1.dependencies, d2.dependencies);
    assert!(d1.same_contents(&d2));
    // The two descriptors are separately owned: changing one leaves the
    // other as parsed.
    let mut d1 = d1;
    d1.name = String::from("renamed");
    assert_eq!(d2.name, "a.proto");
    assert!(!d1.same_contents(&d2));
}

#[test]
fn generator_is_deterministic() {
    let dir = tempfile::TempDir::new().unwrap();
    let root = dir.path().to_str().unwrap().to_owned();
    write_two_schemas(&root);
    let mut importer = importer_over(&root);
    let d1 = importer.import("a.proto").unwrap();
    let d2 = importer.import("a.proto").unwrap();
    let names = vec![String::from("a.proto")];
    let a1 = generate(&vec![d1], &names).unwrap();
    let a2 = generate(&vec![d2], &names).unwrap();
    assert_eq!(a1.len(), 1);
    assert_eq!(a1.len(), a2.len());
    for (x, y) in a1.iter().zip(a2.iter()) {
        assert_eq!(x.name, y.name);
        assert_eq!(x.content, y.content);
    }
}

#[test]
fn generation_rejects_an_unknown_root() {
    let dir = tempfile::TempDir::new().unwrap();
    let root = dir.path().to_str().unwrap().to_owned();
    write_two_schemas(&root);
    let mut importer = importer_over(&root);
    let d = importer.import("a.proto").unwrap();
    let r = generate(&vec![d], &vec![String::from("nope.proto")]);
    assert_eq!(r.err(), Some(GenerationError::RootNotInSet));
    let no_descriptors: Vec<protobuf_build::FileDescriptor> = Vec::new();
    let r2 = generate(&no_descriptors, &vec![String::from("a.proto")]);
    assert_eq!(r2.err(), Some(GenerationError::RootNotInSet));
}

#[test]
fn generation_rejects_an_incomplete_descriptor_set() {
    let dir = tempfile::TempDir::new().unwrap();
    let root = dir.path().to_str().unwrap().to_owned();
    write_two_schemas(&root);
    let mut importer = importer_over(&root);
    let mut d = importer.import("a.proto").unwrap();
    // Truncate the descriptor set to the root file alone: its recorded
    // dependency on b.proto is then unsatisfied and the set is rejected
    // before the generator sees it.
    d.file_set.retain(|p| p.get_name() == "a.proto");
    assert_eq!(d.file_set.len(), 1);
    let r = generate(&vec![d], &vec![String::from("a.proto")]);
    assert_eq!(r.err(), Some(GenerationError::DependencyNotInSet));
}

#[test]
fn end_to_end_compile_writes_a_deterministic_artifact() {
    let dir = tempfile::TempDir::new().unwrap();
    let out_dir = tempfile::TempDir::new().unwrap();
    let root = dir.path().to_str().unwrap().to_owned();
    let out = out_dir.path().to_str().unwrap().to_owned();
    write_two_schemas(&root);
    let mut compiler = Compiler::new(&root, &out);
    assert_eq!(compiler.compile("a.proto"), Ok(()));
    let first = fs_err::read(format!("{}/a.rs", out)).unwrap();
    let text = String::from_utf8(first.clone()).unwrap();
    assert!(text.contains("pub struct M"));
    assert!(text.contains("tag"));
    assert_eq!(compiler.compile("a.proto"), Ok(()));
    let second = fs_err::read(format!("{}/a.rs", out)).unwrap();
    assert_eq!(first, second);
}

#[test]
fn compile_surfaces_import_errors_and_recovers() {
    let dir = tempfile::TempDir::new().unwrap();
    let out_dir = tempfile::TempDir::new().unwrap();
    let root = dir.path().to_str().unwrap().to_owned();
    let out = out_dir.path().to_str().unwrap().to_owned();
    write_two_schemas(&root);
    let mut compiler = Compiler::new(&root, &out);
    let r = compiler.compile("missing.proto");
    assert_eq!(r, Err(CompileError::Import(ImportError::NotFound)));
    assert_eq!(compiler.importer.error_collector.len(), 1);
    // A failed compilation leaves the compiler usable.
    assert_eq!(compiler.compile("a.proto"), Ok(()));
    assert_eq!(compiler.importer.error_collector.len(), 1);
}

#[test]
fn partial_write_failure_keeps_earlier_artifacts() {
    let out_dir = tempfile::TempDir::new().unwrap();
    let out = out_dir.path().to_str().unwrap().to_owned();
    // The second artifact's target name is taken by a directory, so its
    // write must fail.
    fs_err::create_dir_all(format!("{}/blocked", out)).unwrap();
    let artifacts = vec![
        GeneratedArtifact { name: String::from("one.txt"), content: b"first".to_vec() },
        GeneratedArtifact { name: String::from("blocked"), content: b"second".to_vec() },
        GeneratedArtifact { name: String::from("three.txt"), content: b"third".to_vec() },
    ];
    let r = write_artifacts(&out, &artifacts);
    assert_eq!(r, Err(CompileError::WriteFailed));
    // No rollback: the first artifact stays on disk.
    assert_eq!(fs_err::read(format!("{}/one.txt", out)).unwrap(), b"first");
    // The failure aborts the remaining writes.
    assert!(fs_err::metadata(format!("{}/three.txt", out)).is_err());
}
