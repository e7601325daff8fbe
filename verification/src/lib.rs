//! Import-resolution and code-generation pipeline for an interface-description
//! language: virtual schema paths are mapped to physical files, parsed into
//! descriptors by a schema-parsing engine, and handed to a code generator whose
//! artifacts are persisted under an output directory.

pub mod compiler;
pub mod descriptor;
pub mod diagnostics;
pub mod engine;
pub mod generator;
pub mod importer;
pub mod source_tree;

pub use compiler::Compiler;
pub use descriptor::FileDescriptor;
pub use diagnostics::ConsoleErrorCollector;
pub use diagnostics::Diagnostic;
pub use generator::GeneratedArtifact;
pub use importer::Importer;
pub use source_tree::DiskSourceTree;
pub use source_tree::Mapping;
