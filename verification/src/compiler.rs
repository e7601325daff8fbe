//! Orchestrates one compilation unit end to end: import, generate, write.

use vstd::prelude::*;
use vstd::string::*;

use crate::descriptor::FileDescriptor;
use crate::diagnostics::ConsoleErrorCollector;
use crate::diagnostics::Diagnostic;
use crate::engine::write_file;
use crate::generator::generate;
use crate::generator::GeneratedArtifact;
use crate::importer::is_not_found_diag;
use crate::importer::ImportError;
use crate::importer::Importer;
use crate::source_tree::is_prefix;
use crate::source_tree::join_path;
use crate::source_tree::DiskSourceTree;

verus! {

/// Why a compilation failed.
#[derive(Clone, Copy, Debug, PartialEq, Eq, Structural)]
pub enum CompileError {
    /// The requested file could not be imported.
    Import(ImportError),
    /// The code generator rejected the descriptor set.
    GenerationFailed,
    /// An artifact could not be persisted.
    WriteFailed,
}

/// Writes each artifact under `output_dir`, creating or overwriting the
/// file named by the artifact, in order. The first failure aborts the
/// remaining writes and is reported as `WriteFailed`; artifacts already
/// written stay on disk, there is no rollback.
pub fn write_artifacts(output_dir: &str, artifacts: &Vec<GeneratedArtifact>) -> (r: Result<
    (),
    CompileError,
>)
    ensures
        r matches Err(e) ==> e == CompileError::WriteFailed && artifacts@.len() > 0,
        artifacts@.len() == 0 ==> r is Ok,
{
    let mut i: usize = 0;
    while i < artifacts.len()
        invariant
            i <= artifacts@.len(),
        decreases artifacts@.len() - i,
    {
        let target = join_path(output_dir, artifacts[i].name.as_str());
        match write_file(&target, &artifacts[i].content) {
            Ok(()) => {},
            Err(_) => {
                return Err(CompileError::WriteFailed);
            },
        }
        i = i + 1;
    }
    Ok(())
}

/// Owns one importer and one output location and compiles one schema file
/// at a time into generated source artifacts on disk.
pub struct Compiler {
    pub importer: Importer,
    pub output_path: String,
}

impl Compiler {
    /// A compiler whose importer resolves every virtual path under
    /// `input_path` (the catch-all empty prefix), with a fresh, empty
    /// error collector, writing its artifacts under `output_path`.
    pub fn new(input_path: &str, output_path: &str) -> (c: Compiler)
        ensures
            c.importer.source_tree@.len() == 1,
            c.importer.source_tree@[0].virtual_prefix@ == Seq::<char>::empty(),
            c.importer.source_tree@[0].disk_path@ == input_path@,
            c.importer.error_collector@ == Seq::<Diagnostic>::empty(),
            c.output_path@ == output_path@,
    {
        let mut source_tree = DiskSourceTree::new();
        source_tree.map_path("", input_path);
        proof {
            reveal_strlit("");
            assert(""@ =~= Seq::<char>::empty());
        }
        let error_collector = ConsoleErrorCollector::new();
        let importer = Importer::new(source_tree, error_collector);
        Compiler { importer, output_path: String::from_str(output_path) }
    }

    /// Compiles one virtual path: imports it transitively, generates the
    /// artifacts for it, and persists each artifact under the output
    /// directory.
    ///
    /// Import failures are returned as `Import` with the importer's
    /// diagnostic freshly recorded; after a successful import the
    /// collector is left alone, so generation and write failures change no
    /// state beyond what is already on disk. The source tree and the
    /// output location survive every outcome, and a failed compilation
    /// leaves the compiler usable for the next call.
    pub fn compile(&mut self, filename: &str) -> (r: Result<(), CompileError>)
        ensures
            final(self).output_path == old(self).output_path,
            final(self).importer.source_tree == old(self).importer.source_tree,
            r matches Ok(dummy) ==> final(self).importer.error_collector@ == old(
                self,
            ).importer.error_collector@,
            r matches Err(e) ==> match e {
                CompileError::Import(ie) => {
                    &&& final(self).importer.error_collector@.len() == old(
                        self,
                    ).importer.error_collector@.len() + 1
                    &&& final(self).importer.error_collector@.take(
                        old(self).importer.error_collector@.len() as int,
                    ) == old(self).importer.error_collector@
                    &&& final(self).importer.error_collector@.last().file@ == filename@
                    &&& (ie == ImportError::NotFound ==> is_not_found_diag(
                        final(self).importer.error_collector@.last(),
                        filename@,
                    ))
                },
                CompileError::GenerationFailed => final(self).importer.error_collector@ == old(
                    self,
                ).importer.error_collector@,
                CompileError::WriteFailed => final(self).importer.error_collector@ == old(
                    self,
                ).importer.error_collector@,
            },
            (forall|i: int|
                0 <= i < old(self).importer.source_tree@.len() ==> !is_prefix(
                    #[trigger] old(self).importer.source_tree@[i].virtual_prefix@,
                    filename@,
                )) ==> r == Err::<(), CompileError>(CompileError::Import(ImportError::NotFound)),
    {
        let desc = match self.importer.import(filename) {
            Err(e) => {
                return Err(CompileError::Import(e));
            },
            Ok(d) => d,
        };
        let mut names: Vec<String> = Vec::new();
        names.push(desc.name.clone());
        let mut descriptors: Vec<FileDescriptor> = Vec::new();
        descriptors.push(desc);
        let artifacts = match generate(&descriptors, &names) {
            Err(_) => {
                return Err(CompileError::GenerationFailed);
            },
            Ok(a) => a,
        };
        write_artifacts(self.output_path.as_str(), &artifacts)
    }
}

} // verus!
