//! Resolves a virtual path to a complete, transitively resolved descriptor.
//!
//! The importer owns the source tree and the error collector for its whole
//! lifetime. One `import` call resolves the path, drives the schema-parsing
//! engine over the resolved file and everything it imports, and hands back
//! an owned descriptor; diagnostics raised on the way are recorded before
//! the call returns. Calls are independent: importing the same path twice
//! parses from scratch twice and returns two independently owned
//! descriptors.

use vstd::prelude::*;
use vstd::string::*;

use crate::descriptor::descriptor_names;
use crate::descriptor::FileDescriptor;
use crate::diagnostics::ConsoleErrorCollector;
use crate::diagnostics::Diagnostic;
use crate::engine::dependency_closed;
use crate::engine::fdp_dependencies;
use crate::engine::fdp_package;
use crate::engine::parse_with_engine;
use crate::engine::recorded_dependencies;
use crate::engine::recorded_package;
use crate::generator::index_of_string;
use crate::source_tree::is_prefix;
use crate::source_tree::string_views;
use crate::source_tree::DiskSourceTree;

verus! {

/// Why an import failed.
#[derive(Clone, Copy, Debug, PartialEq, Eq, Structural)]
pub enum ImportError {
    /// The virtual path has no resolvable physical file.
    NotFound,
    /// The engine reported a syntax or semantic error in a schema file.
    ParseFailed,
}

/// The diagnostic recorded when a virtual path resolves to no file.
pub open spec fn is_not_found_diag(d: Diagnostic, file: Seq<char>) -> bool {
    d.file@ == file && d.line == 0 && d.column == 0 && d.message@ == "File not found."@
}

/// Whether a string starts with a path separator.
fn starts_with_slash(s: &str) -> (r: bool)
    ensures
        r == (s@.len() > 0 && s@[0] == '/'),
{
    if s.is_empty() {
        false
    } else {
        s.get_char(0) == '/'
    }
}

/// Whether a search directory can name an absolute input relative to
/// itself: the engine strips the directory off the input, and an empty or
/// `.` directory would leave the input absolute.
fn dir_names_relative(d: &String) -> (r: bool)
    ensures
        r == (d@.len() > 0 && d@ != seq!['.']),
{
    if d.as_str().is_empty() {
        return false;
    }
    let len: usize = d.as_str().unicode_len();
    if len == 1 {
        let c = d.as_str().get_char(0);
        if c == '.' {
            proof {
                assert(d@ =~= seq!['.']);
            }
            return false;
        }
        proof {
            assert(d@[0] != seq!['.'][0]);
        }
        return true;
    }
    proof {
        assert(d@.len() != seq!['.'].len());
    }
    true
}

/// Whether the engine can be handed `input` under `dirs` without hitting
/// its relative-naming abort: an absolute input demands that every search
/// directory be non-empty and not `.`.
fn dirs_name_input(dirs: &Vec<String>, input: &String) -> (r: bool)
    ensures
        r == (input@.len() > 0 && input@[0] == '/' ==> forall|i: int|
            0 <= i < dirs@.len() ==> (#[trigger] dirs@[i])@.len() > 0 && dirs@[i]@ != seq!['.']),
{
    if !starts_with_slash(input.as_str()) {
        return true;
    }
    let mut i: usize = 0;
    while i < dirs.len()
        invariant
            i <= dirs@.len(),
            input@.len() > 0 && input@[0] == '/',
            forall|j: int|
                0 <= j < i ==> (#[trigger] dirs@[j])@.len() > 0 && dirs@[j]@ != seq!['.'],
        decreases dirs@.len() - i,
    {
        if !dir_names_relative(&dirs[i]) {
            proof {
                assert(dirs@[i as int]@.len() == 0 || dirs@[i as int]@ == seq!['.']);
            }
            return false;
        }
        i = i + 1;
    }
    true
}

/// Owns a source tree and an error collector and drives the
/// schema-parsing engine to turn virtual paths into owned descriptors.
pub struct Importer {
    pub source_tree: DiskSourceTree,
    pub error_collector: ConsoleErrorCollector,
}

impl Importer {
    /// Takes exclusive ownership of the source tree and the collector;
    /// both live exactly as long as the importer.
    pub fn new(source_tree: DiskSourceTree, error_collector: ConsoleErrorCollector) -> (im:
        Importer)
        ensures
            im.source_tree == source_tree,
            im.error_collector == error_collector,
    {
        Importer { source_tree, error_collector }
    }

    /// Resolves `filename` against the source tree and parses it, together
    /// with everything it transitively imports, into one owned descriptor,
    /// named by the requested virtual path.
    ///
    /// The source tree is never changed. On success nothing is recorded.
    /// Every failure records exactly one new diagnostic, after whatever was
    /// already collected, and it names the requested file: on `NotFound`
    /// the fixed file-not-found diagnostic, on `ParseFailed` the engine's
    /// report. A tree in which no registered prefix matches `filename` can
    /// only answer `NotFound`.
    ///
    /// Three limits of the substitute engine. Imports nested inside schema
    /// files are resolved against the registered physical directories
    /// alone, without prefix substitution, so on a tree with a non-empty
    /// prefix mapping a nested `import` may be sought in a different place
    /// than `resolve` would name; on the catch-all tree the compiler
    /// builds, the two agree. A schema graph whose imports form a cycle
    /// drives the engine's recursive walk into unbounded recursion. And a
    /// schema referencing an undefined message or enum type aborts during
    /// the engine's typechecking. The latter two end the process instead
    /// of returning the parse error the native toolchain would report.
    pub fn import(&mut self, filename: &str) -> (r: Result<FileDescriptor, ImportError>)
        ensures
            final(self).source_tree == old(self).source_tree,
            r matches Ok(d) ==> {
                &&& final(self).error_collector@ == old(self).error_collector@
                &&& d.name@ == filename@
                &&& d.file_set@.len() > 0
                &&& dependency_closed(d.file_set@)
                &&& exists|j: int|
                    0 <= j < d.file_set@.len() && d.package@ == recorded_package(
                        #[trigger] d.file_set@[j],
                    ) && string_views(d.dependencies@) == recorded_dependencies(d.file_set@[j])
            },
            r matches Err(e) ==> {
                &&& final(self).error_collector@.len() == old(self).error_collector@.len() + 1
                &&& final(self).error_collector@.take(old(self).error_collector@.len() as int)
                    == old(self).error_collector@
                &&& final(self).error_collector@.last().file@ == filename@
                &&& (e == ImportError::NotFound ==> is_not_found_diag(
                    final(self).error_collector@.last(),
                    filename@,
                ))
            },
            (forall|i: int|
                0 <= i < old(self).source_tree@.len() ==> !is_prefix(
                    #[trigger] old(self).source_tree@[i].virtual_prefix@,
                    filename@,
                )) ==> r == Err::<FileDescriptor, ImportError>(ImportError::NotFound),
    {
        let resolved = self.source_tree.resolve(filename);
        match resolved {
            None => {
                let d = Diagnostic::new(
                    String::from_str(filename),
                    0,
                    0,
                    String::from_str("File not found."),
                );
                self.error_collector.record(d);
                proof {
                    assert(self.error_collector@.take(
                        old(self).error_collector@.len() as int,
                    ) =~= old(self).error_collector@);
                }
                Err(ImportError::NotFound)
            },
            Some(physical) => {
                let search_dirs = self.source_tree.disk_paths();
                if !dirs_name_input(&search_dirs, &physical) {
                    let d = Diagnostic::new(
                        String::from_str(filename),
                        0,
                        0,
                        String::from_str(
                            "the resolved file cannot be named relative to the search directories",
                        ),
                    );
                    self.error_collector.record(d);
                    proof {
                        assert(self.error_collector@.take(
                            old(self).error_collector@.len() as int,
                        ) =~= old(self).error_collector@);
                    }
                    return Err(ImportError::ParseFailed);
                }
                match parse_with_engine(&search_dirs, &physical) {
                    Err(report) => {
                        let d = Diagnostic::new(String::from_str(filename), 0, 0, report);
                        self.error_collector.record(d);
                        proof {
                            assert(self.error_collector@.take(
                                old(self).error_collector@.len() as int,
                            ) =~= old(self).error_collector@);
                        }
                        Err(ImportError::ParseFailed)
                    },
                    Ok((relative_paths, protos)) => {
                        let root_name = &relative_paths[0];
                        let set_names = descriptor_names(&protos);
                        match index_of_string(&set_names, root_name) {
                            None => {
                                let d = Diagnostic::new(
                                    String::from_str(filename),
                                    0,
                                    0,
                                    String::from_str(
                                        "the engine returned no descriptor for the requested file",
                                    ),
                                );
                                self.error_collector.record(d);
                                proof {
                                    assert(self.error_collector@.take(
                                        old(self).error_collector@.len() as int,
                                    ) =~= old(self).error_collector@);
                                }
                                Err(ImportError::ParseFailed)
                            },
                            Some(idx) => {
                                let package = fdp_package(&protos[idx]);
                                let dependencies = fdp_dependencies(&protos[idx]);
                                let fd = FileDescriptor {
                                    name: String::from_str(filename),
                                    package,
                                    dependencies,
                                    file_set: protos,
                                };
                                proof {
                                    assert(0 <= idx < fd.file_set@.len() && fd.package@
                                        == recorded_package(fd.file_set@[idx as int])
                                        && string_views(fd.dependencies@)
                                        == recorded_dependencies(fd.file_set@[idx as int]));
                                }
                                Ok(fd)
                            },
                        }
                    },
                }
            },
        }
    }
}

} // verus!
