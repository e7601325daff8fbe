//! The owned descriptor a successful import hands back.

use vstd::prelude::*;
use vstd::string::*;

use crate::engine::fdp_name;
use crate::engine::file_sets_equal;
use crate::engine::recorded_file_name;
use crate::source_tree::string_views;

verus! {

/// An owned, transitively resolved schema file descriptor.
///
/// `name` is the path the file was imported under, `package` its declared
/// package, and `dependencies` the names of the files it imports. The
/// pipeline itself inspects only those; `file_set` carries the full parsed
/// descriptors of the file and of everything reachable from it, as the
/// opaque payload the code generator consumes.
pub struct FileDescriptor {
    pub name: String,
    pub package: String,
    pub dependencies: Vec<String>,
    pub file_set: Vec<protobuf::descriptor::FileDescriptorProto>,
}

/// All the parsed descriptors a list of file descriptors supplies, in
/// order: each descriptor's file set, one after the other.
pub open spec fn combined_file_set(descs: Seq<FileDescriptor>) -> Seq<
    protobuf::descriptor::FileDescriptorProto,
>
    decreases descs.len(),
{
    if descs.len() == 0 {
        Seq::empty()
    } else {
        combined_file_set(descs.drop_last()) + descs.last().file_set@
    }
}

/// The file names of a list of parsed descriptors, in order.
pub fn descriptor_names(protos: &Vec<protobuf::descriptor::FileDescriptorProto>) -> (r: Vec<
    String,
>)
    ensures
        r@.len() == protos@.len(),
        forall|i: int| 0 <= i < r@.len() ==> (#[trigger] r@[i])@ == recorded_file_name(protos@[i]),
{
    let mut r: Vec<String> = Vec::new();
    let mut i: usize = 0;
    while i < protos.len()
        invariant
            i <= protos@.len(),
            r@.len() == i,
            forall|j: int| 0 <= j < i ==> (#[trigger] r@[j])@ == recorded_file_name(protos@[j]),
        decreases protos@.len() - i,
    {
        r.push(fdp_name(&protos[i]));
        i = i + 1;
    }
    r
}

/// Whether two string lists hold the same characters in the same order.
pub fn strings_equal(a: &Vec<String>, b: &Vec<String>) -> (r: bool)
    ensures
        r == (string_views(a@) == string_views(b@)),
{
    if a.len() != b.len() {
        proof {
            assert(string_views(a@).len() != string_views(b@).len());
        }
        return false;
    }
    let mut i: usize = 0;
    while i < a.len()
        invariant
            i <= a@.len(),
            a@.len() == b@.len(),
            forall|j: int| 0 <= j < i ==> a@[j]@ == b@[j]@,
        decreases a@.len() - i,
    {
        if !a[i].eq(&b[i]) {
            proof {
                assert(string_views(a@)[i as int] != string_views(b@)[i as int]);
            }
            return false;
        }
        i = i + 1;
    }
    proof {
        assert(string_views(a@) =~= string_views(b@));
    }
    true
}

impl FileDescriptor {
    /// Whether the two descriptors agree structurally: same name, package
    /// and dependency list, and parsed payloads that compare equal.
    pub fn same_contents(&self, other: &FileDescriptor) -> (r: bool)
        ensures
            r == (self.name@ == other.name@ && self.package@ == other.package@ && string_views(
                self.dependencies@,
            ) == string_views(other.dependencies@) && self.file_set@ == other.file_set@),
    {
        if !self.name.eq(&other.name) {
            return false;
        }
        if !self.package.eq(&other.package) {
            return false;
        }
        if !strings_equal(&self.dependencies, &other.dependencies) {
            return false;
        }
        file_sets_equal(&self.file_set, &other.file_set)
    }
}

} // verus!
