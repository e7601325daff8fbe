//! The trusted call surface of the pipeline: the schema-parsing engine, the
//! parsed-descriptor accessors, the code generator, and the filesystem
//! probes and writes. Each item wraps one function of an outside crate; its
//! contract is all the verified logic builds on.

use vstd::prelude::*;

use crate::generator::GeneratedArtifact;
use crate::source_tree::string_views;

verus! {

#[verifier::external_type_specification]
#[verifier::external_body]
pub struct ExFileDescriptorProto(protobuf::descriptor::FileDescriptorProto);

/// The file name recorded inside a parsed descriptor, a function of the
/// descriptor value alone.
pub uninterp spec fn recorded_file_name(proto: protobuf::descriptor::FileDescriptorProto) -> Seq<
    char,
>;

/// The package recorded inside a parsed descriptor.
pub uninterp spec fn recorded_package(proto: protobuf::descriptor::FileDescriptorProto) -> Seq<
    char,
>;

/// The dependency names recorded inside a parsed descriptor, in
/// declaration order.
pub uninterp spec fn recorded_dependencies(
    proto: protobuf::descriptor::FileDescriptorProto,
) -> Seq<Seq<char>>;

/// What the code generator emits for a descriptor set and a root-name
/// list: the (name, content) projection of its artifact sequence. The
/// generator is a pure function of these arguments, so naming its result
/// makes reproducibility a consequence.
pub uninterp spec fn generated_output(
    protos: Seq<protobuf::descriptor::FileDescriptorProto>,
    roots: Seq<Seq<char>>,
) -> Seq<(Seq<char>, Seq<u8>)>;

/// Whether some descriptor in the set carries `name` as its recorded file
/// name.
pub open spec fn root_available(
    protos: Seq<protobuf::descriptor::FileDescriptorProto>,
    name: Seq<char>,
) -> bool {
    exists|j: int| 0 <= j < protos.len() && name == recorded_file_name(#[trigger] protos[j])
}

/// Whether every dependency name in `deps` is recorded by some descriptor
/// in `protos`.
pub open spec fn deps_available(
    protos: Seq<protobuf::descriptor::FileDescriptorProto>,
    deps: Seq<Seq<char>>,
) -> bool {
    forall|k: int| 0 <= k < deps.len() ==> root_available(protos, #[trigger] deps[k])
}

/// Whether a descriptor set is dependency-closed: every dependency name of
/// every descriptor in the set is the recorded file name of some
/// descriptor in the set.
pub open spec fn dependency_closed(
    protos: Seq<protobuf::descriptor::FileDescriptorProto>,
) -> bool {
    forall|i: int|
        0 <= i < protos.len() ==> deps_available(
            protos,
            recorded_dependencies(#[trigger] protos[i]),
        )
}

/// Whether a physical path can be stat'ed right now. The outcome depends on
/// the state of the disk, so nothing is promised of it.
///
/// Relies on fs_err::metadata: `Ok` exactly when the path exists and is
/// accessible.
#[verifier::external_body]
pub(crate) fn path_exists(path: &String) -> bool {
    fs_err::metadata(path.as_str()).is_ok()
}

/// Runs the schema-parsing engine on one physical file. The engine locates
/// the file under the given search directories, parses it, recursively
/// resolves and parses every imported file through the same directories
/// (parsing each file at most once per invocation), and returns the parsed
/// descriptors of everything it walked together with the engine's own
/// relative name for the requested file, which is also the name recorded
/// in that file's descriptor. On failure it reports why.
///
/// Relies on protobuf_codegen_pure::parse_and_typecheck: with a single
/// input it returns exactly one relative path; the descriptor built for
/// the input carries that path as its recorded name; and every file a
/// returned descriptor depends on was itself parsed and returned under
/// that dependency name, so the returned set is dependency-closed. The
/// engine strips the first matching search directory off the input to
/// name it, and aborts rather than failing if that leaves an absolute
/// name, which can only happen for an absolute input against an empty or
/// `.` directory; the `requires` excludes exactly that. Two further
/// limits of this engine: a schema graph whose imports form a cycle
/// drives its recursive walk into unbounded recursion, and a schema
/// referencing an undefined message or enum type aborts during
/// typechecking — both end the process instead of returning the parse
/// error the native toolchain would report.
#[verifier::external_body]
pub(crate) fn parse_with_engine(search_dirs: &Vec<String>, input: &String) -> (r: Result<
    (Vec<String>, Vec<protobuf::descriptor::FileDescriptorProto>),
    String,
>)
    requires
        input@.len() > 0 && input@[0] == '/' ==> forall|i: int|
            0 <= i < search_dirs@.len() ==> (#[trigger] search_dirs@[i])@.len() > 0
                && search_dirs@[i]@ != seq!['.'],
    ensures
        r matches Ok(p) ==> p.0@.len() == 1 && dependency_closed(p.1@) && exists|j: int|
            0 <= j < p.1@.len() && recorded_file_name(#[trigger] p.1@[j]) == p.0@[0]@,
{
    let dirs: Vec<&std::path::Path> =
        search_dirs.iter().map(|s| std::path::Path::new(s.as_str())).collect();
    let inputs = [std::path::Path::new(input.as_str())];
    match protobuf_codegen_pure::parse_and_typecheck(&dirs, &inputs) {
        Ok(parsed) => Ok((parsed.relative_paths, parsed.file_descriptors)),
        Err(e) => Err(format!("{}", e)),
    }
}

/// The file name recorded in a parsed descriptor.
///
/// Relies on FileDescriptorProto::get_name.
#[verifier::external_body]
pub(crate) fn fdp_name(proto: &protobuf::descriptor::FileDescriptorProto) -> (r: String)
    ensures
        r@ == recorded_file_name(*proto),
{
    proto.get_name().to_owned()
}

/// The package recorded in a parsed descriptor.
///
/// Relies on FileDescriptorProto::get_package.
#[verifier::external_body]
pub(crate) fn fdp_package(proto: &protobuf::descriptor::FileDescriptorProto) -> (r: String)
    ensures
        r@ == recorded_package(*proto),
{
    proto.get_package().to_owned()
}

/// The names of the files a parsed descriptor depends on, in declaration
/// order.
///
/// Relies on FileDescriptorProto::get_dependency.
#[verifier::external_body]
pub(crate) fn fdp_dependencies(proto: &protobuf::descriptor::FileDescriptorProto) -> (r: Vec<
    String,
>)
    ensures
        string_views(r@) == recorded_dependencies(*proto),
{
    proto.get_dependency().to_vec()
}

/// An owned copy of a parsed descriptor, equal in value to the original.
///
/// Relies on FileDescriptorProto::clone, which copies every field.
#[verifier::external_body]
pub(crate) fn fdp_clone(proto: &protobuf::descriptor::FileDescriptorProto) -> (r:
    protobuf::descriptor::FileDescriptorProto)
    ensures
        r == *proto,
{
    proto.clone()
}

/// Whether two lists of parsed descriptors compare equal, field by field:
/// exactly when they hold equal descriptor values in the same order.
///
/// Relies on FileDescriptorProto::eq, which compares every field.
#[verifier::external_body]
pub(crate) fn file_sets_equal(
    a: &Vec<protobuf::descriptor::FileDescriptorProto>,
    b: &Vec<protobuf::descriptor::FileDescriptorProto>,
) -> (r: bool)
    ensures
        r == (a@ == b@),
{
    a == b
}

/// Runs the code generator over a descriptor set. The set must be
/// dependency-closed and every requested root must be the recorded file
/// name of one of the descriptors — the generator resolves field types
/// through the whole set and aborts when a root or a declaring file is
/// absent, so the `requires` demands both — and one artifact comes back
/// per root, in root order, with nothing further under the default
/// options; the artifacts are a function of the arguments alone.
///
/// Relies on protobuf_codegen::gen.
#[verifier::external_body]
pub(crate) fn gen_artifacts(
    protos: &Vec<protobuf::descriptor::FileDescriptorProto>,
    roots: &Vec<String>,
) -> (r: Vec<GeneratedArtifact>)
    requires
        dependency_closed(protos@),
        forall|i: int| 0 <= i < roots@.len() ==> root_available(protos@, (#[trigger] roots@[i])@),
    ensures
        r@.len() == roots@.len(),
        r@.map_values(|a: GeneratedArtifact| (a.name@, a.content@)) == generated_output(
            protos@,
            string_views(roots@),
        ),
{
    let results = protobuf_codegen::gen(protos, roots, &protobuf_codegen::Customize::default());
    results.into_iter().map(|g| GeneratedArtifact { name: g.name, content: g.content }).collect()
}

/// Creates or truncates the file at `path` and writes `content` to it in
/// full. Whether that succeeds depends on the state of the disk, so
/// nothing is promised beyond the error report.
///
/// Relies on fs_err::write.
#[verifier::external_body]
pub(crate) fn write_file(path: &String, content: &Vec<u8>) -> Result<(), String> {
    match fs_err::write(path.as_str(), content) {
        Ok(()) => Ok(()),
        Err(e) => Err(format!("{}", e)),
    }
}

} // verus!
