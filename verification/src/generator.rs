//! Hand-off to the code generator: a descriptor set and the names of the
//! root files go in, an ordered list of named artifacts comes out.

use vstd::prelude::*;
use vstd::string::*;

use crate::descriptor::combined_file_set;
use crate::descriptor::descriptor_names;
use crate::descriptor::FileDescriptor;
use crate::engine::dependency_closed;
use crate::engine::deps_available;
use crate::engine::fdp_clone;
use crate::engine::fdp_dependencies;
use crate::engine::gen_artifacts;
use crate::engine::generated_output;
use crate::engine::recorded_dependencies;
use crate::engine::recorded_file_name;
use crate::engine::root_available;
use crate::source_tree::string_views;

verus! {

/// One named unit of generated output: the artifact's intended path
/// relative to the output directory, and its content.
pub struct GeneratedArtifact {
    pub name: String,
    pub content: Vec<u8>,
}

/// Why generation was rejected.
#[derive(Clone, Copy, Debug, PartialEq, Eq, Structural)]
pub enum GenerationError {
    /// A requested root name is not among the supplied descriptors.
    RootNotInSet,
    /// A supplied descriptor depends on a file that is not among the
    /// supplied descriptors.
    DependencyNotInSet,
}

/// Index of the first string in `v` whose characters equal `s`'s.
pub fn index_of_string(v: &Vec<String>, s: &String) -> (r: Option<usize>)
    ensures
        match r {
            Some(i) => i < v@.len() && v@[i as int]@ == s@ && forall|j: int|
                0 <= j < i ==> v@[j]@ != s@,
            None => forall|j: int| 0 <= j < v@.len() ==> v@[j]@ != s@,
        },
{
    let mut i: usize = 0;
    while i < v.len()
        invariant
            i <= v@.len(),
            forall|j: int| 0 <= j < i ==> v@[j]@ != s@,
        decreases v@.len() - i,
    {
        if v[i].eq(s) {
            return Some(i);
        }
        i = i + 1;
    }
    None
}

/// Feeds the supplied descriptors to the code generator and returns its
/// artifacts, one per requested root name, in the order the names were
/// given. `names` designates which of the descriptors' files want
/// top-level artifacts; the rest take part only in type resolution.
///
/// Generation succeeds exactly when the combined descriptor set is
/// dependency-closed and every requested name is the recorded file name
/// of some supplied descriptor; a missing dependency or root name rejects
/// the whole request and nothing is produced. On success the artifacts
/// are the generator's output for the combined descriptor set and the
/// requested names — a function of those arguments alone, so identical
/// inputs yield identical artifact sequences.
pub fn generate(descriptors: &Vec<FileDescriptor>, names: &Vec<String>) -> (r: Result<
    Vec<GeneratedArtifact>,
    GenerationError,
>)
    ensures
        r matches Ok(artifacts) ==> {
            &&& artifacts@.len() == names@.len()
            &&& artifacts@.map_values(|a: GeneratedArtifact| (a.name@, a.content@))
                == generated_output(combined_file_set(descriptors@), string_views(names@))
            &&& dependency_closed(combined_file_set(descriptors@))
            &&& forall|k: int|
                0 <= k < names@.len() ==> root_available(
                    combined_file_set(descriptors@),
                    (#[trigger] names@[k])@,
                )
        },
        r matches Err(e) ==> match e {
            GenerationError::RootNotInSet => exists|k: int|
                0 <= k < names@.len() && !root_available(
                    combined_file_set(descriptors@),
                    (#[trigger] names@[k])@,
                ),
            GenerationError::DependencyNotInSet => !dependency_closed(
                combined_file_set(descriptors@),
            ),
        },
{
    let mut protos: Vec<protobuf::descriptor::FileDescriptorProto> = Vec::new();
    let mut i: usize = 0;
    proof {
        assert(descriptors@.take(0) =~= Seq::<FileDescriptor>::empty());
        assert(protos@ =~= combined_file_set(descriptors@.take(0)));
    }
    while i < descriptors.len()
        invariant
            i <= descriptors@.len(),
            protos@ == combined_file_set(descriptors@.take(i as int)),
        decreases descriptors@.len() - i,
    {
        let set = &descriptors[i].file_set;
        let mut j: usize = 0;
        proof {
            assert(set@.take(0) =~= Seq::<
                protobuf::descriptor::FileDescriptorProto,
            >::empty());
            assert(protos@ =~= combined_file_set(descriptors@.take(i as int)) + set@.take(0));
        }
        while j < set.len()
            invariant
                j <= set@.len(),
                i < descriptors@.len(),
                set@ == descriptors@[i as int].file_set@,
                protos@ == combined_file_set(descriptors@.take(i as int)) + set@.take(j as int),
            decreases set@.len() - j,
        {
            protos.push(fdp_clone(&set[j]));
            proof {
                assert(set@.take(j + 1) =~= set@.take(j as int).push(set@[j as int]));
                assert(protos@ =~= combined_file_set(descriptors@.take(i as int)) + set@.take(
                    j + 1,
                ));
            }
            j = j + 1;
        }
        proof {
            assert(set@.take(set@.len() as int) =~= set@);
            assert(descriptors@.take(i + 1).drop_last() =~= descriptors@.take(i as int));
            assert(descriptors@.take(i + 1).last() == descriptors@[i as int]);
            assert(combined_file_set(descriptors@.take(i + 1)) == combined_file_set(
                descriptors@.take(i as int),
            ) + descriptors@[i as int].file_set@);
        }
        i = i + 1;
    }
    proof {
        assert(descriptors@.take(descriptors@.len() as int) =~= descriptors@);
    }
    let set_names = descriptor_names(&protos);
    let mut di: usize = 0;
    while di < protos.len()
        invariant
            di <= protos@.len(),
            protos@ == combined_file_set(descriptors@),
            set_names@.len() == protos@.len(),
            forall|t: int|
                0 <= t < set_names@.len() ==> (#[trigger] set_names@[t])@ == recorded_file_name(
                    protos@[t],
                ),
            forall|t: int|
                0 <= t < di ==> deps_available(
                    protos@,
                    recorded_dependencies(#[trigger] protos@[t]),
                ),
        decreases protos@.len() - di,
    {
        let deps = fdp_dependencies(&protos[di]);
        let mut dk: usize = 0;
        while dk < deps.len()
            invariant
                dk <= deps@.len(),
                di < protos@.len(),
                protos@ == combined_file_set(descriptors@),
                string_views(deps@) == recorded_dependencies(protos@[di as int]),
                set_names@.len() == protos@.len(),
                forall|t: int|
                    0 <= t < set_names@.len() ==> (#[trigger] set_names@[t])@
                        == recorded_file_name(protos@[t]),
                forall|u: int|
                    0 <= u < dk ==> root_available(
                        protos@,
                        #[trigger] recorded_dependencies(protos@[di as int])[u],
                    ),
            decreases deps@.len() - dk,
        {
            proof {
                assert(recorded_dependencies(protos@[di as int])[dk as int] == deps@[dk as int]@);
            }
            match index_of_string(&set_names, &deps[dk]) {
                Some(idx) => {
                    proof {
                        assert(recorded_file_name(protos@[idx as int]) == deps@[dk as int]@);
                        assert(root_available(protos@, deps@[dk as int]@));
                    }
                },
                None => {
                    proof {
                        if root_available(protos@, deps@[dk as int]@) {
                            let j = choose|j: int|
                                0 <= j < protos@.len() && deps@[dk as int]@ == recorded_file_name(
                                    #[trigger] protos@[j],
                                );
                            assert(set_names@[j]@ == deps@[dk as int]@);
                            assert(false);
                        }
                        assert(!deps_available(
                            protos@,
                            recorded_dependencies(protos@[di as int]),
                        ));
                        assert(!dependency_closed(protos@));
                    }
                    return Err(GenerationError::DependencyNotInSet);
                },
            }
            dk = dk + 1;
        }
        proof {
            assert(deps_available(protos@, recorded_dependencies(protos@[di as int])));
        }
        di = di + 1;
    }
    proof {
        assert(dependency_closed(protos@));
    }
    let mut roots: Vec<String> = Vec::new();
    let mut k: usize = 0;
    while k < names.len()
        invariant
            k <= names@.len(),
            roots@.len() == k,
            protos@ == combined_file_set(descriptors@),
            dependency_closed(protos@),
            set_names@.len() == protos@.len(),
            forall|t: int|
                0 <= t < set_names@.len() ==> (#[trigger] set_names@[t])@ == recorded_file_name(
                    protos@[t],
                ),
            forall|t: int| 0 <= t < k ==> (#[trigger] roots@[t])@ == names@[t]@,
            forall|t: int| 0 <= t < k ==> root_available(protos@, (#[trigger] names@[t])@),
        decreases names@.len() - k,
    {
        match index_of_string(&set_names, &names[k]) {
            Some(idx) => {
                proof {
                    assert(recorded_file_name(protos@[idx as int]) == names@[k as int]@);
                    assert(root_available(protos@, names@[k as int]@));
                }
                roots.push(set_names[idx].clone());
            },
            None => {
                proof {
                    if root_available(protos@, names@[k as int]@) {
                        let j = choose|j: int|
                            0 <= j < protos@.len() && names@[k as int]@ == recorded_file_name(
                                #[trigger] protos@[j],
                            );
                        assert(set_names@[j]@ == names@[k as int]@);
                        assert(false);
                    }
                }
                return Err(GenerationError::RootNotInSet);
            },
        }
        k = k + 1;
    }
    proof {
        assert(string_views(roots@) =~= string_views(names@));
        assert forall|t: int| 0 <= t < roots@.len() implies root_available(
            protos@,
            (#[trigger] roots@[t])@,
        ) by {
            assert(roots@[t]@ == names@[t]@);
            assert(root_available(protos@, names@[t]@));
        }
    }
    let artifacts = gen_artifacts(&protos, &roots);
    Ok(artifacts)
}

} // verus!
