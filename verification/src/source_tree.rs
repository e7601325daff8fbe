//! Maps virtual import identifiers to physical file locations.
//!
//! A source tree is an ordered list of (virtual-prefix, physical-directory)
//! registrations. Lookup tries the registrations in registration order and
//! takes the first one whose prefix matches and whose substituted physical
//! path names an existing file; an empty prefix acts as a catch-all root.

use vstd::prelude::*;
use vstd::string::*;

use crate::engine::path_exists;

verus! {

/// One registered correspondence between a virtual-path prefix and a
/// physical location on disk.
pub struct Mapping {
    pub virtual_prefix: String,
    pub disk_path: String,
}

/// `pre` is a leading run of the characters of `s`.
pub open spec fn is_prefix(pre: Seq<char>, s: Seq<char>) -> bool {
    pre.len() <= s.len() && s.subrange(0, pre.len() as int) == pre
}

/// The physical path formed by gluing a directory onto a path remainder.
pub open spec fn joined(disk: Seq<char>, rest: Seq<char>) -> Seq<char> {
    if disk.len() == 0 {
        rest
    } else if rest.len() == 0 {
        disk
    } else {
        disk + seq!['/'] + rest
    }
}

/// The physical candidate a mapping yields for a virtual path; meaningful
/// only when the mapping's prefix is a prefix of the path.
pub open spec fn substituted(m: Mapping, path: Seq<char>) -> Seq<char> {
    joined(m.disk_path@, path.skip(m.virtual_prefix@.len() as int))
}

/// The character sequences of a list of strings.
pub open spec fn string_views(v: Seq<String>) -> Seq<Seq<char>> {
    v.map_values(|s: String| s@)
}

/// First-registered-match resolution: the physical candidate of the first
/// mapping, in registration order, whose prefix matches `path` and whose
/// substituted path occurs in `present` (the paths that exist on disk).
pub open spec fn resolve_spec(ms: Seq<Mapping>, path: Seq<char>, present: Seq<Seq<char>>) -> Option<
    Seq<char>,
>
    decreases ms.len(),
{
    if ms.len() == 0 {
        None
    } else if is_prefix(ms[0].virtual_prefix@, path) && present.contains(substituted(ms[0], path)) {
        Some(substituted(ms[0], path))
    } else {
        resolve_spec(ms.drop_first(), path, present)
    }
}

/// Registration order decides: if mapping `i` matches and its candidate is
/// present, and no earlier registration both matches and is present, then
/// resolution returns mapping `i`'s candidate, however specific the later
/// or earlier prefixes are.
pub proof fn lemma_first_registered_match_wins(
    ms: Seq<Mapping>,
    path: Seq<char>,
    present: Seq<Seq<char>>,
    i: int,
)
    requires
        0 <= i < ms.len(),
        is_prefix(ms[i].virtual_prefix@, path),
        present.contains(substituted(ms[i], path)),
        forall|j: int|
            0 <= j < i ==> !(is_prefix(ms[j].virtual_prefix@, path) && present.contains(
                substituted(ms[j], path),
            )),
    ensures
        resolve_spec(ms, path, present) == Some(substituted(ms[i], path)),
    decreases i,
{
    if i > 0 {
        assert(ms.drop_first()[i - 1] == ms[i]);
        assert(forall|j: int| 0 <= j < i - 1 ==> ms.drop_first()[j] == ms[j + 1]);
        lemma_first_registered_match_wins(ms.drop_first(), path, present, i - 1);
    }
}

/// Whatever resolution returns came from some registered mapping whose
/// prefix matches and whose candidate is among the present paths.
pub proof fn lemma_resolution_is_registered(ms: Seq<Mapping>, path: Seq<char>, present: Seq<
    Seq<char>,
>)
    ensures
        resolve_spec(ms, path, present) matches Some(p) ==> exists|i: int|
            0 <= i < ms.len() && is_prefix(#[trigger] ms[i].virtual_prefix@, path) && p
                == substituted(ms[i], path) && present.contains(p),
    decreases ms.len(),
{
    if ms.len() > 0 {
        if is_prefix(ms[0].virtual_prefix@, path) && present.contains(substituted(ms[0], path)) {
        } else {
            lemma_resolution_is_registered(ms.drop_first(), path, present);
            match resolve_spec(ms, path, present) {
                Some(p) => {
                    let j = choose|j: int|
                        0 <= j < ms.drop_first().len() && is_prefix(
                            #[trigger] ms.drop_first()[j].virtual_prefix@,
                            path,
                        ) && p == substituted(ms.drop_first()[j], path) && present.contains(p);
                    assert(ms[j + 1] == ms.drop_first()[j]);
                },
                None => {},
            }
        }
    }
}

/// An empty prefix matches every virtual path: a tree whose only
/// registration maps the empty prefix to a root directory acts as a
/// catch-all, resolving a path exactly when the path glued under the root
/// is present, and to that glued path.
pub proof fn lemma_catch_all_root(root: Mapping, path: Seq<char>, present: Seq<Seq<char>>)
    requires
        root.virtual_prefix@.len() == 0,
    ensures
        is_prefix(root.virtual_prefix@, path),
        substituted(root, path) == joined(root.disk_path@, path),
        resolve_spec(seq![root], path, present) == if present.contains(
            joined(root.disk_path@, path),
        ) {
            Some(joined(root.disk_path@, path))
        } else {
            None::<Seq<char>>
        },
{
    assert(path.subrange(0, 0) =~= root.virtual_prefix@);
    assert(path.skip(0) =~= path);
    assert(seq![root].len() == 1 && seq![root][0] == root);
    assert(substituted(root, path) == joined(root.disk_path@, path));
    assert(seq![root].drop_first() =~= Seq::<Mapping>::empty());
    if present.contains(joined(root.disk_path@, path)) {
        assert(resolve_spec(seq![root], path, present) == Some(substituted(root, path)));
    } else {
        assert(resolve_spec(seq![root], path, present) == resolve_spec(
            Seq::<Mapping>::empty(),
            path,
            present,
        ));
    }
}

/// With nothing present on disk, resolution always fails, whatever was
/// registered.
pub proof fn lemma_nothing_present(ms: Seq<Mapping>, path: Seq<char>)
    ensures
        resolve_spec(ms, path, Seq::<Seq<char>>::empty()) is None,
    decreases ms.len(),
{
    if ms.len() > 0 {
        lemma_nothing_present(ms.drop_first(), path);
    }
}

/// Whether `pre` is a prefix of `s`, decided character by character.
pub fn str_has_prefix(pre: &str, s: &str) -> (r: bool)
    ensures
        r == is_prefix(pre@, s@),
{
    let pre_len: usize = pre.unicode_len();
    let s_len: usize = s.unicode_len();
    if pre_len > s_len {
        return false;
    }
    let mut i: usize = 0;
    while i < pre_len
        invariant
            i <= pre_len,
            pre_len == pre@.len(),
            s_len == s@.len(),
            pre_len <= s_len,
            forall|j: int| 0 <= j < i ==> pre@[j] == s@[j],
        decreases pre_len - i,
    {
        if pre.get_char(i) != s.get_char(i) {
            proof {
                assert(s@.subrange(0, pre@.len() as int)[i as int] != pre@[i as int]);
            }
            return false;
        }
        i = i + 1;
    }
    proof {
        assert(s@.subrange(0, pre@.len() as int) =~= pre@);
    }
    true
}

/// Glues a physical directory onto a path remainder with a separator.
pub fn join_path(disk: &str, rest: &str) -> (r: String)
    ensures
        r@ == joined(disk@, rest@),
{
    if disk.is_empty() {
        String::from_str(rest)
    } else if rest.is_empty() {
        String::from_str(disk)
    } else {
        let mut s = String::from_str(disk);
        s.append("/");
        s.append(rest);
        proof {
            reveal_strlit("/");
            assert(s@ =~= joined(disk@, rest@));
        }
        s
    }
}

/// The physical candidate of one mapping for a virtual path, if its prefix
/// matches.
fn candidate_for(m: &Mapping, path: &str) -> (r: Option<String>)
    ensures
        match r {
            Some(p) => is_prefix(m.virtual_prefix@, path@) && p@ == substituted(*m, path@),
            None => !is_prefix(m.virtual_prefix@, path@),
        },
{
    if str_has_prefix(m.virtual_prefix.as_str(), path) {
        let pre_len: usize = m.virtual_prefix.as_str().unicode_len();
        let total: usize = path.unicode_len();
        let rest = path.substring_char(pre_len, total);
        let phys = join_path(m.disk_path.as_str(), rest);
        proof {
            assert(path@.subrange(pre_len as int, total as int) =~= path@.skip(pre_len as int));
        }
        Some(phys)
    } else {
        None
    }
}

/// Whether some string in `v` has the character sequence of `s`.
fn contains_string(v: &Vec<String>, s: &String) -> (r: bool)
    ensures
        r == string_views(v@).contains(s@),
{
    let mut i: usize = 0;
    while i < v.len()
        invariant
            i <= v@.len(),
            forall|j: int| 0 <= j < i ==> v@[j]@ != s@,
        decreases v@.len() - i,
    {
        if v[i].eq(s) {
            proof {
                assert(string_views(v@)[i as int] == s@);
            }
            return true;
        }
        i = i + 1;
    }
    proof {
        assert(forall|j: int| 0 <= j < string_views(v@).len() ==> string_views(v@)[j] != s@);
    }
    false
}

/// Maps virtual import identifiers to physical file locations, trying
/// registrations in registration order.
pub struct DiskSourceTree {
    pub mappings: Vec<Mapping>,
}

impl View for DiskSourceTree {
    type V = Seq<Mapping>;

    open spec fn view(&self) -> Seq<Mapping> {
        self.mappings@
    }
}

impl DiskSourceTree {
    /// A source tree with no registrations.
    pub fn new() -> (t: DiskSourceTree)
        ensures
            t@ == Seq::<Mapping>::empty(),
    {
        let t = DiskSourceTree { mappings: Vec::new() };
        proof {
            assert(t@ =~= Seq::<Mapping>::empty());
        }
        t
    }

    /// Registers a mapping from a virtual-path prefix to a physical
    /// location; later lookups try registrations in this order.
    pub fn map_path(&mut self, virtual_path: &str, disk_path: &str)
        ensures
            final(self)@.len() == old(self)@.len() + 1,
            forall|i: int| 0 <= i < old(self)@.len() ==> final(self)@[i] == old(self)@[i],
            final(self)@.last().virtual_prefix@ == virtual_path@,
            final(self)@.last().disk_path@ == disk_path@,
    {
        self.mappings.push(
            Mapping { virtual_prefix: String::from_str(virtual_path), disk_path: String::from_str(disk_path) },
        );
    }

    /// The physical directories of all registrations, in registration order;
    /// the schema-parsing engine searches them when it resolves imports.
    pub fn disk_paths(&self) -> (r: Vec<String>)
        ensures
            r@.len() == self@.len(),
            forall|i: int| 0 <= i < r@.len() ==> r@[i]@ == self@[i].disk_path@,
    {
        let mut r: Vec<String> = Vec::new();
        let mut i: usize = 0;
        while i < self.mappings.len()
            invariant
                i <= self@.len(),
                r@.len() == i,
                forall|j: int| 0 <= j < i ==> r@[j]@ == self@[j].disk_path@,
            decreases self@.len() - i,
        {
            r.push(self.mappings[i].disk_path.clone());
            i = i + 1;
        }
        r
    }

    /// Resolution against an explicit list of the physical paths that exist:
    /// returns the first-registered matching candidate among them.
    pub fn resolve_in(&self, virtual_path: &str, present: &Vec<String>) -> (r: Option<String>)
        ensures
            match r {
                Some(p) => resolve_spec(self@, virtual_path@, string_views(present@)) == Some(p@),
                None => resolve_spec(self@, virtual_path@, string_views(present@)) is None,
            },
    {
        let mut i: usize = 0;
        proof {
            assert(self@.skip(0) =~= self@);
        }
        while i < self.mappings.len()
            invariant
                i <= self@.len(),
                resolve_spec(self@, virtual_path@, string_views(present@)) == resolve_spec(
                    self@.skip(i as int),
                    virtual_path@,
                    string_views(present@),
                ),
            decreases self@.len() - i,
        {
            proof {
                assert(self@.skip(i as int)[0] == self@[i as int]);
                assert(self@.skip(i as int).drop_first() =~= self@.skip(i as int + 1));
            }
            match candidate_for(&self.mappings[i], virtual_path) {
                Some(c) => {
                    if contains_string(present, &c) {
                        return Some(c);
                    }
                },
                None => {},
            }
            i = i + 1;
        }
        proof {
            assert(self@.skip(i as int) =~= Seq::<Mapping>::empty());
        }
        None
    }

    /// Resolution against the disk: applies registrations in order and
    /// returns the first substituted physical path that names an existing
    /// file. Which candidate exists depends on the state of the disk, so
    /// the result is pinned only to being some matching registration's
    /// candidate; if no registration's prefix matches at all, the lookup
    /// fails without touching the disk.
    pub fn resolve(&self, virtual_path: &str) -> (r: Option<String>)
        ensures
            match r {
                Some(p) => exists|i: int|
                    0 <= i < self@.len() && is_prefix(
                        #[trigger] self@[i].virtual_prefix@,
                        virtual_path@,
                    ) && p@ == substituted(self@[i], virtual_path@),
                None => true,
            },
            (forall|i: int|
                0 <= i < self@.len() ==> !is_prefix(
                    #[trigger] self@[i].virtual_prefix@,
                    virtual_path@,
                )) ==> r is None,
    {
        let mut i: usize = 0;
        while i < self.mappings.len()
            invariant
                i <= self@.len(),
            decreases self@.len() - i,
        {
            match candidate_for(&self.mappings[i], virtual_path) {
                Some(c) => {
                    if path_exists(&c) {
                        proof {
                            assert(is_prefix(self@[i as int].virtual_prefix@, virtual_path@)
                                && c@ == substituted(self@[i as int], virtual_path@));
                        }
                        return Some(c);
                    }
                },
                None => {},
            }
            i = i + 1;
        }
        None
    }
}

} // verus!
