//! Destination and staging-path derivation.
//!
//! Paths are modelled as strings whose components are separated by `/`.
//! The functions here compute, for each file of a run, where its bytes must
//! land and which sibling path the protected copy strategy may stage them at.

use vstd::prelude::*;
use vstd::string::StringExecFns;

verus! {

/// The staging path of a destination: the destination path with a literal
/// `.tmp` appended.
pub open spec fn temp_path_spec(dest: Seq<char>) -> Seq<char> {
    dest + ".tmp"@
}

/// A base path joined with a further component by a `/` separator.
pub open spec fn joined(base: Seq<char>, name: Seq<char>) -> Seq<char> {
    base + "/"@ + name
}

/// The staging path used by the protected copy strategy.
pub fn temp_path_for(dest: &str) -> (r: String)
    ensures
        r@ == temp_path_spec(dest@),
{
    let mut s = dest.to_owned();
    s.append(".tmp");
    s
}

/// Joins a base path and a name with a `/` separator.
pub fn join_path(base: &str, name: &str) -> (r: String)
    ensures
        r@ == joined(base@, name@),
{
    let mut s = base.to_owned();
    s.append("/");
    s.append(name);
    s
}

/// The destination of a single-file run: into an existing directory
/// destination under the file's own name, otherwise the destination path
/// verbatim as the full target file path.
pub fn single_file_destination(destination: &str, destination_is_dir: bool, file_name: &str) -> (d:
    String)
    ensures
        destination_is_dir ==> d@ == joined(destination@, file_name@),
        !destination_is_dir ==> d@ == destination@,
{
    if destination_is_dir {
        join_path(destination, file_name)
    } else {
        destination.to_owned()
    }
}

/// The destination of one file of a directory-root run: the destination
/// root joined with the file's source-root-relative path, preserving the
/// subtree structure.
pub fn tree_file_destination(destination: &str, rel_path: &str) -> (d: String)
    ensures
        d@ == joined(destination@, rel_path@),
{
    join_path(destination, rel_path)
}

/// The position of the last `/` of a path, if any.
pub open spec fn last_slash(s: Seq<char>) -> Option<int>
    decreases s,
{
    if s.len() == 0 {
        None
    } else if s.last() == '/' {
        Some(s.len() - 1)
    } else {
        last_slash(s.drop_last())
    }
}

/// The parent of a path: everything before its last `/`, or nothing for a
/// bare name.
pub open spec fn parent_spec(s: Seq<char>) -> Option<Seq<char>> {
    match last_slash(s) {
        Some(i) => Some(s.take(i)),
        None => None,
    }
}

/// The parent directory a destination's bytes land under: the part of the
/// path before its last separator.  It is created before the copy; a path
/// without a separator needs no such step.
pub fn parent_of(path: &str) -> (p: Option<String>)
    ensures
        p is Some <==> parent_spec(path@) is Some,
        p is Some ==> Some(p->0@) == parent_spec(path@),
{
    let n: usize = path.unicode_len();
    let mut i: usize = n;
    proof {
        assert(path@.take(n as int) =~= path@);
    }
    while i > 0
        invariant
            i <= n,
            n == path@.len(),
            last_slash(path@) == last_slash(path@.take(i as int)),
        decreases i,
    {
        let c = path.get_char(i - 1);
        proof {
            assert(path@.take(i as int).last() == path@[i as int - 1]);
            assert(path@.take(i as int).drop_last() =~= path@.take(i as int - 1));
        }
        if c == '/' {
            let parent = path.substring_char(0, i - 1);
            return Some(parent.to_owned());
        }
        i = i - 1;
    }
    proof {
        assert(path@.take(0) =~= Seq::<char>::empty());
    }
    None
}

/// A staging path never equals the destination it was derived from, so a
/// write to the staging path can never land on the destination path itself.
pub proof fn lemma_temp_path_distinct(dest: Seq<char>)
    ensures
        temp_path_spec(dest) != dest,
{
    reveal_strlit(".tmp");
    assert(temp_path_spec(dest).len() == dest.len() + 4);
}

/// Joining a fixed destination root preserves distinctness: two files of a
/// run land on the same destination path only if their source-relative
/// paths were already the same.  With the file list's relative paths, this
/// makes the set of destination paths of a run the image of the set of
/// source files, structure preserved.
pub proof fn lemma_join_injective(base: Seq<char>, a: Seq<char>, b: Seq<char>)
    requires
        joined(base, a) == joined(base, b),
    ensures
        a == b,
{
    reveal_strlit("/");
    let pa = joined(base, a);
    let pb = joined(base, b);
    assert(pa.len() == base.len() + 1 + a.len());
    assert(pb.len() == base.len() + 1 + b.len());
    assert forall|k: int| 0 <= k < a.len() implies a[k] == b[k] by {
        assert(pa[base.len() + 1 + k] == a[k]);
        assert(pb[base.len() + 1 + k] == b[k]);
    }
    assert(a =~= b);
}

} // verus!
