//! Source-tree enumeration.
//!
//! A run's source is modelled as a tree of regular files and directories,
//! holding what the walk reads: names and file sizes.  Entries the walk
//! skips (symbolic links and other special files) are simply absent from the
//! tree.  `collect_files` flattens a tree into the ordered file list of the
//! run: depth-first, one subtree's files contiguous before the next
//! sibling's, each file under its source-root-relative path.

use vstd::prelude::*;
use vstd::string::StringExecFns;
use crate::paths::{joined, lemma_join_injective};

verus! {

/// One regular file discovered under the source root: its path relative to
/// the root and its size in bytes as seen at enumeration time.
pub struct SourceFile {
    pub rel_path: String,
    pub size: u64,
}

/// Mathematical image of a discovered file.
#[verifier::ext_equal]
pub ghost struct FileRec {
    pub rel: Seq<char>,
    pub size: u64,
}

impl View for SourceFile {
    type V = FileRec;

    open spec fn view(&self) -> FileRec {
        FileRec { rel: self.rel_path@, size: self.size }
    }
}

/// The mathematical image of a file list.
pub open spec fn views_of(files: Seq<SourceFile>) -> Seq<FileRec> {
    files.map_values(|f: SourceFile| f@)
}

/// A source tree as the enumerator sees it.
pub enum FsTree {
    File { name: String, size: u64 },
    Dir { name: String, entries: Vec<FsTree> },
}

/// Every relative path of `fs`, prefixed with `p`.
pub open spec fn prefix_files(p: Seq<char>, fs: Seq<FileRec>) -> Seq<FileRec> {
    fs.map_values(|f: FileRec| FileRec { rel: p + f.rel, size: f.size })
}

/// The files below one directory entry, with paths relative to that
/// directory: a file contributes its own name, a subdirectory contributes
/// its files prefixed with its name and a separator.
pub open spec fn entry_files(t: FsTree) -> Seq<FileRec>
    decreases t,
{
    match t {
        FsTree::File { name, size } => seq![FileRec { rel: name@, size }],
        FsTree::Dir { name, entries } => prefix_files(name@ + "/"@, entries_files(entries@)),
    }
}

/// The files below a sequence of sibling entries, in order.
pub open spec fn entries_files(ts: Seq<FsTree>) -> Seq<FileRec>
    decreases ts,
{
    if ts.len() == 0 {
        Seq::empty()
    } else {
        entry_files(ts[0]) + entries_files(ts.drop_first())
    }
}

/// The file list of a whole run: a regular-file root contributes itself
/// under its own name; a directory root contributes the files below it,
/// with paths relative to the root (the root's own name is not part of
/// them).
pub open spec fn root_files(t: FsTree) -> Seq<FileRec> {
    match t {
        FsTree::File { name, size } => seq![FileRec { rel: name@, size }],
        FsTree::Dir { name: _, entries } => entries_files(entries@),
    }
}

/// The destination path of every file of a run, against one destination
/// root.
pub open spec fn destinations(dest: Seq<char>, fs: Seq<FileRec>) -> Seq<Seq<char>> {
    fs.map_values(|f: FileRec| joined(dest, f.rel))
}

/// Law: after a full run over a tree, the destination files mirror the
/// source files one to one.  Each file of the list lands at the
/// destination root joined with its source-root-relative path, and two
/// files land on the same destination path only if their relative paths
/// were already equal — the subtree structure is preserved, nothing is
/// merged and nothing extra appears.
pub proof fn lemma_run_preserves_structure(dest: Seq<char>, fs: Seq<FileRec>)
    ensures
        destinations(dest, fs).len() == fs.len(),
        forall|i: int| 0 <= i < fs.len() ==> destinations(dest, fs)[i] == joined(
            dest,
            fs[i].rel,
        ),
        forall|i: int, j: int|
            0 <= i < fs.len() && 0 <= j < fs.len() && destinations(dest, fs)[i] == destinations(
                dest,
                fs,
            )[j] ==> fs[i].rel == fs[j].rel,
{
    assert forall|i: int, j: int|
        0 <= i < fs.len() && 0 <= j < fs.len() && destinations(dest, fs)[i] == destinations(
            dest,
            fs,
        )[j] implies fs[i].rel == fs[j].rel by {
        lemma_join_injective(dest, fs[i].rel, fs[j].rel);
    }
}

/// Prefixing distributes over concatenation of file lists.
pub proof fn lemma_prefix_files_add(p: Seq<char>, a: Seq<FileRec>, b: Seq<FileRec>)
    ensures
        prefix_files(p, a + b) == prefix_files(p, a) + prefix_files(p, b),
{
    assert(prefix_files(p, a + b) =~= prefix_files(p, a) + prefix_files(p, b));
}

/// Prefixing twice is prefixing with the concatenated prefix.
pub proof fn lemma_prefix_files_compose(p: Seq<char>, q: Seq<char>, fs: Seq<FileRec>)
    ensures
        prefix_files(p, prefix_files(q, fs)) == prefix_files(p + q, fs),
{
    assert forall|i: int| 0 <= i < fs.len() implies prefix_files(p, prefix_files(q, fs))[i]
        == prefix_files(p + q, fs)[i] by {
        assert(p + (q + fs[i].rel) =~= (p + q) + fs[i].rel);
    }
    assert(prefix_files(p, prefix_files(q, fs)) =~= prefix_files(p + q, fs));
}

/// The empty prefix changes nothing.
pub proof fn lemma_prefix_files_empty(fs: Seq<FileRec>)
    ensures
        prefix_files(Seq::empty(), fs) == fs,
{
    assert forall|i: int| 0 <= i < fs.len() implies prefix_files(Seq::empty(), fs)[i] == fs[i] by {
        assert(Seq::empty() + fs[i].rel =~= fs[i].rel);
    }
    assert(prefix_files(Seq::empty(), fs) =~= fs);
}

/// Extending a prefix of siblings by one appends exactly that sibling's
/// files.
pub proof fn lemma_entries_files_snoc(ts: Seq<FsTree>, i: int)
    requires
        0 <= i < ts.len(),
    ensures
        entries_files(ts.take(i + 1)) == entries_files(ts.take(i)) + entry_files(ts[i]),
    decreases i,
{
    if i == 0 {
        let s1 = ts.take(1);
        assert(s1.len() == 1);
        assert(s1[0] == ts[0]);
        assert(s1.drop_first() =~= Seq::<FsTree>::empty());
        assert(entries_files(s1) == entry_files(ts[0]) + entries_files(Seq::<FsTree>::empty()));
        assert(entry_files(ts[0]) + Seq::<FileRec>::empty() =~= entry_files(ts[0]));
        assert(ts.take(0) =~= Seq::<FsTree>::empty());
        assert(Seq::<FileRec>::empty() + entry_files(ts[0]) =~= entry_files(ts[0]));
    } else {
        let rest = ts.drop_first();
        assert(ts.take(i + 1).drop_first() =~= rest.take(i));
        assert(ts.take(i).drop_first() =~= rest.take(i - 1));
        lemma_entries_files_snoc(rest, i - 1);
        assert(entry_files(ts[0]) + (entries_files(rest.take(i - 1)) + entry_files(rest[i - 1]))
            =~= (entry_files(ts[0]) + entries_files(rest.take(i - 1))) + entry_files(rest[i - 1]));
    }
}

/// Appends to `out` the files below `t`, each with `prefix` prepended to
/// its relative path.
fn collect_into(t: &FsTree, prefix: &str, out: &mut Vec<SourceFile>)
    ensures
        views_of(final(out)@) == views_of(old(out)@) + prefix_files(prefix@, entry_files(*t)),
    decreases *t,
{
    match t {
        FsTree::File { name, size } => {
            let mut rel = prefix.to_owned();
            rel.append(name.as_str());
            let rec = SourceFile { rel_path: rel, size: *size };
            out.push(rec);
            proof {
                assert(views_of(out@) =~= views_of(old(out)@)
                    + prefix_files(prefix@, entry_files(*t)));
            }
        }
        FsTree::Dir { name, entries } => {
            let mut p = prefix.to_owned();
            p.append(name.as_str());
            p.append("/");
            let ghost p0 = prefix@ + name@ + "/"@;
            let ghost out0 = out@;
            let mut i: usize = 0;
            while i < entries.len()
                invariant
                    *t is Dir,
                    t->Dir_entries == *entries,
                    i <= entries.len(),
                    p@ == p0,
                    views_of(out@) == views_of(out0)
                        + prefix_files(p0, entries_files(entries@.take(i as int))),
                decreases entries.len() - i,
            {
                proof {
                    assert(decreases_to!(*t => t->Dir_entries));
                    assert(decreases_to!(*t => entries@[i as int]));
                }
                collect_into(&entries[i], p.as_str(), out);
                proof {
                    lemma_entries_files_snoc(entries@, i as int);
                    lemma_prefix_files_add(
                        p0,
                        entries_files(entries@.take(i as int)),
                        entry_files(entries@[i as int]),
                    );
                    assert((views_of(out0) + prefix_files(p0, entries_files(entries@.take(i as int))))
                        + prefix_files(p0, entry_files(entries@[i as int]))
                        =~= views_of(out0)
                            + (prefix_files(p0, entries_files(entries@.take(i as int)))
                                + prefix_files(p0, entry_files(entries@[i as int]))));
                }
                i = i + 1;
            }
            proof {
                assert(entries@.take(entries@.len() as int) =~= entries@);
                lemma_prefix_files_compose(prefix@, name@ + "/"@, entries_files(entries@));
                assert(prefix@ + (name@ + "/"@) =~= prefix@ + name@ + "/"@);
            }
        }
    }
}

/// Enumerates the files of a run over `root`: depth-first, one subtree's
/// files contiguous before the next sibling's, each with its
/// source-root-relative path and its size.
pub fn collect_files(root: &FsTree) -> (files: Vec<SourceFile>)
    ensures
        views_of(files@) == root_files(*root),
{
    let mut out: Vec<SourceFile> = Vec::new();
    match root {
        FsTree::File { name, size } => {
            let rec = SourceFile { rel_path: name.clone(), size: *size };
            out.push(rec);
            proof {
                assert(views_of(out@) =~= root_files(*root));
            }
        }
        FsTree::Dir { name: _, entries } => {
            let mut i: usize = 0;
            while i < entries.len()
                invariant
                    i <= entries.len(),
                    views_of(out@) == entries_files(entries@.take(i as int)),
                decreases entries.len() - i,
            {
                collect_into(&entries[i], "", &mut out);
                proof {
                    reveal_strlit("");
                    assert(""@ =~= Seq::<char>::empty());
                    lemma_prefix_files_empty(entry_files(entries@[i as int]));
                    lemma_entries_files_snoc(entries@, i as int);
                }
                i = i + 1;
            }
            proof {
                assert(entries@.take(entries@.len() as int) =~= entries@);
            }
        }
    }
    out
}

} // verus!
