//! Per-file copy planning.
//!
//! One file's copy is a fixed little protocol.  In protected mode the
//! bytes are first written to a staging sibling of the destination and an
//! atomic rename then publishes the destination, so the destination path
//! either does not exist, or is a complete prior copy, or is the new
//! complete copy — never a partial write.  Fast mode writes the
//! destination directly.  On failure, the staging file is removed before
//! the copy is considered finished.

use vstd::prelude::*;
use crate::paths::{temp_path_spec, temp_path_for, lemma_temp_path_distinct};

verus! {

/// The path one file's bytes are first written to.
pub open spec fn written_path_spec(dest: Seq<char>, fast_mode: bool) -> Seq<char> {
    if fast_mode {
        dest
    } else {
        temp_path_spec(dest)
    }
}

/// The path the failure cleanup removes, if any.
pub open spec fn cleanup_path_spec(dest: Seq<char>, fast_mode: bool) -> Option<Seq<char>> {
    if fast_mode {
        None
    } else {
        Some(temp_path_spec(dest))
    }
}

/// The write plan of one file's copy.
pub struct CopyPlan {
    /// Where the file's bytes are written.
    pub write_path: String,
    /// Whether a rename of the written path onto the destination follows
    /// the write and publishes it (protected mode); fast mode has none.
    pub rename_to_destination: bool,
}

/// Plans one file's copy against its destination path.
pub fn plan_copy(destination: &str, fast_mode: bool) -> (plan: CopyPlan)
    ensures
        plan.write_path@ == written_path_spec(destination@, fast_mode),
        plan.rename_to_destination == !fast_mode,
        !fast_mode ==> plan.write_path@ != destination@,
{
    if fast_mode {
        CopyPlan { write_path: destination.to_owned(), rename_to_destination: false }
    } else {
        proof {
            lemma_temp_path_distinct(destination@);
        }
        CopyPlan { write_path: temp_path_for(destination), rename_to_destination: true }
    }
}

/// The staging path to remove after a failed copy, so that no staging file
/// survives the operation; fast mode staged nothing.  A failure of the
/// removal itself is ignored outside: the guarantee that matters — the
/// destination path was never partially written — already holds.
pub fn failure_cleanup(destination: &str, fast_mode: bool) -> (p: Option<String>)
    ensures
        fast_mode ==> p is None,
        !fast_mode ==> p is Some && p->0@ == temp_path_spec(destination@),
{
    if fast_mode {
        None
    } else {
        Some(temp_path_for(destination))
    }
}

/// Law (protected mode): the destination path itself is never a write
/// target; only the atomic rename publishes it.  A concurrent reader of
/// the destination path therefore sees no partially-written file there.
pub proof fn lemma_protected_destination_never_written(dest: Seq<char>)
    ensures
        written_path_spec(dest, false) != dest,
{
    lemma_temp_path_distinct(dest);
}

/// Law: a failed copy leaves no staging file behind.  Whatever path a copy
/// plan writes other than the destination itself is exactly the path the
/// failure cleanup removes — and the cleanup removes nothing else.
pub proof fn lemma_cleanup_covers_staging(dest: Seq<char>, fast_mode: bool)
    ensures
        written_path_spec(dest, fast_mode) != dest ==> cleanup_path_spec(dest, fast_mode)
            == Some(written_path_spec(dest, fast_mode)),
        cleanup_path_spec(dest, fast_mode) matches Some(p) ==> p == written_path_spec(
            dest,
            fast_mode,
        ),
{
}

} // verus!
