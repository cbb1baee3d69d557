//! Directory entries and the grouping of a traversal into per-folder groups.
//!
//! A depth-first traversal of the dataset yields a sequence of entries: a
//! marker for every directory, followed by that directory's files, with
//! unreadable entries reported in-band.  [`group_entries`] cuts that
//! sequence into groups at the directory markers; concatenating the groups,
//! in order, gives back the original sequence exactly.

use vstd::prelude::*;

verus! {

/// One entry of the traversal: a path, whether it marks a directory, and
/// the file's size in bytes (zero for directories).
#[derive(Debug, PartialEq, Eq)]
pub struct Entry {
    pub path: String,
    pub is_dir: bool,
    pub size: u64,
}

impl Clone for Entry {
    fn clone(&self) -> (r: Self)
        ensures
            r == *self,
    {
        Entry { path: self.path.clone(), is_dir: self.is_dir, size: self.size }
    }
}

/// An entry as the traversal hands it over: either readable, or an in-band
/// error message.
pub type EntryResult = Result<Entry, String>;

/// A group boundary: a readable entry that marks a directory.
pub open spec fn spec_is_boundary(e: EntryResult) -> bool {
    match e {
        Ok(en) => en.is_dir,
        Err(_) => false,
    }
}

/// Whether this entry starts a new group.
pub fn is_boundary(e: &EntryResult) -> (r: bool)
    ensures
        r == spec_is_boundary(*e),
{
    match e {
        Ok(en) => en.is_dir,
        Err(_) => false,
    }
}

/// The concatenation, in order, of a sequence of vectors.
pub open spec fn flatten_vecs<T>(vecs: Seq<Vec<T>>) -> Seq<T>
    decreases vecs.len(),
{
    if vecs.len() == 0 {
        Seq::empty()
    } else {
        flatten_vecs(vecs.drop_last()) + vecs.last()@
    }
}

/// Appending one more vector extends the concatenation by that vector.
pub proof fn lemma_flatten_vecs_push<T>(vecs: Seq<Vec<T>>, v: Vec<T>)
    ensures
        flatten_vecs(vecs.push(v)) == flatten_vecs(vecs) + v@,
{
    assert(vecs.push(v).drop_last() =~= vecs);
    assert(vecs.push(v).last() == v);
}

/// Cut a traversal sequence into groups at the directory markers.
///
/// Entries are accumulated in order; whenever a directory marker arrives
/// and the running buffer is not empty, the buffer is emitted as a finished
/// group and the marker opens the next one.  At the end of the sequence the
/// remaining buffer, if any, is emitted as the final group.  So: the groups
/// concatenate back to the input exactly; no group is empty; within a group
/// only the first entry can be a directory marker; and every group but the
/// first starts with one.
pub fn group_entries(entries: Vec<EntryResult>) -> (groups: Vec<Vec<EntryResult>>)
    ensures
        flatten_vecs(groups@) == entries@,
        forall|i: int| 0 <= i < groups@.len() ==> groups@[i]@.len() > 0,
        forall|i: int, j: int|
            0 <= i < groups@.len() && 1 <= j < groups@[i]@.len() ==> !spec_is_boundary(
                groups@[i]@[j],
            ),
        forall|i: int| 1 <= i < groups@.len() ==> spec_is_boundary(groups@[i]@[0]),
{
    let mut groups: Vec<Vec<EntryResult>> = Vec::new();
    let mut rest = entries;
    while rest.len() > 0
        invariant
            flatten_vecs(groups@) + rest@ == entries@,
            forall|i: int| 0 <= i < groups@.len() ==> groups@[i]@.len() > 0,
            forall|i: int, j: int|
                0 <= i < groups@.len() && 1 <= j < groups@[i]@.len() ==> !spec_is_boundary(
                    groups@[i]@[j],
                ),
            forall|i: int| 1 <= i < groups@.len() ==> spec_is_boundary(groups@[i]@[0]),
            groups@.len() > 0 && rest@.len() > 0 ==> spec_is_boundary(rest@[0]),
        decreases rest@.len(),
    {
        let ghost rest0 = rest@;
        let mut b: usize = 1;
        while b < rest.len() && !is_boundary(&rest[b])
            invariant
                1 <= b <= rest@.len(),
                rest@ == rest0,
                forall|j: int| 1 <= j < b ==> !spec_is_boundary(rest@[j]),
            decreases rest@.len() - b,
        {
            b = b + 1;
        }
        let ghost gprev = groups@;
        let tail = rest.split_off(b);
        let ghost first = rest@;
        groups.push(rest);
        rest = tail;
        proof {
            lemma_flatten_vecs_push(gprev, groups@.last());
            assert(first + rest@ =~= rest0);
            assert(flatten_vecs(groups@) + rest@ =~= flatten_vecs(gprev) + rest0);
        }
    }
    proof {
        assert(flatten_vecs(groups@) =~= flatten_vecs(groups@) + rest@);
    }
    groups
}

} // verus!
