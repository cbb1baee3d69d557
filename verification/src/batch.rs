//! Size-bounded batching of a group's image files, and the full plan of one
//! group's processing.
//!
//! Within one group, image files are packed greedily into batches whose
//! summed byte size stays within the configured budget.  A file is never
//! split: when adding a file would push the running total over the budget,
//! the accumulator so far is flushed first, and a file larger than the
//! whole budget travels alone in a batch of its own.

use vstd::prelude::*;
use vstd::string::StrSliceExecFns;
use vstd::string::StringExecFns;

use crate::entry::flatten_vecs;
use crate::entry::lemma_flatten_vecs_push;
use crate::entry::Entry;
use crate::entry::EntryResult;
use crate::errors::ErrorModel;
use crate::errors::ProcessingError;
use crate::paths::file_stem;
use crate::paths::spec_file_stem;
use crate::utils::get_directory_name;
use crate::utils::is_image;
use crate::utils::spec_group_name;
use crate::utils::spec_is_image;

verus! {

/// A readable entry that is an image file.
pub open spec fn spec_is_image_file(e: EntryResult) -> bool {
    match e {
        Ok(en) => !en.is_dir && spec_is_image(en.path@),
        Err(_) => false,
    }
}

/// The image files of a group, in order.
pub open spec fn spec_image_entries(group: Seq<EntryResult>) -> Seq<Entry>
    decreases group.len(),
{
    if group.len() == 0 {
        Seq::empty()
    } else {
        let prefix = spec_image_entries(group.drop_last());
        if spec_is_image_file(group.last()) {
            prefix.push(group.last()->Ok_0)
        } else {
            prefix
        }
    }
}

/// The folder names of the directory markers of a group, in order.
pub open spec fn spec_dir_messages(group: Seq<EntryResult>) -> Seq<Seq<char>>
    decreases group.len(),
{
    if group.len() == 0 {
        Seq::empty()
    } else {
        let prefix = spec_dir_messages(group.drop_last());
        match group.last() {
            Ok(en) => if en.is_dir {
                prefix.push(spec_file_stem(en.path@))
            } else {
                prefix
            },
            Err(_) => prefix,
        }
    }
}

/// The message of the first in-band traversal error of a group, if any.
pub open spec fn spec_first_error(group: Seq<EntryResult>) -> Option<Seq<char>>
    decreases group.len(),
{
    if group.len() == 0 {
        None
    } else {
        match group[0] {
            Err(m) => Some(m@),
            Ok(_) => spec_first_error(group.drop_first()),
        }
    }
}

/// The summed byte size of a sequence of files.
pub open spec fn sum_sizes(files: Seq<Entry>) -> int
    decreases files.len(),
{
    if files.len() == 0 {
        0
    } else {
        sum_sizes(files.drop_last()) + files.last().size
    }
}

/// The image files of a group, in order.
pub fn image_entries(group: &Vec<EntryResult>) -> (r: Vec<Entry>)
    ensures
        r@ == spec_image_entries(group@),
{
    let mut out: Vec<Entry> = Vec::new();
    let mut i: usize = 0;
    proof {
        assert(group@.take(0int) =~= Seq::<EntryResult>::empty());
    }
    while i < group.len()
        invariant
            i <= group@.len(),
            out@ == spec_image_entries(group@.take(i as int)),
        decreases group@.len() - i,
    {
        proof {
            assert(group@.take(i + 1int).drop_last() =~= group@.take(i as int));
            assert(group@.take(i + 1int).last() == group@[i as int]);
        }
        match &group[i] {
            Ok(en) => {
                if !en.is_dir && is_image(en.path.as_str()) {
                    out.push(en.clone());
                }
            },
            Err(_) => {},
        }
        i = i + 1;
    }
    proof {
        assert(group@.take(group@.len() as int) =~= group@);
    }
    out
}

/// Pack files into batches, greedily, under a byte budget.
///
/// The batches concatenate back to the input exactly; no batch is empty;
/// every batch fits the budget unless it is a single file whose own size
/// exceeds it; and no batch could have taken the first file of the next one
/// without going over the budget.
pub fn plan_batches(files: Vec<Entry>, max_request_size: u64) -> (batches: Vec<Vec<Entry>>)
    ensures
        flatten_vecs(batches@) == files@,
        forall|i: int| 0 <= i < batches@.len() ==> batches@[i]@.len() > 0,
        forall|i: int|
            0 <= i < batches@.len() ==> (sum_sizes(batches@[i]@) <= max_request_size
                || batches@[i]@.len() == 1),
        forall|i: int|
            0 <= i < batches@.len() - 1 ==> sum_sizes(batches@[i]@) + batches@[i + 1]@[0].size
                > max_request_size,
{
    let mut batches: Vec<Vec<Entry>> = Vec::new();
    let mut rest = files;
    while rest.len() > 0
        invariant
            flatten_vecs(batches@) + rest@ == files@,
            forall|i: int| 0 <= i < batches@.len() ==> batches@[i]@.len() > 0,
            forall|i: int|
                0 <= i < batches@.len() ==> (sum_sizes(batches@[i]@) <= max_request_size
                    || batches@[i]@.len() == 1),
            forall|i: int|
                0 <= i < batches@.len() - 1 ==> sum_sizes(batches@[i]@) + batches@[i + 1]@[0].size
                    > max_request_size,
            batches@.len() > 0 && rest@.len() > 0 ==> sum_sizes(batches@.last()@) + rest@[0].size
                > max_request_size,
        decreases rest@.len(),
    {
        let ghost rest0 = rest@;
        let mut total: u64 = rest[0].size;
        let mut k: usize = 1;
        proof {
            assert(rest@.take(1int).drop_last() =~= Seq::<Entry>::empty());
            assert(rest@.take(1int).last() == rest@[0int]);
            assert(sum_sizes(Seq::<Entry>::empty()) == 0);
            assert(sum_sizes(rest@.take(1int)) == rest@[0int].size as int);
        }
        while k < rest.len() && total <= max_request_size && rest[k].size <= max_request_size
            - total
            invariant
                1 <= k <= rest@.len(),
                rest@ == rest0,
                total as int == sum_sizes(rest@.take(k as int)),
                k > 1 ==> total <= max_request_size,
            decreases rest@.len() - k,
        {
            proof {
                assert(rest@.take(k + 1int).drop_last() =~= rest@.take(k as int));
                assert(rest@.take(k + 1int).last() == rest@[k as int]);
            }
            total = total + rest[k].size;
            k = k + 1;
        }
        let ghost gprev = batches@;
        let tail = rest.split_off(k);
        let ghost first = rest@;
        batches.push(rest);
        rest = tail;
        proof {
            lemma_flatten_vecs_push(gprev, batches@.last());
            assert(first + rest@ =~= rest0);
            assert(flatten_vecs(batches@) + rest@ =~= flatten_vecs(gprev) + rest0);
            assert(first =~= rest0.take(k as int));
        }
    }
    proof {
        assert(flatten_vecs(batches@) =~= flatten_vecs(batches@) + rest@);
    }
    batches
}

/// Everything the pipeline does with one group, computed up front: the
/// subject name, the number of files announced to the progress channel, the
/// folder labels shown while the group is walked, and the batches sent to
/// the remote service.
#[derive(Debug)]
pub struct GroupPlan {
    /// The subject name the group trains or recognizes under.
    pub name: String,
    /// How many image files the group holds — the files actually processed;
    /// the progress length grows by exactly this number.
    pub file_count: usize,
    /// The folder names of the group's directory markers, in order.
    pub dir_messages: Vec<String>,
    /// The image files of the group, packed under the byte budget.
    pub batches: Vec<Vec<Entry>>,
}

/// Plan one group: derive its subject name (unless a global override is
/// configured), reject groups with unreadable entries, count the image
/// files, and pack them into batches.
pub fn plan_group(
    group: &Vec<EntryResult>,
    override_name: &Option<String>,
    max_request_size: u64,
) -> (r: Result<GroupPlan, ProcessingError>)
    ensures
        match r {
            Ok(plan) => {
                &&& spec_first_error(group@) is None
                &&& match override_name {
                    Some(n) => plan.name@ == n@,
                    None => spec_group_name(group@) == Result::<Seq<char>, ErrorModel>::Ok(
                        plan.name@,
                    ),
                }
                &&& plan.file_count as int == spec_image_entries(group@).len()
                &&& plan.dir_messages@.map_values(|s: String| s@) == spec_dir_messages(group@)
                &&& flatten_vecs(plan.batches@) == spec_image_entries(group@)
                &&& forall|i: int| 0 <= i < plan.batches@.len() ==> plan.batches@[i]@.len() > 0
                &&& forall|i: int|
                    0 <= i < plan.batches@.len() ==> (sum_sizes(plan.batches@[i]@)
                        <= max_request_size || plan.batches@[i]@.len() == 1)
                &&& forall|i: int|
                    0 <= i < plan.batches@.len() - 1 ==> sum_sizes(plan.batches@[i]@)
                        + plan.batches@[i + 1]@[0].size > max_request_size
            },
            Err(e) => {
                ||| (override_name is None && spec_group_name(group@)
                    == Result::<Seq<char>, ErrorModel>::Err(e@))
                ||| (spec_first_error(group@) is Some && e@ == ErrorModel::EntryUnreadable(
                    spec_first_error(group@)->Some_0,
                ))
            },
        },
{
    let name = match override_name {
        Some(n) => n.clone(),
        None => match get_directory_name(group) {
            Ok(n) => n,
            Err(e) => {
                return Err(e);
            },
        },
    };

    let mut dir_messages: Vec<String> = Vec::new();
    let mut i: usize = 0;
    proof {
        assert(group@.take(0int) =~= Seq::<EntryResult>::empty());
        assert(group@.skip(0int) =~= group@);
    }
    while i < group.len()
        invariant
            i <= group@.len(),
            forall|j: int| 0 <= j < i ==> group@[j] is Ok,
            spec_first_error(group@) == spec_first_error(group@.skip(i as int)),
            dir_messages@.map_values(|s: String| s@) == spec_dir_messages(group@.take(i as int)),
        decreases group@.len() - i,
    {
        proof {
            assert(group@.take(i + 1int).drop_last() =~= group@.take(i as int));
            assert(group@.take(i + 1int).last() == group@[i as int]);
            assert(group@.skip(i as int).drop_first() =~= group@.skip(i + 1int));
            assert(group@.skip(i as int)[0int] == group@[i as int]);
        }
        match &group[i] {
            Err(m) => {
                return Err(ProcessingError::EntryUnreadable(m.clone()));
            },
            Ok(en) => {
                if en.is_dir {
                    let ghost before = dir_messages@;
                    let stem = file_stem(en.path.as_str());
                    dir_messages.push(String::from_str(stem));
                    proof {
                        assert(dir_messages@.map_values(|s: String| s@) =~= before.map_values(
                            |s: String| s@,
                        ).push(spec_file_stem(en.path@)));
                    }
                }
            },
        }
        i = i + 1;
    }
    proof {
        assert(group@.take(group@.len() as int) =~= group@);
        assert(group@.skip(group@.len() as int) =~= Seq::<EntryResult>::empty());
    }

    let images = image_entries(group);
    let file_count: usize = images.len();
    let batches = plan_batches(images, max_request_size);
    Ok(GroupPlan { name, file_count, dir_messages, batches })
}

} // verus!
