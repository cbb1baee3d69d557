//! Classification of per-file training outcomes into a batch result.
//!
//! Uploading a batch for training answers one outcome per file: an HTTP
//! status, or no answer at all.  The fold here turns those outcomes into a
//! [`FaceProcessingResult`]: an accepted status counts as a success, any
//! other status as a failure with the file recorded, and a transport
//! failure as a miss.

use vstd::prelude::*;

use crate::result::counts_consistent;
use crate::result::view_faces;
use crate::result::view_strings;
use crate::result::FaceProcessingResult;
use crate::result::FailureFace;
use crate::result::FailureModel;

verus! {

/// The CompreFace-backed training pipeline, as a unit the caller wires to
/// its transport.
pub struct ComprefaceTrainLogic;

impl ComprefaceTrainLogic {
    pub fn new() -> Self {
        ComprefaceTrainLogic {  }
    }
}

/// What became of one file sent for training.
#[derive(Debug, Clone, Copy, PartialEq, Eq, Structural)]
pub enum TrainFileOutcome {
    /// The request got no answer (transport failure).
    Transport,
    /// The service answered with this HTTP status code.
    Status(u16),
}

/// The service accepted the file.
pub open spec fn spec_train_success(o: TrainFileOutcome) -> bool {
    o matches TrainFileOutcome::Status(c) && (c == 200 || c == 201)
}

/// The service answered but did not accept the file.
pub open spec fn spec_train_failure(o: TrainFileOutcome) -> bool {
    o matches TrainFileOutcome::Status(c) && !(c == 200 || c == 201)
}

/// The file never got an answer.
pub open spec fn spec_train_missed(o: TrainFileOutcome) -> bool {
    o is Transport
}

/// How many outcomes were successes.
pub open spec fn spec_train_success_count(outs: Seq<TrainFileOutcome>) -> int
    decreases outs.len(),
{
    if outs.len() == 0 {
        0
    } else {
        spec_train_success_count(outs.drop_last()) + if spec_train_success(outs.last()) {
            1int
        } else {
            0int
        }
    }
}

/// How many outcomes were failures.
pub open spec fn spec_train_failure_count(outs: Seq<TrainFileOutcome>) -> int
    decreases outs.len(),
{
    if outs.len() == 0 {
        0
    } else {
        spec_train_failure_count(outs.drop_last()) + if spec_train_failure(outs.last()) {
            1int
        } else {
            0int
        }
    }
}

/// How many outcomes were misses.
pub open spec fn spec_train_missed_count(outs: Seq<TrainFileOutcome>) -> int
    decreases outs.len(),
{
    if outs.len() == 0 {
        0
    } else {
        spec_train_missed_count(outs.drop_last()) + if spec_train_missed(outs.last()) {
            1int
        } else {
            0int
        }
    }
}

/// The rejected files, in order, tagged for training mode.
pub open spec fn spec_train_failure_list(
    paths: Seq<Seq<char>>,
    outs: Seq<TrainFileOutcome>,
) -> Seq<FailureModel>
    decreases outs.len(),
{
    if outs.len() == 0 || paths.len() == 0 {
        Seq::empty()
    } else {
        let prefix = spec_train_failure_list(paths.drop_last(), outs.drop_last());
        if spec_train_failure(outs.last()) {
            prefix.push(FailureModel::Train(paths.last()))
        } else {
            prefix
        }
    }
}

/// The unanswered files, in order.
pub open spec fn spec_train_missed_list(
    paths: Seq<Seq<char>>,
    outs: Seq<TrainFileOutcome>,
) -> Seq<Seq<char>>
    decreases outs.len(),
{
    if outs.len() == 0 || paths.len() == 0 {
        Seq::empty()
    } else {
        let prefix = spec_train_missed_list(paths.drop_last(), outs.drop_last());
        if spec_train_missed(outs.last()) {
            prefix.push(paths.last())
        } else {
            prefix
        }
    }
}

/// Fold the per-file outcomes of one training batch into a result.
///
/// Every file is counted: the total is the batch size, and every outcome
/// lands in exactly one of success, failure or missed, so the result is
/// consistent.
pub fn train_batch_result(
    context: String,
    paths: &Vec<String>,
    outcomes: &Vec<TrainFileOutcome>,
) -> (r: FaceProcessingResult)
    requires
        paths@.len() == outcomes@.len(),
    ensures
        r@.total == paths@.len(),
        r@.success == spec_train_success_count(outcomes@),
        r@.failure == spec_train_failure_count(outcomes@),
        r@.missed == spec_train_missed_count(outcomes@),
        r@.failure_faces == spec_train_failure_list(view_strings(paths@), outcomes@),
        r@.missed_faces == spec_train_missed_list(view_strings(paths@), outcomes@),
        r@.context == context@,
        counts_consistent(r@),
{
    let ghost pv = view_strings(paths@);
    let mut success_count: usize = 0;
    let mut failure_count: usize = 0;
    let mut missed_count: usize = 0;
    let mut failure_faces: Vec<FailureFace> = Vec::new();
    let mut missed_faces: Vec<String> = Vec::new();
    let mut i: usize = 0;
    proof {
        assert(outcomes@.take(0int) =~= Seq::<TrainFileOutcome>::empty());
        assert(pv.take(0int) =~= Seq::<Seq<char>>::empty());
        assert(view_faces(failure_faces@) =~= Seq::<FailureModel>::empty());
        assert(view_strings(missed_faces@) =~= Seq::<Seq<char>>::empty());
    }
    while i < outcomes.len()
        invariant
            i <= outcomes@.len(),
            paths@.len() == outcomes@.len(),
            pv == view_strings(paths@),
            success_count + failure_count + missed_count == i,
            success_count as int == spec_train_success_count(outcomes@.take(i as int)),
            failure_count as int == spec_train_failure_count(outcomes@.take(i as int)),
            missed_count as int == spec_train_missed_count(outcomes@.take(i as int)),
            view_faces(failure_faces@) == spec_train_failure_list(
                pv.take(i as int),
                outcomes@.take(i as int),
            ),
            view_strings(missed_faces@) == spec_train_missed_list(
                pv.take(i as int),
                outcomes@.take(i as int),
            ),
        decreases outcomes@.len() - i,
    {
        proof {
            assert(outcomes@.take(i + 1int).drop_last() =~= outcomes@.take(i as int));
            assert(outcomes@.take(i + 1int).last() == outcomes@[i as int]);
            assert(pv.take(i + 1int).drop_last() =~= pv.take(i as int));
            assert(pv.take(i + 1int).last() == paths@[i as int]@);
        }
        match outcomes[i] {
            TrainFileOutcome::Transport => {
                missed_count = missed_count + 1;
                let ghost before = missed_faces@;
                missed_faces.push(paths[i].clone());
                proof {
                    assert(view_strings(missed_faces@) =~= view_strings(before).push(
                        paths@[i as int]@,
                    ));
                }
            },
            TrainFileOutcome::Status(code) => {
                if code == 200 || code == 201 {
                    success_count = success_count + 1;
                } else {
                    failure_count = failure_count + 1;
                    let ghost before = failure_faces@;
                    failure_faces.push(FailureFace::Train(paths[i].clone()));
                    proof {
                        assert(view_faces(failure_faces@) =~= view_faces(before).push(
                            FailureModel::Train(paths@[i as int]@),
                        ));
                    }
                }
            },
        }
        i = i + 1;
    }
    proof {
        assert(outcomes@.take(outcomes@.len() as int) =~= outcomes@);
        assert(pv.take(outcomes@.len() as int) =~= pv);
    }
    FaceProcessingResult {
        total_count: paths.len(),
        success_count,
        failure_count,
        failure_faces,
        missed_count,
        missed_faces,
        context,
    }
}

} // verus!
