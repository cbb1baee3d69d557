//! Accumulated outcome of a processing run.
//!
//! A [`FaceProcessingResult`] counts how many files were attempted, how many
//! succeeded, how many the service rejected, and how many could not be
//! processed at all, together with the lists of rejected and unprocessed
//! files.  Per-batch results are merged into one running total with
//! [`FaceProcessingResult::add`]; merging is associative on the counts and
//! order-preserving on the lists.

use vstd::prelude::*;

verus! {

/// A candidate subject reported by the recognition service for one face.
///
/// The similarity score is kept in thousandths (a score of `0.93` is stored
/// as `930`), so that scores can be compared exactly.
#[derive(Debug, PartialEq, Eq)]
pub struct Subject {
    pub name: String,
    pub similarity: u32,
}

impl Clone for Subject {
    fn clone(&self) -> (r: Self)
        ensures
            r == *self,
    {
        Subject { name: self.name.clone(), similarity: self.similarity }
    }
}

/// A recognized file together with the candidate subjects the service
/// returned for it.
#[derive(Debug, PartialEq, Eq)]
pub struct FaceWithMetadata {
    /// Path of the image file.
    pub path: String,
    /// Candidate subjects reported for this face.
    pub subjects: Vec<Subject>,
}

/// Mathematical model of a [`FaceWithMetadata`].
#[verifier::ext_equal]
pub struct FaceModel {
    pub path: Seq<char>,
    pub subjects: Seq<Subject>,
}

impl View for FaceWithMetadata {
    type V = FaceModel;

    open spec fn view(&self) -> FaceModel {
        FaceModel { path: self.path@, subjects: self.subjects@ }
    }
}

impl Clone for FaceWithMetadata {
    fn clone(&self) -> (r: Self)
        ensures
            r@ == self@,
    {
        let subjects = self.subjects.clone();
        let r = FaceWithMetadata { path: self.path.clone(), subjects };
        proof {
            assert(r@ =~= self@);
        }
        r
    }
}

/// A file the service did not accept, tagged by the mode it failed in.
#[derive(Debug, PartialEq, Eq)]
pub enum FailureFace {
    /// Training mode: only the path of the rejected file is relevant.
    Train(String),
    /// Recognition mode: the path plus the candidate subjects returned.
    Recognize(FaceWithMetadata),
}

/// Mathematical model of a [`FailureFace`].
#[verifier::ext_equal]
pub enum FailureModel {
    Train(Seq<char>),
    Recognize(FaceModel),
}

impl View for FailureFace {
    type V = FailureModel;

    open spec fn view(&self) -> FailureModel {
        match self {
            FailureFace::Train(path) => FailureModel::Train(path@),
            FailureFace::Recognize(m) => FailureModel::Recognize(m@),
        }
    }
}

impl Clone for FailureFace {
    fn clone(&self) -> (r: Self)
        ensures
            r@ == self@,
    {
        match self {
            FailureFace::Train(path) => FailureFace::Train(path.clone()),
            FailureFace::Recognize(m) => FailureFace::Recognize(m.clone()),
        }
    }
}

/// The views of a vector of strings.
pub open spec fn view_strings(v: Seq<String>) -> Seq<Seq<char>> {
    v.map_values(|s: String| s@)
}

/// The views of a vector of failure faces.
pub open spec fn view_faces(v: Seq<FailureFace>) -> Seq<FailureModel> {
    v.map_values(|f: FailureFace| f@)
}

/// Mathematical model of a [`FaceProcessingResult`].
#[verifier::ext_equal]
pub struct ResultModel {
    pub total: int,
    pub success: int,
    pub failure: int,
    pub missed: int,
    pub failure_faces: Seq<FailureModel>,
    pub missed_faces: Seq<Seq<char>>,
    pub context: Seq<char>,
}

/// The model of merging a partial result `y` into a running total `x`:
/// counts are summed and the lists of `y` follow those of `x`; the context
/// of the running total is kept.
pub open spec fn merged(x: ResultModel, y: ResultModel) -> ResultModel {
    ResultModel {
        total: x.total + y.total,
        success: x.success + y.success,
        failure: x.failure + y.failure,
        missed: x.missed + y.missed,
        failure_faces: x.failure_faces + y.failure_faces,
        missed_faces: x.missed_faces + y.missed_faces,
        context: x.context,
    }
}

/// The bookkeeping invariant of a result: every attempted file is counted
/// exactly once, as a success, a failure, or a miss.
pub open spec fn counts_consistent(m: ResultModel) -> bool {
    m.total == m.success + m.failure + m.missed
}

/// Running outcome of a processing run.
#[derive(Debug)]
pub struct FaceProcessingResult {
    /// The total number of faces that were queried.
    pub total_count: usize,
    /// The number of faces that were processed successfully.
    pub success_count: usize,
    /// The number of faces the service did not accept.
    pub failure_count: usize,
    /// The faces the service did not accept.
    pub failure_faces: Vec<FailureFace>,
    /// The number of faces that could not be processed at all.
    pub missed_count: usize,
    /// The faces that could not be processed at all.
    pub missed_faces: Vec<String>,
    /// A label describing what this result accumulates.
    pub context: String,
}

impl View for FaceProcessingResult {
    type V = ResultModel;

    open spec fn view(&self) -> ResultModel {
        ResultModel {
            total: self.total_count as int,
            success: self.success_count as int,
            failure: self.failure_count as int,
            missed: self.missed_count as int,
            failure_faces: self.failure_faces@.map_values(|f: FailureFace| f@),
            missed_faces: self.missed_faces@.map_values(|s: String| s@),
            context: self.context@,
        }
    }
}

impl FaceProcessingResult {
    /// An empty result carrying only its context label.
    pub fn with_context(context: String) -> (r: Self)
        ensures
            r@.total == 0,
            r@.success == 0,
            r@.failure == 0,
            r@.missed == 0,
            r@.failure_faces == Seq::<FailureModel>::empty(),
            r@.missed_faces == Seq::<Seq<char>>::empty(),
            r@.context == context@,
    {
        let r = FaceProcessingResult {
            total_count: 0,
            success_count: 0,
            failure_count: 0,
            failure_faces: Vec::new(),
            missed_count: 0,
            missed_faces: Vec::new(),
            context,
        };
        proof {
            assert(r@.failure_faces =~= Seq::<FailureModel>::empty());
            assert(r@.missed_faces =~= Seq::<Seq<char>>::empty());
        }
        r
    }

    /// Merge another result into this one: counts are summed, the lists of
    /// the other result are appended in order, and the context is kept.
    pub fn add(&mut self, other: FaceProcessingResult)
        requires
            old(self).total_count + other.total_count <= usize::MAX,
            old(self).success_count + other.success_count <= usize::MAX,
            old(self).failure_count + other.failure_count <= usize::MAX,
            old(self).missed_count + other.missed_count <= usize::MAX,
        ensures
            final(self)@ == merged(old(self)@, other@),
    {
        let ghost other0 = other;
        let mut other = other;
        self.total_count = self.total_count + other.total_count;
        self.success_count = self.success_count + other.success_count;
        self.failure_count = self.failure_count + other.failure_count;
        self.failure_faces.append(&mut other.failure_faces);
        self.missed_count = self.missed_count + other.missed_count;
        self.missed_faces.append(&mut other.missed_faces);
        proof {
            assert(self@ =~= merged(old(self)@, other0@));
        }
    }
}

impl Clone for FaceProcessingResult {
    fn clone(&self) -> (r: Self)
        ensures
            r@ == self@,
    {
        let failure_faces = self.failure_faces.clone();
        let missed_faces = self.missed_faces.clone();
        let r = FaceProcessingResult {
            total_count: self.total_count,
            success_count: self.success_count,
            failure_count: self.failure_count,
            failure_faces,
            missed_count: self.missed_count,
            missed_faces,
            context: self.context.clone(),
        };
        proof {
            assert(r@ =~= self@);
        }
        r
    }
}

/// Progress of a long-running operation, as far as a reporting consumer
/// needs to know it.
pub trait ProcessProgress {
    fn get_total_count(&self) -> usize;

    fn get_success_count(&self) -> usize;
}

impl ProcessProgress for FaceProcessingResult {
    fn get_total_count(&self) -> (r: usize)
        ensures
            r == self.total_count,
    {
        self.total_count
    }

    fn get_success_count(&self) -> (r: usize)
        ensures
            r == self.success_count,
    {
        self.success_count
    }
}

/// Merging results is associative: merging partial results in any grouping
/// order yields the same final totals and the same lists.
pub proof fn lemma_merge_associative(a: ResultModel, b: ResultModel, c: ResultModel)
    ensures
        merged(merged(a, b), c) == merged(a, merged(b, c)),
{
    assert(merged(merged(a, b), c) =~= merged(a, merged(b, c)));
}

/// The counts of a merge do not depend on the order of the two results;
/// only the list order and the context do.
pub proof fn lemma_merge_counts_commutative(a: ResultModel, b: ResultModel)
    ensures
        merged(a, b).total == merged(b, a).total,
        merged(a, b).success == merged(b, a).success,
        merged(a, b).failure == merged(b, a).failure,
        merged(a, b).missed == merged(b, a).missed,
{
}

/// Merging two consistent results yields a consistent result: the invariant
/// `total == success + failure + missed` holds after every merge.
pub proof fn lemma_merge_preserves_consistency(a: ResultModel, b: ResultModel)
    requires
        counts_consistent(a),
        counts_consistent(b),
    ensures
        counts_consistent(merged(a, b)),
{
}

} // verus!
