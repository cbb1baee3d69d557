//! Classification of per-file recognition outcomes into a batch result.
//!
//! Recognizing a batch answers, per file, either a parsed response — a list
//! of detected faces, each with its candidate subjects — or nothing usable
//! (transport failure, or a response that would not parse).  A response
//! counts as a success when any of its candidates carries the expected
//! subject name; otherwise the file is a failure and keeps all returned
//! candidates for the later triage.  An unusable answer counts as a miss.

use vstd::prelude::*;
use vstd::string::StringExecFns;

use crate::paths::parent;
use crate::paths::spec_parent;
use crate::paths::str_eq;
use crate::result::counts_consistent;
use crate::result::view_faces;
use crate::result::view_strings;
use crate::result::FaceModel;
use crate::result::FaceProcessingResult;
use crate::result::FaceWithMetadata;
use crate::result::FailureFace;
use crate::result::FailureModel;
use crate::result::Subject;

verus! {

/// One detected face of a recognition response, with its candidate
/// subjects.
#[derive(Debug, PartialEq, Eq)]
pub struct ResultItem {
    pub subjects: Vec<Subject>,
}

impl View for ResultItem {
    type V = Seq<Subject>;

    open spec fn view(&self) -> Seq<Subject> {
        self.subjects@
    }
}

/// The views of a vector of result items.
pub open spec fn view_items(v: Seq<ResultItem>) -> Seq<Seq<Subject>> {
    v.map_values(|it: ResultItem| it.subjects@)
}

/// A parsed recognition response: one item per detected face.
#[derive(Debug, PartialEq, Eq)]
pub struct RecognitionApiResponse {
    pub result: Vec<ResultItem>,
}

impl View for RecognitionApiResponse {
    type V = Seq<Seq<Subject>>;

    open spec fn view(&self) -> Seq<Seq<Subject>> {
        view_items(self.result@)
    }
}

/// All candidate subjects of a response, across its items, in order.
pub open spec fn spec_all_subjects(items: Seq<Seq<Subject>>) -> Seq<Subject>
    decreases items.len(),
{
    if items.len() == 0 {
        Seq::empty()
    } else {
        spec_all_subjects(items.drop_last()) + items.last()
    }
}

impl RecognitionApiResponse {
    /// The candidate subjects of all items, flattened in order.
    pub fn get_subjects(&self) -> (r: Vec<Subject>)
        ensures
            r@ == spec_all_subjects(self@),
    {
        let ghost iv = self@;
        let mut out: Vec<Subject> = Vec::new();
        let mut i: usize = 0;
        proof {
            assert(iv.take(0int) =~= Seq::<Seq<Subject>>::empty());
        }
        while i < self.result.len()
            invariant
                i <= self.result@.len(),
                iv == self@,
                out@ == spec_all_subjects(iv.take(i as int)),
            decreases self.result@.len() - i,
        {
            proof {
                assert(iv.take(i + 1int).drop_last() =~= iv.take(i as int));
                assert(iv.take(i + 1int).last() == self.result@[i as int].subjects@);
            }
            let subjects = &self.result[i].subjects;
            let mut j: usize = 0;
            let ghost mid = out@;
            while j < subjects.len()
                invariant
                    j <= subjects@.len(),
                    out@ == mid + subjects@.take(j as int),
                decreases subjects@.len() - j,
            {
                proof {
                    assert(subjects@.take(j + 1int) =~= subjects@.take(j as int).push(
                        subjects@[j as int],
                    ));
                }
                out.push(subjects[j].clone());
                proof {
                    assert(out@ =~= mid + subjects@.take(j + 1int));
                }
                j = j + 1;
            }
            proof {
                assert(subjects@.take(subjects@.len() as int) =~= subjects@);
            }
            i = i + 1;
        }
        proof {
            assert(iv.take(self.result@.len() as int) =~= iv);
        }
        out
    }
}

/// One detected face carries a candidate with this name.
pub open spec fn item_has_name(item: Seq<Subject>, name: Seq<char>) -> bool {
    exists|j: int| 0 <= j < item.len() && item[j].name@ == name
}

/// Some item of the response carries a candidate with this name.
pub open spec fn spec_matches_name(items: Seq<Seq<Subject>>, name: Seq<char>) -> bool {
    exists|i: int| 0 <= i < items.len() && item_has_name(items[i], name)
}

/// Whether the response recognized the expected subject.
pub fn response_matches(resp: &RecognitionApiResponse, name: &str) -> (r: bool)
    ensures
        r == spec_matches_name(resp@, name@),
{
    let ghost iv = resp@;
    let mut i: usize = 0;
    while i < resp.result.len()
        invariant
            i <= resp.result@.len(),
            iv == resp@,
            forall|a: int| 0 <= a < i ==> !item_has_name(#[trigger] iv[a], name@),
        decreases resp.result@.len() - i,
    {
        let subjects = &resp.result[i].subjects;
        let mut j: usize = 0;
        while j < subjects.len()
            invariant
                j <= subjects@.len(),
                iv == resp@,
                subjects@ == iv[i as int],
                i < iv.len(),
                forall|b: int| 0 <= b < j ==> iv[i as int][b].name@ != name@,
            decreases subjects@.len() - j,
        {
            if str_eq(subjects[j].name.as_str(), name) {
                proof {
                    assert(item_has_name(iv[i as int], name@)) by {
                        assert(0 <= j < iv[i as int].len() && iv[i as int][j as int].name@
                            == name@);
                    }
                    assert(spec_matches_name(resp@, name@)) by {
                        assert(0 <= i < resp@.len() && item_has_name(resp@[i as int], name@));
                    }
                }
                return true;
            }
            j = j + 1;
        }
        proof {
            assert(!item_has_name(iv[i as int], name@));
        }
        i = i + 1;
    }
    false
}

/// What became of one file sent for recognition.
#[derive(Debug, PartialEq, Eq)]
pub enum RecognizeFileOutcome {
    /// The request got no answer (transport failure).
    Transport,
    /// The answer could not be parsed.
    InvalidResponse,
    /// The parsed response.
    Response(RecognitionApiResponse),
}

/// Mathematical model of a [`RecognizeFileOutcome`].
#[verifier::ext_equal]
pub enum RecognizeOutcomeModel {
    Transport,
    InvalidResponse,
    Response(Seq<Seq<Subject>>),
}

impl View for RecognizeFileOutcome {
    type V = RecognizeOutcomeModel;

    open spec fn view(&self) -> RecognizeOutcomeModel {
        match self {
            RecognizeFileOutcome::Transport => RecognizeOutcomeModel::Transport,
            RecognizeFileOutcome::InvalidResponse => RecognizeOutcomeModel::InvalidResponse,
            RecognizeFileOutcome::Response(resp) => RecognizeOutcomeModel::Response(resp@),
        }
    }
}

/// The views of a vector of recognition outcomes.
pub open spec fn view_outcomes(v: Seq<RecognizeFileOutcome>) -> Seq<RecognizeOutcomeModel> {
    v.map_values(|o: RecognizeFileOutcome| o@)
}

/// The expected subject was recognized.
pub open spec fn spec_recognize_success(o: RecognizeOutcomeModel, name: Seq<char>) -> bool {
    o matches RecognizeOutcomeModel::Response(items) && spec_matches_name(items, name)
}

/// The service answered, but without the expected subject.
pub open spec fn spec_recognize_failure(o: RecognizeOutcomeModel, name: Seq<char>) -> bool {
    o matches RecognizeOutcomeModel::Response(items) && !spec_matches_name(items, name)
}

/// No usable answer came back.
pub open spec fn spec_recognize_missed(o: RecognizeOutcomeModel) -> bool {
    o is Transport || o is InvalidResponse
}

/// How many outcomes recognized the subject.
pub open spec fn spec_recognize_success_count(
    outs: Seq<RecognizeOutcomeModel>,
    name: Seq<char>,
) -> int
    decreases outs.len(),
{
    if outs.len() == 0 {
        0
    } else {
        spec_recognize_success_count(outs.drop_last(), name) + if spec_recognize_success(
            outs.last(),
            name,
        ) {
            1int
        } else {
            0int
        }
    }
}

/// How many outcomes answered without the subject.
pub open spec fn spec_recognize_failure_count(
    outs: Seq<RecognizeOutcomeModel>,
    name: Seq<char>,
) -> int
    decreases outs.len(),
{
    if outs.len() == 0 {
        0
    } else {
        spec_recognize_failure_count(outs.drop_last(), name) + if spec_recognize_failure(
            outs.last(),
            name,
        ) {
            1int
        } else {
            0int
        }
    }
}

/// How many outcomes were unusable.
pub open spec fn spec_recognize_missed_count(outs: Seq<RecognizeOutcomeModel>) -> int
    decreases outs.len(),
{
    if outs.len() == 0 {
        0
    } else {
        spec_recognize_missed_count(outs.drop_last()) + if spec_recognize_missed(outs.last()) {
            1int
        } else {
            0int
        }
    }
}

/// The unrecognized files, in order, each carrying all returned candidates.
pub open spec fn spec_recognize_failure_list(
    paths: Seq<Seq<char>>,
    outs: Seq<RecognizeOutcomeModel>,
    name: Seq<char>,
) -> Seq<FailureModel>
    decreases outs.len(),
{
    if outs.len() == 0 || paths.len() == 0 {
        Seq::empty()
    } else {
        let prefix = spec_recognize_failure_list(paths.drop_last(), outs.drop_last(), name);
        match outs.last() {
            RecognizeOutcomeModel::Response(items) => if !spec_matches_name(items, name) {
                prefix.push(
                    FailureModel::Recognize(
                        FaceModel { path: paths.last(), subjects: spec_all_subjects(items) },
                    ),
                )
            } else {
                prefix
            },
            _ => prefix,
        }
    }
}

/// The unanswered files, in order.
pub open spec fn spec_recognize_missed_list(
    paths: Seq<Seq<char>>,
    outs: Seq<RecognizeOutcomeModel>,
) -> Seq<Seq<char>>
    decreases outs.len(),
{
    if outs.len() == 0 || paths.len() == 0 {
        Seq::empty()
    } else {
        let prefix = spec_recognize_missed_list(paths.drop_last(), outs.drop_last());
        if spec_recognize_missed(outs.last()) {
            prefix.push(paths.last())
        } else {
            prefix
        }
    }
}

/// The context label of a batch: the folder of its first file.
pub fn batch_context(paths: &Vec<String>) -> (r: String)
    requires
        paths@.len() > 0,
        spec_parent(paths@[0]@) is Some,
    ensures
        r@ == spec_parent(paths@[0]@)->Some_0,
{
    let par = match parent(paths[0].as_str()) {
        Some(par) => par,
        None => {
            proof {
                assert(false);
            }
            ""
        },
    };
    String::from_str(par)
}

/// Fold the per-file outcomes of one recognition batch into a result.
///
/// Every file is counted: the total is the batch size, and every outcome
/// lands in exactly one of success, failure or missed, so the result is
/// consistent.
pub fn recognize_batch_result(
    context: String,
    paths: &Vec<String>,
    outcomes: &Vec<RecognizeFileOutcome>,
    name: &str,
) -> (r: FaceProcessingResult)
    requires
        paths@.len() == outcomes@.len(),
    ensures
        r@.total == paths@.len(),
        r@.success == spec_recognize_success_count(view_outcomes(outcomes@), name@),
        r@.failure == spec_recognize_failure_count(view_outcomes(outcomes@), name@),
        r@.missed == spec_recognize_missed_count(view_outcomes(outcomes@)),
        r@.failure_faces == spec_recognize_failure_list(
            view_strings(paths@),
            view_outcomes(outcomes@),
            name@,
        ),
        r@.missed_faces == spec_recognize_missed_list(
            view_strings(paths@),
            view_outcomes(outcomes@),
        ),
        r@.context == context@,
        counts_consistent(r@),
{
    let ghost pv = view_strings(paths@);
    let ghost ov = view_outcomes(outcomes@);
    let mut success_count: usize = 0;
    let mut failure_count: usize = 0;
    let mut missed_count: usize = 0;
    let mut failure_faces: Vec<FailureFace> = Vec::new();
    let mut missed_faces: Vec<String> = Vec::new();
    let mut i: usize = 0;
    proof {
        assert(ov.take(0int) =~= Seq::<RecognizeOutcomeModel>::empty());
        assert(pv.take(0int) =~= Seq::<Seq<char>>::empty());
        assert(view_faces(failure_faces@) =~= Seq::<FailureModel>::empty());
        assert(view_strings(missed_faces@) =~= Seq::<Seq<char>>::empty());
    }
    while i < outcomes.len()
        invariant
            i <= outcomes@.len(),
            paths@.len() == outcomes@.len(),
            pv == view_strings(paths@),
            ov == view_outcomes(outcomes@),
            success_count + failure_count + missed_count == i,
            success_count as int == spec_recognize_success_count(ov.take(i as int), name@),
            failure_count as int == spec_recognize_failure_count(ov.take(i as int), name@),
            missed_count as int == spec_recognize_missed_count(ov.take(i as int)),
            view_faces(failure_faces@) == spec_recognize_failure_list(
                pv.take(i as int),
                ov.take(i as int),
                name@,
            ),
            view_strings(missed_faces@) == spec_recognize_missed_list(
                pv.take(i as int),
                ov.take(i as int),
            ),
        decreases outcomes@.len() - i,
    {
        proof {
            assert(ov.take(i + 1int).drop_last() =~= ov.take(i as int));
            assert(ov.take(i + 1int).last() == outcomes@[i as int]@);
            assert(pv.take(i + 1int).drop_last() =~= pv.take(i as int));
            assert(pv.take(i + 1int).last() == paths@[i as int]@);
        }
        match &outcomes[i] {
            RecognizeFileOutcome::Transport | RecognizeFileOutcome::InvalidResponse => {
                missed_count = missed_count + 1;
                let ghost before = missed_faces@;
                missed_faces.push(paths[i].clone());
                proof {
                    assert(view_strings(missed_faces@) =~= view_strings(before).push(
                        paths@[i as int]@,
                    ));
                }
            },
            RecognizeFileOutcome::Response(resp) => {
                if response_matches(resp, name) {
                    success_count = success_count + 1;
                } else {
                    failure_count = failure_count + 1;
                    let subjects = resp.get_subjects();
                    let ghost before = failure_faces@;
                    failure_faces.push(
                        FailureFace::Recognize(
                            FaceWithMetadata { path: paths[i].clone(), subjects },
                        ),
                    );
                    proof {
                        assert(view_faces(failure_faces@) =~= view_faces(before).push(
                            FailureModel::Recognize(
                                FaceModel {
                                    path: paths@[i as int]@,
                                    subjects: spec_all_subjects(resp@),
                                },
                            ),
                        ));
                    }
                }
            },
        }
        i = i + 1;
    }
    proof {
        assert(ov.take(outcomes@.len() as int) =~= ov);
        assert(pv.take(outcomes@.len() as int) =~= pv);
    }
    FaceProcessingResult {
        total_count: paths.len(),
        success_count,
        failure_count,
        failure_faces,
        missed_count,
        missed_faces,
        context,
    }
}

} // verus!
